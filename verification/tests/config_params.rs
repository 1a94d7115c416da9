use flowlocker::config::{config, core_config, Config, CoreConfig};
use flowlocker::env::{get_env_duration, get_env_parse, Error};
use flowlocker::params::{string_to_duration, NewProcess, ProcessData, UnlockProcess, UpdateProcess};
use flowlocker::status::OperationStatus;

fn s(v: &str) -> Option<String> {
    Some(v.to_string())
}

#[test]
fn duration_strings() {
    assert_eq!(string_to_duration("60s"), Some(60));
    assert_eq!(string_to_duration("5m"), Some(300));
    assert_eq!(string_to_duration("2h"), Some(7200));
    assert_eq!(string_to_duration("0s"), Some(0));
    assert_eq!(string_to_duration("10x"), None);
    assert_eq!(string_to_duration("s"), None);
    assert_eq!(string_to_duration(""), None);
    assert_eq!(string_to_duration("-5s"), None);
    assert_eq!(string_to_duration("1 h"), None);
    // More seconds than a 64-bit count can hold.
    assert_eq!(string_to_duration("99999999999999999999s"), None);
    assert_eq!(string_to_duration("18446744073709551615s"), Some(u64::MAX));
    assert_eq!(string_to_duration("9000000000000000000h"), None);
}

#[test]
fn eta_of_a_new_process_payload() {
    let payload = NewProcess {
        app: "svc".to_string(),
        process: "job".to_string(),
        eta: "90s".to_string(),
    };
    assert_eq!(payload.eta_to_u64(), Some(90));
    let bad = NewProcess {
        app: "svc".to_string(),
        process: "job".to_string(),
        eta: "soon".to_string(),
    };
    assert_eq!(bad.eta_to_u64(), None);
}

#[test]
fn payload_statuses() {
    assert_eq!(UnlockProcess {}.get_status(), OperationStatus::Completed);
    let u = UpdateProcess { status: OperationStatus::Canceled };
    assert_eq!(u.get_status(), OperationStatus::Canceled);
}

#[test]
fn env_i32_parsing() {
    assert_eq!(get_env_parse(s("12")), Ok(12));
    assert_eq!(get_env_parse(s("-7")), Ok(-7));
    assert_eq!(get_env_parse(s("+8")), Ok(8));
    assert_eq!(get_env_parse(s("2147483647")), Ok(i32::MAX));
    assert_eq!(get_env_parse(s("-2147483648")), Ok(i32::MIN));
    assert_eq!(get_env_parse(s("2147483648")), Err(Error::WrongFormat));
    assert_eq!(get_env_parse(s("-2147483649")), Err(Error::WrongFormat));
    assert_eq!(get_env_parse(s("12a")), Err(Error::WrongFormat));
    assert_eq!(get_env_parse(s("")), Err(Error::WrongFormat));
    assert_eq!(get_env_parse(s("-")), Err(Error::WrongFormat));
    assert_eq!(get_env_parse(None), Err(Error::MissingEnv));
}

#[test]
fn env_duration_parsing() {
    assert_eq!(get_env_duration(s("30s")), Ok(30_000));
    assert_eq!(get_env_duration(s("1500ms")), Ok(1500));
    assert_eq!(get_env_duration(s("0ms")), Ok(0));
    assert_eq!(get_env_duration(s("5m")), Err(Error::WrongFormat));
    assert_eq!(get_env_duration(s("ms")), Err(Error::WrongFormat));
    assert_eq!(get_env_duration(s("12")), Err(Error::WrongFormat));
    assert_eq!(get_env_duration(None), Err(Error::MissingEnv));
}

#[test]
fn config_from_env_values() {
    let c: Config = config(s("dev"), s("30s"), s("root"), s("secret")).unwrap();
    assert_eq!(c.development, "dev");
    assert_eq!(c.sch_interval, 30_000);
    assert_eq!(c.db_user, "root");
    assert_eq!(c.db_password, "secret");

    // A missing development flag defaults to the empty string.
    let c = config(None, s("500ms"), s("u"), s("p")).unwrap();
    assert_eq!(c.development, "");
    assert_eq!(c.sch_interval, 500);

    assert_eq!(
        config(None, None, s("u"), s("p")).unwrap_err(),
        Error::MissingEnv
    );
    assert_eq!(
        config(None, s("fast"), s("u"), s("p")).unwrap_err(),
        Error::WrongFormat
    );
    assert_eq!(
        config(None, s("30s"), None, s("p")).unwrap_err(),
        Error::MissingEnv
    );
    assert_eq!(
        config(None, s("30s"), s("u"), None).unwrap_err(),
        Error::MissingEnv
    );
}

#[test]
fn core_config_from_env_values() {
    let c: CoreConfig = core_config(s("ws://db:8000"), s("16"), s("web/")).unwrap();
    assert_eq!(c.db_url, "ws://db:8000");
    assert_eq!(c.db_max_connection, 16);
    assert_eq!(c.web_folder, "web/");

    assert_eq!(
        core_config(s("ws://db"), None, s("web/")).unwrap_err(),
        Error::MissingEnv
    );
    assert_eq!(
        core_config(s("ws://db"), s("many"), s("web/")).unwrap_err(),
        Error::WrongFormat
    );
    assert_eq!(
        core_config(None, s("16"), s("web/")).unwrap_err(),
        Error::MissingEnv
    );
    assert_eq!(
        core_config(s("ws://db"), s("16"), None).unwrap_err(),
        Error::MissingEnv
    );
}
