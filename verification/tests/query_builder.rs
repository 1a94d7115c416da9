use flowlocker::query::{Conditions, Parameter, QueryBuilder};

fn sarg(s: &str) -> Parameter {
    Parameter::StringArg(s.to_string())
}

#[test]
fn test_new() {
    let qb = QueryBuilder::new()
        .select("*".to_string())
        .from(sarg("test"));
    let (query, args) = qb.build();
    println!("{:?}", query);
    assert_eq!(query, "SELECT * FROM type::table($1)");
    assert_eq!(args, vec![sarg("test")]);
}

#[test]
fn build_joins_segments_with_spaces() {
    let mut qb = QueryBuilder::new();
    qb.add_segment("SELECT".to_string());
    qb.add_segment("*".to_string());
    qb.add_segment("FROM".to_string());
    qb.add_segment("process".to_string());
    let (query, args) = qb.build();
    assert_eq!(query, "SELECT * FROM process");
    assert!(args.is_empty());
}

#[test]
fn empty_segments_are_dropped() {
    let mut qb = QueryBuilder::new();
    qb.add_segment("SELECT".to_string());
    qb.add_segment("".to_string());
    qb.add_segment("*".to_string());
    let (query, _) = qb.build();
    assert_eq!(query, "SELECT *");
}

#[test]
fn consecutive_connectors_collapse() {
    let mut qb = QueryBuilder::new();
    qb.add_segment("WHERE".to_string());
    qb.add_segment("a = $1".to_string());
    qb.add_segment("AND".to_string());
    qb.add_segment("OR".to_string());
    qb.add_segment("b = $2".to_string());
    let (query, _) = qb.build();
    assert_eq!(query, "WHERE a = $1 OR b = $2");
}

#[test]
fn filter_emits_where_then_and() {
    let qb = QueryBuilder::new()
        .select("*".to_string())
        .from(sarg("process"))
        .filter("app", Conditions::Eq, sarg("svc-a"))
        .filter("status", Conditions::Eq, sarg("New"));
    let (query, args) = qb.build();
    assert_eq!(
        query,
        "SELECT * FROM type::table($1) WHERE app = $2 AND status = $3"
    );
    assert_eq!(args, vec![sarg("process"), sarg("svc-a"), sarg("New")]);
}

// Two filters yield exactly one WHERE and one AND, with two bound
// parameters besides the table, whichever filter comes first.
#[test]
fn two_filters_one_where_one_and_either_order() {
    for (first, second) in [("app", "status"), ("status", "app")] {
        let first_val = if first == "app" { "svc-a" } else { "New" };
        let second_val = if second == "app" { "svc-a" } else { "New" };
        let qb = QueryBuilder::new()
            .select("*".to_string())
            .from(sarg("process"))
            .filter(first, Conditions::Eq, sarg(first_val))
            .filter(second, Conditions::Eq, sarg(second_val));
        let (query, args) = qb.build();
        let wheres = query.matches("WHERE").count();
        let ands = query.matches("AND").count();
        assert_eq!(wheres, 1);
        assert_eq!(ands, 1);
        assert_eq!(args.len(), 3);
        assert_eq!(args[0], sarg("process"));
        assert_eq!(
            query,
            format!(
                "SELECT * FROM type::table($1) WHERE {} = $2 AND {} = $3",
                first, second
            )
        );
    }
}

#[test]
fn and_or_joins_with_and_then_or() {
    let qb = QueryBuilder::new()
        .select("*".to_string())
        .from(sarg("process"))
        .filter("app", Conditions::Eq, sarg("a"))
        .and_or("status", Conditions::Eq, sarg("New"))
        .and_or("status", Conditions::Eq, sarg("InProgress"));
    let (query, args) = qb.build();
    assert_eq!(
        query,
        "SELECT * FROM type::table($1) WHERE app = $2 AND status = $3 OR status = $4"
    );
    assert_eq!(args.len(), 4);
}

#[test]
fn or_and_condition_operators() {
    let qb = QueryBuilder::new()
        .select("*".to_string())
        .from(sarg("process"))
        .filter("age", Conditions::Gt, Parameter::IntArg(30))
        .or("salary", Conditions::Gte, Parameter::IntArg(50000))
        .and("rating", Conditions::Lte, Parameter::IntArg(4));
    let (query, args) = qb.build();
    assert_eq!(
        query,
        "SELECT * FROM type::table($1) WHERE age > $2 OR salary >= $3 AND rating <= $4"
    );
    assert_eq!(
        args,
        vec![
            sarg("process"),
            Parameter::IntArg(30),
            Parameter::IntArg(50000),
            Parameter::IntArg(4)
        ]
    );
}

#[test]
fn create_statement_and_params_indices() {
    let mut qb = QueryBuilder::new().create("process".to_string());
    assert_eq!(qb.next_param_index(), 1);
    qb.param(Parameter::BoolArg(true));
    assert_eq!(qb.next_param_index(), 2);
    let (query, args) = qb.build();
    assert_eq!(query, "CREATE process");
    assert_eq!(args, vec![Parameter::BoolArg(true)]);
}

#[test]
fn condition_renders_next_placeholder() {
    let qb = QueryBuilder::new();
    let (cond, param) = qb.condition("app", Conditions::Eq, sarg("x"));
    assert_eq!(cond, "app = $1");
    assert_eq!(param, sarg("x"));
}
