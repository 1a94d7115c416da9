//! The query-construction DSL: an ordered sequence of keyword and value
//! segments, together with typed parameters bound to strictly increasing
//! positional placeholders (`$1`, `$2`, ...).
//!
//! The first filter predicate emits `WHERE`; later predicates emit `AND`
//! unless joined with `OR`. Appending `AND`/`OR` directly after another
//! connector replaces the previous one instead of duplicating it, so that
//! conditionally omitted filters never produce a malformed `AND AND`.

use vstd::prelude::*;
use vstd::string::StrSliceExecFns;
use vstd::string::StringExecFns;

use crate::text::{dec_spec, join_spaces, join_with_spaces, u64_to_string};

verus! {

/// A typed value bound to one positional placeholder of a query.
#[derive(Debug, Clone, PartialEq)]
pub enum Parameter {
    StringArg(String),
    BoolArg(bool),
    IntArg(i32),
}

/// The abstract value of a bound parameter.
pub ghost enum ParamView {
    Str(Seq<char>),
    Bool(bool),
    Int(i32),
}

impl View for Parameter {
    type V = ParamView;

    open spec fn view(&self) -> ParamView {
        match self {
            Parameter::StringArg(s) => ParamView::Str(s@),
            Parameter::BoolArg(b) => ParamView::Bool(*b),
            Parameter::IntArg(i) => ParamView::Int(*i),
        }
    }
}

impl DeepView for Parameter {
    type V = ParamView;

    open spec fn deep_view(&self) -> ParamView {
        self.view()
    }
}

/// A comparison operator of a filter predicate.
#[derive(Debug, Clone, Copy, PartialEq, Eq, Structural)]
pub enum Conditions {
    Eq,
    Gt,
    Gte,
    Lt,
    Lte,
}

impl Conditions {
    pub open spec fn str_spec(self) -> Seq<char> {
        match self {
            Conditions::Eq => "="@,
            Conditions::Gt => ">"@,
            Conditions::Gte => ">="@,
            Conditions::Lt => "<"@,
            Conditions::Lte => "<="@,
        }
    }

    /// The operator as it appears in the query text.
    pub fn to_string(&self) -> (r: &'static str)
        ensures
            r@ == self.str_spec(),
    {
        match self {
            Conditions::Eq => "=",
            Conditions::Gt => ">",
            Conditions::Gte => ">=",
            Conditions::Lt => "<",
            Conditions::Lte => "<=",
        }
    }
}

/// Whether the last segment is a boolean connector.
pub open spec fn ends_with_connector(segs: Seq<Seq<char>>) -> bool {
    segs.len() > 0 && (segs.last() == "AND"@ || segs.last() == "OR"@)
}

/// Whether some segment is the `WHERE` keyword.
pub open spec fn contains_where(segs: Seq<Seq<char>>) -> bool {
    exists|i: int| 0 <= i < segs.len() && segs[i] == "WHERE"@
}

/// What appending one segment does: an empty segment is dropped, a connector
/// directly after another connector replaces it, anything else is appended.
pub open spec fn add_segment_spec(segs: Seq<Seq<char>>, s: Seq<char>) -> Seq<Seq<char>> {
    if s.len() == 0 {
        segs
    } else if ends_with_connector(segs) && (s == "AND"@ || s == "OR"@) {
        segs.update(segs.len() - 1, s)
    } else {
        segs.push(s)
    }
}

/// Appending a prefix keyword and then a value segment.
pub open spec fn add_two_spec(segs: Seq<Seq<char>>, a: Seq<char>, b: Seq<char>) -> Seq<
    Seq<char>,
> {
    add_segment_spec(add_segment_spec(segs, a), b)
}

/// The text of one filter predicate: `column op $index`.
pub open spec fn condition_str(col: Seq<char>, op: Seq<char>, idx: nat) -> Seq<char> {
    col + " "@ + op + " $"@ + dec_spec(idx)
}

/// The table reference segment `type::table($index)`.
pub open spec fn table_ref_str(idx: nat) -> Seq<char> {
    "type::table($"@ + dec_spec(idx) + ")"@
}

proof fn lemma_keywords()
    ensures
        "WHERE"@ != "AND"@,
        "WHERE"@ != "OR"@,
        "AND"@ != "OR"@,
        "WHERE"@.len() == 5,
        "AND"@.len() == 3,
        "OR"@.len() == 2,
{
    reveal_strlit("WHERE");
    reveal_strlit("AND");
    reveal_strlit("OR");
    assert("WHERE"@.len() == 5);
    assert("AND"@.len() == 3);
    assert("OR"@.len() == 2);
}

/// Whether a string equals the given text.
fn str_is(s: &String, lit: &str) -> (r: bool)
    ensures
        r == (s@ == lit@),
{
    *s == lit.to_owned()
}

/// Builds one parameterized query: keyword segments interleaved with value
/// segments, and the parameters bound to placeholders `$1`, `$2`, ... in
/// order of binding.
pub struct QueryBuilder {
    pub segments: Vec<String>,
    pub params: Vec<Parameter>,
    pub last_was_connector: bool,
    pub and_or_exceptions: bool,
    pub has_where: bool,
}

impl QueryBuilder {
    pub open spec fn segs(self) -> Seq<Seq<char>> {
        self.segments.deep_view()
    }

    pub open spec fn pars(self) -> Seq<ParamView> {
        self.params.deep_view()
    }

    /// The two cached flags agree with the segment list.
    pub open spec fn wf(self) -> bool {
        &&& self.has_where == contains_where(self.segs())
        &&& self.last_was_connector == ends_with_connector(self.segs())
    }

    pub fn new() -> (r: Self)
        ensures
            r.wf(),
            r.segs() == Seq::<Seq<char>>::empty(),
            r.pars() == Seq::<ParamView>::empty(),
            !r.and_or_exceptions,
    {
        let r = QueryBuilder {
            segments: Vec::new(),
            params: Vec::new(),
            last_was_connector: false,
            and_or_exceptions: false,
            has_where: false,
        };
        proof {
            assert(r.segs() =~= Seq::<Seq<char>>::empty());
            assert(r.pars() =~= Seq::<ParamView>::empty());
        }
        r
    }

    /// The placeholder index the next bound parameter will receive.
    pub fn next_param_index(&self) -> (r: usize)
        requires
            self.pars().len() < usize::MAX,
        ensures
            r == self.pars().len() + 1,
    {
        self.params.len() + 1
    }

    /// Appends one segment, collapsing a connector that directly follows
    /// another connector.
    pub fn add_segment(&mut self, segment: String)
        requires
            old(self).wf(),
        ensures
            final(self).wf(),
            final(self).segs() == add_segment_spec(old(self).segs(), segment@),
            final(self).pars() == old(self).pars(),
            final(self).and_or_exceptions == old(self).and_or_exceptions,
    {
        proof {
            lemma_keywords();
        }
        if segment.as_str().is_empty() {
            return ;
        }
        let is_and = str_is(&segment, "AND");
        let is_or = str_is(&segment, "OR");
        let is_conn = is_and || is_or;
        let is_where = str_is(&segment, "WHERE");
        if self.last_was_connector && is_conn {
            let ghost old_segs = self.segs();
            let last_idx = self.segments.len() - 1;
            self.segments.set(last_idx, segment);
            proof {
                let new_segs = self.segs();
                assert(new_segs =~= old_segs.update(old_segs.len() - 1, segment@));
                assert forall|i: int|
                    0 <= i < new_segs.len() && new_segs[i] == "WHERE"@ implies contains_where(
                    old_segs,
                ) by {
                    assert(old_segs[i] == "WHERE"@);
                }
                if contains_where(old_segs) {
                    let i = choose|i: int|
                        0 <= i < old_segs.len() && old_segs[i] == "WHERE"@;
                    assert(old_segs.last() != "WHERE"@);
                    assert(new_segs[i] == "WHERE"@);
                }
                assert(contains_where(new_segs) == contains_where(old_segs));
                assert(new_segs.last() == segment@);
            }
        } else {
            let ghost old_segs = self.segs();
            self.segments.push(segment);
            self.last_was_connector = is_conn;
            self.has_where = self.has_where || is_where;
            proof {
                let new_segs = self.segs();
                assert(new_segs =~= old_segs.push(segment@));
                if contains_where(old_segs) {
                    let i = choose|i: int|
                        0 <= i < old_segs.len() && old_segs[i] == "WHERE"@;
                    assert(new_segs[i] == "WHERE"@);
                }
                if is_where {
                    assert(new_segs[old_segs.len() as int] == "WHERE"@);
                }
                assert forall|i: int|
                    0 <= i < new_segs.len() && new_segs[i] == "WHERE"@ implies contains_where(
                    old_segs,
                ) || is_where by {
                    if i < old_segs.len() {
                        assert(old_segs[i] == "WHERE"@);
                    }
                }
                assert(new_segs.last() == segment@);
            }
        }
    }

    fn add_segment_p(&mut self, prefix: &str, segment: String)
        requires
            old(self).wf(),
        ensures
            final(self).wf(),
            final(self).segs() == add_two_spec(old(self).segs(), prefix@, segment@),
            final(self).pars() == old(self).pars(),
            final(self).and_or_exceptions == old(self).and_or_exceptions,
    {
        self.add_segment(prefix.to_owned());
        self.add_segment(segment);
    }

    /// Binds a value to the next placeholder index.
    pub fn param(&mut self, value: Parameter)
        ensures
            final(self).pars() == old(self).pars().push(value@),
            final(self).segs() == old(self).segs(),
            final(self).last_was_connector == old(self).last_was_connector,
            final(self).and_or_exceptions == old(self).and_or_exceptions,
            final(self).has_where == old(self).has_where,
    {
        let ghost old_pars = self.pars();
        let ghost v = value@;
        self.params.push(value);
        proof {
            assert(self.pars() =~= old_pars.push(v));
            assert(self.segs() =~= old(self).segs());
        }
    }

    /// The predicate text `column op $k` for the next placeholder `k`,
    /// paired with the value to bind.
    pub fn condition(&self, column: &str, con: Conditions, p: Parameter) -> (r: (
        String,
        Parameter,
    ))
        requires
            self.pars().len() < usize::MAX,
        ensures
            r.0@ == condition_str(column@, con.str_spec(), (self.pars().len() + 1) as nat),
            r.1 == p,
    {
        let mut s = column.to_owned();
        s.append(" ");
        s.append(con.to_string());
        s.append(" $");
        let idx = u64_to_string((self.params.len() + 1) as u64);
        s.append(idx.as_str());
        (s, p)
    }

    /// Starts a `CREATE` statement for the given target.
    pub fn create(self, node: String) -> (r: Self)
        requires
            self.wf(),
        ensures
            r.wf(),
            r.segs() == add_two_spec(self.segs(), "CREATE"@, node@),
            r.pars() == self.pars(),
            r.and_or_exceptions == self.and_or_exceptions,
    {
        let mut qb = self;
        qb.add_segment_p("CREATE", node);
        qb
    }

    /// Starts a `SELECT` statement with the given projection.
    pub fn select(self, node: String) -> (r: Self)
        requires
            self.wf(),
        ensures
            r.wf(),
            r.segs() == add_two_spec(self.segs(), "SELECT"@, node@),
            r.pars() == self.pars(),
            r.and_or_exceptions == self.and_or_exceptions,
    {
        let mut qb = self;
        qb.add_segment_p("SELECT", node);
        qb
    }

    /// Emits `FROM type::table($k)` and binds the table name to `$k`.
    pub fn from(self, param: Parameter) -> (r: Self)
        requires
            self.wf(),
            self.pars().len() < usize::MAX,
        ensures
            r.wf(),
            r.segs() == add_two_spec(
                self.segs(),
                "FROM"@,
                table_ref_str((self.pars().len() + 1) as nat),
            ),
            r.pars() == self.pars().push(param@),
            r.and_or_exceptions == self.and_or_exceptions,
    {
        let mut qb = self;
        let mut t = String::from_str("type::table($");
        let idx = u64_to_string((qb.params.len() + 1) as u64);
        t.append(idx.as_str());
        t.append(")");
        qb.add_segment_p("FROM", t);
        qb.param(param);
        qb
    }

    /// Adds one filter predicate: the first one emits `WHERE`, later ones
    /// emit `AND`.
    pub fn filter(self, column: &str, conditions: Conditions, param: Parameter) -> (r: Self)
        requires
            self.wf(),
            self.pars().len() < usize::MAX,
        ensures
            r.wf(),
            r.segs() == add_two_spec(
                self.segs(),
                if contains_where(self.segs()) {
                    "AND"@
                } else {
                    "WHERE"@
                },
                condition_str(column@, conditions.str_spec(), (self.pars().len() + 1) as nat),
            ),
            r.pars() == self.pars().push(param@),
            r.and_or_exceptions == self.and_or_exceptions,
    {
        let mut qb = self;
        let (c, p) = qb.condition(column, conditions, param);
        if qb.has_where {
            qb.add_segment_p("AND", c);
        } else {
            qb.add_segment_p("WHERE", c);
        }
        qb.param(p);
        qb
    }

    /// Adds one predicate joined with `AND`.
    pub fn and(self, column: &str, conditions: Conditions, param: Parameter) -> (r: Self)
        requires
            self.wf(),
            self.pars().len() < usize::MAX,
        ensures
            r.wf(),
            r.segs() == add_two_spec(
                self.segs(),
                "AND"@,
                condition_str(column@, conditions.str_spec(), (self.pars().len() + 1) as nat),
            ),
            r.pars() == self.pars().push(param@),
            r.and_or_exceptions == self.and_or_exceptions,
    {
        let mut qb = self;
        let (c, p) = qb.condition(column, conditions, param);
        qb.add_segment_p("AND", c);
        qb.param(p);
        qb
    }

    /// Adds one predicate joined with `OR`.
    pub fn or(self, column: &str, conditions: Conditions, param: Parameter) -> (r: Self)
        requires
            self.wf(),
            self.pars().len() < usize::MAX,
        ensures
            r.wf(),
            r.segs() == add_two_spec(
                self.segs(),
                "OR"@,
                condition_str(column@, conditions.str_spec(), (self.pars().len() + 1) as nat),
            ),
            r.pars() == self.pars().push(param@),
            r.and_or_exceptions == self.and_or_exceptions,
    {
        let mut qb = self;
        let (c, p) = qb.condition(column, conditions, param);
        qb.add_segment_p("OR", c);
        qb.param(p);
        qb
    }

    /// Joins with `AND` the first time it is called on a builder and with
    /// `OR` from then on.
    pub fn and_or(self, column: &str, conditions: Conditions, param: Parameter) -> (r: Self)
        requires
            self.wf(),
            self.pars().len() < usize::MAX,
        ensures
            r.wf(),
            r.segs() == add_two_spec(
                self.segs(),
                if self.and_or_exceptions {
                    "OR"@
                } else {
                    "AND"@
                },
                condition_str(column@, conditions.str_spec(), (self.pars().len() + 1) as nat),
            ),
            r.pars() == self.pars().push(param@),
            r.and_or_exceptions,
    {
        let mut qb = self;
        let (c, p) = qb.condition(column, conditions, param);
        if qb.and_or_exceptions {
            qb.add_segment_p("OR", c);
            qb.param(p);
        } else {
            qb.add_segment_p("AND", c);
            qb.param(p);
            qb.and_or_exceptions = true;
        }
        qb
    }

    /// Yields the query text (segments joined by single spaces) and the
    /// bound parameters; the value at position `k - 1` belongs to
    /// placeholder `$k`.
    pub fn build(self) -> (r: (String, Vec<Parameter>))
        ensures
            r.0@ == join_spaces(self.segs()),
            r.1 == self.params,
    {
        let q = join_with_spaces(&self.segments);
        (q, self.params)
    }
}

impl Default for QueryBuilder {
    fn default() -> (r: Self)
        ensures
            r.wf(),
            r.segs() == Seq::<Seq<char>>::empty(),
            r.pars() == Seq::<ParamView>::empty(),
            !r.and_or_exceptions,
    {
        QueryBuilder::new()
    }
}

} // verus!
