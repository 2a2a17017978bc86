//! Field validation of request bodies.
//!
//! A failed check is reported as a violation that names the field, the kind of
//! rule that failed (`length` or `range`) and, where the rule carries one, a
//! human-readable message; a rule without a message keeps its parameters.
//! Lengths of text are counted in characters.
use vstd::prelude::*;
use crate::text::{debug_quoted, debug_quoted_text, push_decimal, spec_decimal};

verus! {

/// The value of a rule parameter: a number, or the text of the field.
#[derive(Clone, Debug)]
pub enum ParamValue {
    Number(i64),
    Text(String),
}

/// A rule parameter value as a mathematical value.
pub enum ParamView {
    Number(int),
    Text(Seq<char>),
}

impl View for ParamValue {
    type V = ParamView;

    open spec fn view(&self) -> ParamView {
        match self {
            ParamValue::Number(n) => ParamView::Number(*n as int),
            ParamValue::Text(t) => ParamView::Text(t@),
        }
    }
}

/// A named parameter of a failed rule: a bound, or the value that failed.
#[derive(Clone, Debug)]
pub struct RuleParam {
    pub name: &'static str,
    pub value: ParamValue,
}

/// The name and value of a parameter.
pub type ParamEntry = (Seq<char>, ParamView);

impl View for RuleParam {
    type V = ParamEntry;

    open spec fn view(&self) -> ParamEntry {
        (self.name@, self.value@)
    }
}

/// A list of parameters as mathematical values.
pub open spec fn params_view(ps: Seq<RuleParam>) -> Seq<ParamEntry> {
    ps.map_values(|p: RuleParam| p@)
}

/// One failed field rule. A rule without a message is described by its code
/// and parameters: its bounds (`min`, `max`) and the `value` that failed, in
/// that order. A rule with a message is described by the message alone and
/// keeps no parameters.
#[derive(Clone, Debug)]
pub struct FieldViolation {
    pub field: &'static str,
    pub code: &'static str,
    pub message: Option<&'static str>,
    pub params: Vec<RuleParam>,
}

/// The field, rule code, optional message and parameters of a violation.
pub type ViolationView = (Seq<char>, Seq<char>, Option<Seq<char>>, Seq<ParamEntry>);

impl View for FieldViolation {
    type V = ViolationView;

    open spec fn view(&self) -> ViolationView {
        (
            self.field@,
            self.code@,
            match self.message {
                Some(m) => Some(m@),
                None => None,
            },
            params_view(self.params@),
        )
    }
}

/// All the violations found in one request body, in field order.
#[derive(Clone, Debug)]
pub struct ValidationErrors {
    pub violations: Vec<FieldViolation>,
}

impl View for ValidationErrors {
    type V = Seq<ViolationView>;

    open spec fn view(&self) -> Seq<ViolationView> {
        self.violations@.map_values(|v: FieldViolation| v@)
    }
}

/// A violation without a message, with its parameters.
pub open spec fn violation(field: Seq<char>, code: Seq<char>, params: Seq<ParamEntry>) -> ViolationView {
    (field, code, None, params)
}

/// A violation with a message.
pub open spec fn violation_with(field: Seq<char>, code: Seq<char>, message: Seq<char>) -> ViolationView {
    (field, code, Some(message), Seq::empty())
}

/// `[(name, n)]` for a given bound, nothing otherwise.
pub open spec fn bound_param(name: Seq<char>, bound: Option<int>) -> Seq<ParamEntry> {
    match bound {
        Some(n) => seq![(name, ParamView::Number(n))],
        None => Seq::empty(),
    }
}

/// The parameters of a failed length rule on the text `value`.
pub open spec fn length_params(min: Option<int>, max: Option<int>, value: Seq<char>) -> Seq<ParamEntry> {
    bound_param("min"@, min) + bound_param("max"@, max) + seq![("value"@, ParamView::Text(value))]
}

/// The parameters of a failed range rule on the number `value`.
pub open spec fn range_params(min: Option<int>, max: Option<int>, value: int) -> Seq<ParamEntry> {
    bound_param("min"@, min) + bound_param("max"@, max) + seq![("value"@, ParamView::Number(value))]
}

/// An optional bound as a mathematical value.
pub open spec fn bound_view(b: Option<i64>) -> Option<int> {
    match b {
        Some(n) => Some(n as int),
        None => None,
    }
}

fn push_bound(ps: &mut Vec<RuleParam>, name: &'static str, bound: Option<i64>)
    ensures
        params_view(final(ps)@) == params_view(old(ps)@) + bound_param(name@, bound_view(bound)),
{
    match bound {
        Some(n) => ps.push(RuleParam { name, value: ParamValue::Number(n) }),
        None => {},
    }
    assert(params_view(final(ps)@) =~= params_view(old(ps)@) + bound_param(name@, bound_view(bound)));
}

/// No parameters, for a rule described by its message.
pub(crate) fn no_params() -> (ps: Vec<RuleParam>)
    ensures
        params_view(ps@) == Seq::<ParamEntry>::empty(),
{
    let ps: Vec<RuleParam> = Vec::new();
    assert(params_view(ps@) =~= Seq::<ParamEntry>::empty());
    ps
}

/// The parameters of a failed length rule.
pub(crate) fn length_rule_params(min: Option<i64>, max: Option<i64>, value: &str) -> (ps: Vec<RuleParam>)
    ensures
        params_view(ps@) == length_params(bound_view(min), bound_view(max), value@),
{
    let mut ps: Vec<RuleParam> = Vec::new();
    assert(params_view(ps@) =~= Seq::<ParamEntry>::empty());
    push_bound(&mut ps, "min", min);
    push_bound(&mut ps, "max", max);
    let ghost before = params_view(ps@);
    ps.push(RuleParam { name: "value", value: ParamValue::Text(String::from_str(value)) });
    assert(params_view(ps@) =~= before.push(("value"@, ParamView::Text(value@))));
    assert(params_view(ps@) =~= length_params(bound_view(min), bound_view(max), value@));
    ps
}

/// The parameters of a failed range rule.
pub(crate) fn range_rule_params(min: Option<i64>, max: Option<i64>, value: i32) -> (ps: Vec<RuleParam>)
    ensures
        params_view(ps@) == range_params(bound_view(min), bound_view(max), value as int),
{
    let mut ps: Vec<RuleParam> = Vec::new();
    assert(params_view(ps@) =~= Seq::<ParamEntry>::empty());
    push_bound(&mut ps, "min", min);
    push_bound(&mut ps, "max", max);
    let ghost before = params_view(ps@);
    ps.push(RuleParam { name: "value", value: ParamValue::Number(value as i64) });
    assert(params_view(ps@) =~= before.push(("value"@, ParamView::Number(value as int))));
    assert(params_view(ps@) =~= range_params(bound_view(min), bound_view(max), value as int));
    ps
}

/// `[v]` when the rule fails, nothing when it holds.
pub open spec fn unless(ok: bool, v: ViolationView) -> Seq<ViolationView> {
    if ok {
        Seq::empty()
    } else {
        seq![v]
    }
}

/// A length of `len` satisfies the bounds: `equal`, when given, decides alone;
/// otherwise `min` and `max`, when given, bound it inclusively.
pub open spec fn length_ok(len: int, min: Option<u64>, max: Option<u64>, equal: Option<u64>) -> bool {
    match equal {
        Some(e) => len == e,
        None => (match min {
            Some(m) => m <= len,
            None => true,
        }) && (match max {
            Some(m) => len <= m,
            None => true,
        }),
    }
}

/// An optional number satisfies inclusive bounds; an absent number satisfies any.
pub open spec fn range_ok(value: Option<i32>, min: Option<i32>, max: Option<i32>) -> bool {
    match value {
        None => true,
        Some(x) => (match min {
            Some(m) => m <= x,
            None => true,
        }) && (match max {
            Some(m) => x <= m,
            None => true,
        }),
    }
}

/// Checks the character count of `text` against the bounds with
/// `validator::ValidateLength::validate_length`. The crate counts the
/// characters of a `str` (`chars().count()`); `equal`, when given, is compared
/// alone, otherwise `min` and `max` are inclusive bounds.
#[verifier::external_body]
pub(crate) fn check_length(text: &str, min: Option<u64>, max: Option<u64>, equal: Option<u64>) -> (ok: bool)
    ensures
        ok == length_ok(text@.len() as int, min, max, equal),
{
    validator::ValidateLength::<u64>::validate_length(text, min, max, equal)
}

/// Checks an optional number against inclusive bounds with
/// `validator::ValidateRange::validate_range` on an `Option<i32>`. The crate
/// accepts `None`, and otherwise refuses a value above `max` or below `min`.
#[verifier::external_body]
pub(crate) fn check_range(value: Option<i32>, min: Option<i32>, max: Option<i32>) -> (ok: bool)
    ensures
        ok == range_ok(value, min, max),
{
    validator::ValidateRange::<i32>::validate_range(&value, min, max, None, None)
}

/// Appends a violation to a list under construction.
pub(crate) fn add_violation(
    list: &mut Vec<FieldViolation>,
    field: &'static str,
    code: &'static str,
    message: Option<&'static str>,
    params: Vec<RuleParam>,
)
    ensures
        final(list)@.map_values(|v: FieldViolation| v@) == old(list)@.map_values(
            |v: FieldViolation| v@,
        ).push(
            (
                field@,
                code@,
                match message {
                    Some(m) => Some(m@),
                    None => None,
                },
                params_view(params@),
            ),
        ),
{
    let v = FieldViolation { field, code, message, params };
    assert(v@ == (
        field@,
        code@,
        match message {
            Some(m) => Some(m@),
            None => None,
        },
        params_view(params@),
    ));
    list.push(v);
    assert(final(list)@.map_values(|v: FieldViolation| v@) =~= old(list)@.map_values(
        |v: FieldViolation| v@,
    ).push(v@));
}

/// `Ok` when no violation was found, the violations otherwise.
pub(crate) fn finish(list: Vec<FieldViolation>) -> (r: Result<(), ValidationErrors>)
    ensures
        r is Ok <==> list@.len() == 0,
        r matches Err(e) ==> e@ == list@.map_values(|v: FieldViolation| v@),
{
    if list.len() == 0 {
        Ok(())
    } else {
        Err(ValidationErrors { violations: list })
    }
}

/// The `Debug` text of a parameter value, as the JSON value it becomes:
/// `Number(n)` or `String("...")`.
pub open spec fn param_value_text(v: ParamView) -> Seq<char> {
    match v {
        ParamView::Number(n) => "Number("@ + spec_decimal(n) + ")"@,
        ParamView::Text(t) => "String("@ + debug_quoted_text(t) + ")"@,
    }
}

/// The `Debug` text of one parameter: its quoted name and its value.
pub open spec fn param_text(e: ParamEntry) -> Seq<char> {
    debug_quoted_text(e.0) + ": "@ + param_value_text(e.1)
}

/// The entries of a parameter map, separated by `, `.
pub open spec fn params_text(ps: Seq<ParamEntry>) -> Seq<char>
    decreases ps.len(),
{
    if ps.len() == 0 {
        Seq::empty()
    } else if ps.len() == 1 {
        param_text(ps[0])
    } else {
        params_text(ps.drop_last()) + ", "@ + param_text(ps.last())
    }
}

/// The text of one violation: the field, then the message, or, when there is
/// none, the rule code and its parameter map.
pub open spec fn violation_line(v: ViolationView) -> Seq<char> {
    v.0 + ": "@ + match v.2 {
        Some(m) => m,
        None => "Validation error: "@ + v.1 + " [{"@ + params_text(v.3) + "}]"@,
    }
}

/// The text of a list of violations: one line per violation.
pub open spec fn violations_text(vs: Seq<ViolationView>) -> Seq<char>
    decreases vs.len(),
{
    if vs.len() == 0 {
        Seq::empty()
    } else if vs.len() == 1 {
        violation_line(vs[0])
    } else {
        violations_text(vs.drop_last()) + "\n"@ + violation_line(vs.last())
    }
}

fn push_param_value(out: &mut String, v: &ParamValue)
    ensures
        final(out)@ == old(out)@ + param_value_text(v@),
{
    match v {
        ParamValue::Number(n) => {
            out.append("Number(");
            push_decimal(out, *n);
            out.append(")");
        },
        ParamValue::Text(t) => {
            out.append("String(");
            let q = debug_quoted(t.as_str());
            out.append(q.as_str());
            out.append(")");
        },
    }
}

fn push_params(out: &mut String, ps: &Vec<RuleParam>)
    ensures
        final(out)@ == old(out)@ + params_text(params_view(ps@)),
{
    let ghost start = out@;
    let n: usize = ps.len();
    let mut i: usize = 0;
    while i < n
        invariant
            n == ps@.len(),
            i <= n,
            out@ == start + params_text(params_view(ps@).subrange(0, i as int)),
        decreases n - i,
    {
        let p = &ps[i];
        if i > 0 {
            out.append(", ");
        }
        let q = debug_quoted(p.name);
        out.append(q.as_str());
        out.append(": ");
        push_param_value(out, &p.value);
        proof {
            let next = params_view(ps@).subrange(0, i + 1);
            assert(next.drop_last() =~= params_view(ps@).subrange(0, i as int));
            assert(next.last() == p@);
        }
        i = i + 1;
    }
    assert(params_view(ps@).subrange(0, n as int) =~= params_view(ps@));
}

impl ValidationErrors {
    /// The text of the violations, one line per violated field.
    pub fn describe(&self) -> (t: String)
        ensures
            t@ == violations_text(self@),
    {
        let mut out = String::new();
        let n: usize = self.violations.len();
        let mut i: usize = 0;
        while i < n
            invariant
                n == self.violations@.len(),
                i <= n,
                out@ == violations_text(self@.subrange(0, i as int)),
            decreases n - i,
        {
            let v = &self.violations[i];
            if i > 0 {
                out.append("\n");
            }
            out.append(v.field);
            out.append(": ");
            match v.message {
                Some(m) => out.append(m),
                None => {
                    out.append("Validation error: ");
                    out.append(v.code);
                    out.append(" [{");
                    push_params(&mut out, &v.params);
                    out.append("}]");
                },
            }
            proof {
                let next = self@.subrange(0, i + 1);
                assert(next.drop_last() =~= self@.subrange(0, i as int));
                assert(next.last() == v@);
            }
            i = i + 1;
        }
        assert(self@.subrange(0, n as int) =~= self@);
        out
    }
}

} // verus!
