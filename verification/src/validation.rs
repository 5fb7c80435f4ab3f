//! Field rules of the request bodies and query strings (lengths counted in
//! characters, numeric lower and upper bounds), and the errors they report.
use vstd::prelude::*;
use vstd::string::*;

verus! {

/// A parameter of a broken rule: a number (a bound, or the value of a numeric
/// field) or a string (the value of a text field).
#[derive(Debug)]
pub enum RuleParam {
    Number(u64),
    Text(String),
}

pub enum RuleParamModel {
    Number(nat),
    Text(Seq<char>),
}

impl View for RuleParam {
    type V = RuleParamModel;

    open spec fn view(&self) -> RuleParamModel {
        match self {
            RuleParam::Number(n) => RuleParamModel::Number(*n as nat),
            RuleParam::Text(s) => RuleParamModel::Text(s@),
        }
    }
}

/// One named parameter of a broken rule.
#[derive(Debug)]
pub struct RuleParamEntry {
    pub name: String,
    pub value: RuleParam,
}

impl View for RuleParamEntry {
    type V = (Seq<char>, RuleParamModel);

    open spec fn view(&self) -> (Seq<char>, RuleParamModel) {
        (self.name@, self.value@)
    }
}

/// One broken rule: the field's name, the rule's code (`length` or `range`),
/// and the rule's parameters (its bounds, then the offending value).
#[derive(Debug)]
pub struct FieldViolation {
    pub field: String,
    pub code: String,
    pub params: Vec<RuleParamEntry>,
}

/// Model of a broken rule.
pub struct ViolationModel {
    pub field: Seq<char>,
    pub code: Seq<char>,
    pub params: Seq<(Seq<char>, RuleParamModel)>,
}

impl View for FieldViolation {
    type V = ViolationModel;

    open spec fn view(&self) -> ViolationModel {
        ViolationModel {
            field: self.field@,
            code: self.code@,
            params: self.params@.map_values(|e: RuleParamEntry| e@),
        }
    }
}

/// The rules a request broke, in the order its fields are declared.
#[derive(Debug)]
pub struct ValidationErrors {
    pub violations: Vec<FieldViolation>,
}

impl View for ValidationErrors {
    type V = Seq<ViolationModel>;

    open spec fn view(&self) -> Seq<ViolationModel> {
        self.violations@.map_values(|v: FieldViolation| v@)
    }
}

/// A string's length in characters lies within the optional bounds.
pub open spec fn length_ok(s: Seq<char>, min: Option<int>, max: Option<int>) -> bool {
    &&& (min matches Some(m) ==> s.len() >= m)
    &&& (max matches Some(m) ==> s.len() <= m)
}

/// An absent string passes every length rule.
pub open spec fn opt_length_ok(o: Option<Seq<char>>, min: Option<int>, max: Option<int>) -> bool {
    match o {
        Some(s) => length_ok(s, min, max),
        None => true,
    }
}

/// A number lies within the optional bounds.
pub open spec fn range_ok(v: int, min: Option<int>, max: Option<int>) -> bool {
    &&& (min matches Some(m) ==> v >= m)
    &&& (max matches Some(m) ==> v <= m)
}

/// The bound parameters of a rule: `min`, then `max`, each when it is set.
pub open spec fn bound_params(min: Option<nat>, max: Option<nat>) -> Seq<(Seq<char>, RuleParamModel)> {
    (match min {
        Some(m) => seq![("min"@, RuleParamModel::Number(m))],
        None => Seq::empty(),
    }) + (match max {
        Some(m) => seq![("max"@, RuleParamModel::Number(m))],
        None => Seq::empty(),
    })
}

pub open spec fn opt_int(o: Option<nat>) -> Option<int> {
    match o {
        Some(m) => Some(m as int),
        None => None,
    }
}

/// Nothing when `v` is within the bounds, else one `range` violation of
/// `field` with the bounds and the value as parameters.
pub open spec fn range_rule(v: nat, min: Option<nat>, max: Option<nat>, field: Seq<char>) -> Seq<ViolationModel> {
    if range_ok(v as int, opt_int(min), opt_int(max)) {
        Seq::empty()
    } else {
        seq![ViolationModel {
            field,
            code: "range"@,
            params: bound_params(min, max).push(("value"@, RuleParamModel::Number(v))),
        }]
    }
}

/// Nothing when `s` has an allowed length, else one `length` violation of
/// `field` with the bounds and the string as parameters.
pub open spec fn length_rule(s: Seq<char>, min: Option<nat>, max: Option<nat>, field: Seq<char>) -> Seq<ViolationModel> {
    if length_ok(s, opt_int(min), opt_int(max)) {
        Seq::empty()
    } else {
        seq![ViolationModel {
            field,
            code: "length"@,
            params: bound_params(min, max).push(("value"@, RuleParamModel::Text(s))),
        }]
    }
}

/// An absent string breaks no length rule.
pub open spec fn opt_length_rule(o: Option<Seq<char>>, min: Option<nat>, max: Option<nat>, field: Seq<char>) -> Seq<ViolationModel> {
    match o {
        Some(s) => length_rule(s, min, max, field),
        None => Seq::empty(),
    }
}

/// The decimal digit of `d` (for `d` below ten).
pub open spec fn digit_char(d: nat) -> char {
    if d == 0 { '0' }
    else if d == 1 { '1' }
    else if d == 2 { '2' }
    else if d == 3 { '3' }
    else if d == 4 { '4' }
    else if d == 5 { '5' }
    else if d == 6 { '6' }
    else if d == 7 { '7' }
    else if d == 8 { '8' }
    else { '9' }
}

/// The decimal notation of a natural number, without leading zeros.
pub open spec fn decimal_text(n: nat) -> Seq<char>
    decreases n,
{
    if n < 10 {
        seq![digit_char(n)]
    } else {
        decimal_text(n / 10) + seq![digit_char(n % 10)]
    }
}

/// Rust's `Debug` text of a string: quoted, with quotes, backslashes and
/// control characters escaped.
pub uninterp spec fn str_debug_text(s: Seq<char>) -> Seq<char>;

/// A parameter value as JSON's debug form prints it: `Number(n)` or
/// `String("..")`.
pub open spec fn param_value_text(v: RuleParamModel) -> Seq<char> {
    match v {
        RuleParamModel::Number(n) => "Number("@ + decimal_text(n) + ")"@,
        RuleParamModel::Text(s) => "String("@ + str_debug_text(s) + ")"@,
    }
}

/// One parameter: its quoted name, a colon, and its value.
pub open spec fn param_entry_text(e: (Seq<char>, RuleParamModel)) -> Seq<char> {
    "\""@ + e.0 + "\": "@ + param_value_text(e.1)
}

/// The parameters, separated by `, `.
pub open spec fn params_body(ps: Seq<(Seq<char>, RuleParamModel)>) -> Seq<char>
    decreases ps.len(),
{
    if ps.len() == 0 {
        Seq::empty()
    } else if ps.len() == 1 {
        param_entry_text(ps[0])
    } else {
        params_body(ps.drop_last()) + ", "@ + param_entry_text(ps.last())
    }
}

/// One line of the validation message: `field: Validation error: code [{params}]`.
pub open spec fn violation_line(v: ViolationModel) -> Seq<char> {
    v.field + ": Validation error: "@ + v.code + " [{"@ + params_body(v.params) + "}]"@
}

/// The validation message: one line per violation, joined by newlines.
pub open spec fn violations_text(vs: Seq<ViolationModel>) -> Seq<char>
    decreases vs.len(),
{
    if vs.len() == 0 {
        Seq::empty()
    } else if vs.len() == 1 {
        violation_line(vs[0])
    } else {
        violations_text(vs.drop_last()) + "\n"@ + violation_line(vs.last())
    }
}

/// Calls std's `Debug` for `str` (`format!("{:?}", s)`), which quotes and
/// escapes the string. Claimed: the result is `str_debug_text` of the string.
#[verifier::external_body]
fn str_debug(s: &str) -> (r: String)
    ensures
        r@ == str_debug_text(s@),
{
    format!("{:?}", s)
}

/// The digit of a number below ten, as a one-character string.
fn digit_str(d: u64) -> (r: &'static str)
    requires
        d < 10,
    ensures
        r@ == seq![digit_char(d as nat)],
{
    proof {
        reveal_strlit("0");
        reveal_strlit("1");
        reveal_strlit("2");
        reveal_strlit("3");
        reveal_strlit("4");
        reveal_strlit("5");
        reveal_strlit("6");
        reveal_strlit("7");
        reveal_strlit("8");
        reveal_strlit("9");
    }
    if d == 0 { "0" }
    else if d == 1 { "1" }
    else if d == 2 { "2" }
    else if d == 3 { "3" }
    else if d == 4 { "4" }
    else if d == 5 { "5" }
    else if d == 6 { "6" }
    else if d == 7 { "7" }
    else if d == 8 { "8" }
    else { "9" }
}

/// The decimal notation of `n`.
pub fn decimal_string(n: u64) -> (s: String)
    ensures
        s@ == decimal_text(n as nat),
    decreases n,
{
    if n < 10 {
        String::from_str(digit_str(n))
    } else {
        let mut s = decimal_string(n / 10);
        s.append(digit_str(n % 10));
        s
    }
}

fn param_value_string(v: &RuleParam) -> (s: String)
    ensures
        s@ == param_value_text(v@),
{
    match v {
        RuleParam::Number(n) => {
            let mut s = String::from_str("Number(");
            let d = decimal_string(*n);
            s.append(d.as_str());
            s.append(")");
            s
        },
        RuleParam::Text(t) => {
            let mut s = String::from_str("String(");
            let d = str_debug(t.as_str());
            s.append(d.as_str());
            s.append(")");
            s
        },
    }
}

fn violation_line_string(v: &FieldViolation) -> (s: String)
    ensures
        s@ == violation_line(v@),
{
    let mut s = String::from_str(v.field.as_str());
    s.append(": Validation error: ");
    s.append(v.code.as_str());
    s.append(" [{");
    let n = v.params.len();
    for i in 0..n
        invariant
            n == v.params@.len(),
            s@ == v@.field + ": Validation error: "@ + v@.code + " [{"@ + params_body(v@.params.take(i as int)),
    {
        let e = &v.params[i];
        if i > 0 {
            s.append(", ");
        }
        s.append("\"");
        s.append(e.name.as_str());
        s.append("\": ");
        let t = param_value_string(&e.value);
        s.append(t.as_str());
        assert(v@.params.take(i + 1).drop_last() =~= v@.params.take(i as int));
    }
    assert(v@.params.take(n as int) =~= v@.params);
    s.append("}]");
    s
}

fn bound_entries(min: Option<u64>, max: Option<u64>) -> (r: Vec<RuleParamEntry>)
    ensures
        r@.map_values(|e: RuleParamEntry| e@) == bound_params(
            match min { Some(m) => Some(m as nat), None => None },
            match max { Some(m) => Some(m as nat), None => None },
        ),
{
    let mut r: Vec<RuleParamEntry> = Vec::new();
    if let Some(m) = min {
        r.push(RuleParamEntry { name: String::from_str("min"), value: RuleParam::Number(m) });
    }
    if let Some(m) = max {
        r.push(RuleParamEntry { name: String::from_str("max"), value: RuleParam::Number(m) });
    }
    assert(r@.map_values(|e: RuleParamEntry| e@) =~= bound_params(
        match min { Some(m) => Some(m as nat), None => None },
        match max { Some(m) => Some(m as nat), None => None },
    ));
    r
}

/// Checks a length rule on a string, counting characters.
pub fn check_length(s: &String, min: Option<u64>, max: Option<u64>) -> (r: bool)
    ensures
        r == length_ok(
            s@,
            match min { Some(m) => Some(m as int), None => None },
            match max { Some(m) => Some(m as int), None => None },
        ),
{
    let len = s.as_str().unicode_len();
    let low = match min {
        Some(m) => (len as u64) >= m,
        None => true,
    };
    let high = match max {
        Some(m) => (len as u64) <= m,
        None => true,
    };
    low && high
}

pub open spec fn opt_nat(o: Option<u64>) -> Option<nat> {
    match o {
        Some(m) => Some(m as nat),
        None => None,
    }
}

impl ValidationErrors {
    pub fn new() -> (e: ValidationErrors)
        ensures
            e@ == Seq::<ViolationModel>::empty(),
    {
        ValidationErrors { violations: Vec::new() }
    }

    /// Records a `range` violation of `field` when `value` is out of bounds.
    pub fn check_range(&mut self, value: u64, min: Option<u64>, max: Option<u64>, field: &str)
        ensures
            final(self)@ == old(self)@ + range_rule(value as nat, opt_nat(min), opt_nat(max), field@),
    {
        let low = match min {
            Some(m) => value >= m,
            None => true,
        };
        let high = match max {
            Some(m) => value <= m,
            None => true,
        };
        if !(low && high) {
            let mut params = bound_entries(min, max);
            params.push(RuleParamEntry { name: String::from_str("value"), value: RuleParam::Number(value) });
            proof {
                assert(params@.map_values(|e: RuleParamEntry| e@) =~= bound_params(opt_nat(min), opt_nat(max)).push(
                    ("value"@, RuleParamModel::Number(value as nat)),
                ));
            }
            self.violations.push(FieldViolation { field: String::from_str(field), code: String::from_str("range"), params });
            assert(final(self)@ =~= old(self)@ + range_rule(value as nat, opt_nat(min), opt_nat(max), field@));
        } else {
            assert(old(self)@ + range_rule(value as nat, opt_nat(min), opt_nat(max), field@) =~= old(self)@);
        }
    }

    /// Records a `length` violation of `field` when `s` has a length out of bounds.
    pub fn check_len(&mut self, s: &String, min: Option<u64>, max: Option<u64>, field: &str)
        ensures
            final(self)@ == old(self)@ + length_rule(s@, opt_nat(min), opt_nat(max), field@),
    {
        if !check_length(s, min, max) {
            let mut params = bound_entries(min, max);
            params.push(RuleParamEntry { name: String::from_str("value"), value: RuleParam::Text(s.clone()) });
            proof {
                assert(params@.map_values(|e: RuleParamEntry| e@) =~= bound_params(opt_nat(min), opt_nat(max)).push(
                    ("value"@, RuleParamModel::Text(s@)),
                ));
            }
            self.violations.push(FieldViolation { field: String::from_str(field), code: String::from_str("length"), params });
            assert(final(self)@ =~= old(self)@ + length_rule(s@, opt_nat(min), opt_nat(max), field@));
        } else {
            assert(old(self)@ + length_rule(s@, opt_nat(min), opt_nat(max), field@) =~= old(self)@);
        }
    }

    /// Records a `length` violation of `field` when `o` holds a string of a
    /// length out of bounds; `None` passes.
    pub fn check_opt_len(&mut self, o: &Option<String>, min: Option<u64>, max: Option<u64>, field: &str)
        ensures
            final(self)@ == old(self)@ + opt_length_rule(o.deep_view(), opt_nat(min), opt_nat(max), field@),
    {
        match o {
            Some(s) => self.check_len(s, min, max, field),
            None => {
                assert(old(self)@ + opt_length_rule(o.deep_view(), opt_nat(min), opt_nat(max), field@) =~= old(self)@);
            },
        }
    }

    /// `Ok` when no rule was broken, else the errors.
    pub fn into_result(self) -> (r: Result<(), ValidationErrors>)
        ensures
            r is Ok <==> self@.len() == 0,
            r matches Err(e) ==> e@ == self@,
    {
        if self.violations.len() == 0 {
            Ok(())
        } else {
            Err(self)
        }
    }

    /// The message: for each violation `field: Validation error: code [{params}]`,
    /// one per line.
    pub fn message(&self) -> (m: String)
        ensures
            m@ == violations_text(self@),
    {
        let n = self.violations.len();
        let mut m = String::new();
        for i in 0..n
            invariant
                n == self.violations@.len(),
                m@ == violations_text(self@.take(i as int)),
        {
            let v = &self.violations[i];
            if i > 0 {
                m.append("\n");
            }
            let line = violation_line_string(v);
            m.append(line.as_str());
            assert(self@.take(i + 1).drop_last() =~= self@.take(i as int));
        }
        assert(self@.take(n as int) =~= self@);
        m
    }
}

} // verus!
