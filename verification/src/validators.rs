//! The field rules of the registration and password reset forms.

use vstd::prelude::*;
use validator::{ValidateEmail, ValidateLength};
use crate::decimal::nat_digits;

verus! {

/// One parameter of a broken rule: its name, and its value as the
/// validator's message writes it (the debug form of the JSON value).
#[derive(Clone, Debug, PartialEq, Eq)]
pub struct RuleParam {
    pub name: String,
    pub value: String,
}

/// One field that broke one rule: the field's name, the rule's code and the
/// rule's parameters.
#[derive(Clone, Debug, PartialEq, Eq)]
pub struct FieldViolation {
    pub field: String,
    pub code: String,
    pub params: Vec<RuleParam>,
}

/// A broken rule as plain text.
pub struct ViolationView {
    pub field: Seq<char>,
    pub code: Seq<char>,
    /// Each parameter's name and written value, in the order the message lists them.
    pub params: Seq<(Seq<char>, Seq<char>)>,
}

/// The least number of characters in a password.
pub const MIN_PASSWORD_LEN: u64 = 8;

/// Whether the `validator` crate takes `s` for an e-mail address: the outcome of
/// `ValidateEmail::validate_email` on the string.
pub uninterp spec fn validator_accepts_email(s: Seq<char>) -> bool;

/// The debug form that serde_json gives a JSON string holding `s`: the
/// outcome of `format!("{:?}", serde_json::Value::String(s))`.
pub uninterp spec fn json_string_debug(s: Seq<char>) -> Seq<char>;

/// The value parameter of a rule, as the validator's message writes it.
///
/// Trusted: wraps the `Debug` impl of `serde_json::Value` on
/// `Value::String(s)`, whose source writes `String(`, the std debug form of
/// the text, and `)`. The result is named by `json_string_debug`.
#[verifier::external_body]
fn json_text_param(s: &str) -> (text: String)
    ensures
        text@ == json_string_debug(s@),
{
    format!("{:?}", serde_json::Value::String(s.to_string()))
}

/// The bound parameter of a rule, as the validator's message writes it.
///
/// Trusted: wraps the `Debug` impl of `serde_json::Value` on the number `n`;
/// serde_json's source writes `Number(`, the number's `Display` form (its
/// decimal digits, for an unsigned integer), and `)`, which the contract states.
#[verifier::external_body]
fn json_count_param(n: u64) -> (text: String)
    ensures
        text@ == "Number("@ + nat_digits(n as nat) + ")"@,
{
    format!("{:?}", serde_json::Value::from(n))
}

/// Checks an e-mail address.
///
/// Trusted: wraps `ValidateEmail::validate_email` of the `validator` crate
/// (HTML5 address syntax, with length limits and internationalised domains).
/// Its result is named by `validator_accepts_email`; the contract adds one fact
/// that the source shows plainly: a text without `@` is refused.
#[verifier::external_body]
fn validator_email(s: &String) -> (ok: bool)
    ensures
        ok == validator_accepts_email(s@),
        !s@.contains('@') ==> !ok,
{
    s.validate_email()
}

/// Checks that a text has at least `min` characters.
///
/// Trusted: wraps `ValidateLength::validate_length(Some(min), None, None)` of the
/// `validator` crate, whose source counts the characters of a `String` with
/// `chars().count()` and compares that count with `min`; the contract states exactly that.
#[verifier::external_body]
fn validator_min_length(s: &String, min: u64) -> (ok: bool)
    ensures
        ok == (s@.len() >= min),
{
    s.validate_length(Some(min), None, None)
}

/// A parameter as plain text: its name and its written value.
pub open spec fn param_view(p: RuleParam) -> (Seq<char>, Seq<char>) {
    (p.name@, p.value@)
}

/// A violation as plain text.
pub open spec fn violation_view(v: FieldViolation) -> ViolationView {
    ViolationView {
        field: v.field@,
        code: v.code@,
        params: v.params@.map_values(|p: RuleParam| param_view(p)),
    }
}

/// The violations of a list, as plain text, in order.
pub open spec fn violations_view(vs: Seq<FieldViolation>) -> Seq<ViolationView> {
    vs.map_values(|v: FieldViolation| violation_view(v))
}

/// What the password field breaks, if anything: the length rule, whose
/// parameters are the bound and the typed value.
///
/// No custom password rule is applied: the length rule is the only one.
pub open spec fn password_violations(password: Seq<char>) -> Seq<ViolationView> {
    if password.len() < MIN_PASSWORD_LEN {
        seq![
            ViolationView {
                field: "password"@,
                code: "length"@,
                params: seq![
                    ("min"@, "Number("@ + nat_digits(MIN_PASSWORD_LEN as nat) + ")"@),
                    ("value"@, json_string_debug(password)),
                ],
            },
        ]
    } else {
        seq![]
    }
}

/// What a registration form breaks, field by field in the form's order:
/// the address must be an e-mail address (the rule's parameter is the typed
/// value), the password at least eight characters long.
pub open spec fn registration_violations(email: Seq<char>, password: Seq<char>) -> Seq<ViolationView> {
    let e: Seq<ViolationView> = if validator_accepts_email(email) {
        seq![]
    } else {
        seq![
            ViolationView {
                field: "email"@,
                code: "email"@,
                params: seq![("value"@, json_string_debug(email))],
            },
        ]
    };
    e + password_violations(password)
}

fn param(name: &str, value: String) -> (p: RuleParam)
    ensures
        param_view(p) == (name@, value@),
{
    RuleParam { name: name.to_string(), value }
}

fn email_violation(email: &String) -> (v: FieldViolation)
    ensures
        violation_view(v) == (ViolationView {
            field: "email"@,
            code: "email"@,
            params: seq![("value"@, json_string_debug(email@))],
        }),
{
    let mut params: Vec<RuleParam> = Vec::new();
    params.push(param("value", json_text_param(email.as_str())));
    let v = FieldViolation { field: "email".to_string(), code: "email".to_string(), params };
    assert(v.params@.map_values(|p: RuleParam| param_view(p)) =~= seq![
        ("value"@, json_string_debug(email@)),
    ]);
    v
}

fn length_violation(password: &String) -> (v: FieldViolation)
    ensures
        violation_view(v) == (ViolationView {
            field: "password"@,
            code: "length"@,
            params: seq![
                ("min"@, "Number("@ + nat_digits(MIN_PASSWORD_LEN as nat) + ")"@),
                ("value"@, json_string_debug(password@)),
            ],
        }),
{
    let mut params: Vec<RuleParam> = Vec::new();
    params.push(param("min", json_count_param(MIN_PASSWORD_LEN)));
    params.push(param("value", json_text_param(password.as_str())));
    let v = FieldViolation { field: "password".to_string(), code: "length".to_string(), params };
    assert(v.params@.map_values(|p: RuleParam| param_view(p)) =~= seq![
        ("min"@, "Number("@ + nat_digits(MIN_PASSWORD_LEN as nat) + ")"@),
        ("value"@, json_string_debug(password@)),
    ]);
    v
}

fn check_password(password: &String, out: &mut Vec<FieldViolation>)
    ensures
        violations_view(final(out)@) == violations_view(old(out)@) + password_violations(password@),
{
    if !validator_min_length(password, MIN_PASSWORD_LEN) {
        let ghost before = out@;
        out.push(length_violation(password));
        assert(violations_view(out@) =~= violations_view(before) + password_violations(password@));
    } else {
        assert(violations_view(out@) =~= violations_view(out@) + Seq::<ViolationView>::empty());
    }
}

/// The violations of a registration form. No custom password rule is
/// applied.
pub fn validate_registration(email: &String, password: &String) -> (vs: Vec<FieldViolation>)
    ensures
        violations_view(vs@) == registration_violations(email@, password@),
{
    let mut vs: Vec<FieldViolation> = Vec::new();
    if !validator_email(email) {
        vs.push(email_violation(email));
    }
    let ghost first = vs@;
    assert(violations_view(first) =~= (if validator_accepts_email(email@) {
        Seq::<ViolationView>::empty()
    } else {
        seq![
            ViolationView {
                field: "email"@,
                code: "email"@,
                params: seq![("value"@, json_string_debug(email@))],
            },
        ]
    }));
    check_password(password, &mut vs);
    vs
}

/// The violations of a password reset form. No custom password rule is
/// applied.
pub fn validate_reset(password: &String) -> (vs: Vec<FieldViolation>)
    ensures
        violations_view(vs@) == password_violations(password@),
{
    let mut vs: Vec<FieldViolation> = Vec::new();
    assert(violations_view(vs@) =~= Seq::<ViolationView>::empty());
    check_password(password, &mut vs);
    assert(violations_view(vs@) =~= password_violations(password@));
    vs
}

/// A password shorter than eight characters breaks the length rule,
/// whatever characters it holds, and that is the one rule it breaks; a
/// password of eight characters or more breaks none.
pub proof fn lemma_short_password_breaks_the_length_rule(password: Seq<char>)
    ensures
        password.len() < 8 ==> password_violations(password).len() == 1
            && password_violations(password)[0].field == "password"@
            && password_violations(password)[0].code == "length"@,
        password.len() >= 8 ==> password_violations(password).len() == 0,
{
}

} // verus!
