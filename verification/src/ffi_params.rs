//! Turning the C option structs of channel, payment and invoice calls into
//! Fiber RPC parameter objects. Each call is a fixed list of field steps:
//! which option fills which parameter, how it is encoded, and when it is
//! left out. The steps run in order and the first failing one is the error.
use vstd::prelude::*;

use crate::ffi_types::{
    ffi_error, options_struct_rejection, sanitized, u128_value, validate_options_struct,
    FfiError, FiberFfiStatus, FiberU128,
};
use crate::text::{hex_digits, owned, push_hex, push_str};

verus! {

/// A string field of a C option struct as the C boundary read it.
#[derive(Clone, Debug)]
pub enum CText {
    /// A null pointer.
    Null,
    /// A valid UTF-8 string.
    Text(String),
    /// Bytes that are not UTF-8, with the decoder's error text.
    NotUtf8(String),
}

/// The error for a required string field that was not given.
pub open spec fn required_error(source: CText, name: Seq<char>) -> Option<
    (FiberFfiStatus, Seq<char>),
> {
    match source {
        CText::Null => Some((FiberFfiStatus::NullPointer, sanitized(name + " must be non-null"@))),
        CText::NotUtf8(e) => Some((FiberFfiStatus::InvalidArgument, sanitized(e@))),
        CText::Text(_) => None,
    }
}

/// Reads a required string field: null and non-UTF-8 text are errors.
pub fn required_text(source: &CText, name: &str) -> (r: Result<String, FfiError>)
    ensures
        match required_error(*source, name@) {
            Some((status, m)) => r matches Err(e) && e.status == status && e.message@ == m,
            None => r matches Ok(t) && source == CText::Text(t),
        },
{
    match source {
        CText::Null => {
            let mut m = owned(name);
            push_str(&mut m, " must be non-null");
            Err(ffi_error(FiberFfiStatus::NullPointer, m.as_str()))
        },
        CText::NotUtf8(e) => Err(ffi_error(FiberFfiStatus::InvalidArgument, e.as_str())),
        CText::Text(t) => Ok(t.clone()),
    }
}

/// Reads an optional string field: null is absent, non-UTF-8 text is an
/// error.
pub fn optional_text(source: &CText) -> (r: Result<Option<String>, FfiError>)
    ensures
        match *source {
            CText::Null => r matches Ok(None),
            CText::NotUtf8(e) => r matches Err(x) && x.status == FiberFfiStatus::InvalidArgument
                && x.message@ == sanitized(e@),
            CText::Text(t) => r matches Ok(Some(s)) && s == t,
        },
{
    match source {
        CText::Null => Ok(None),
        CText::NotUtf8(e) => Err(ffi_error(FiberFfiStatus::InvalidArgument, e.as_str())),
        CText::Text(t) => Ok(Some(t.clone())),
    }
}

/// What `serde_json::from_str::<serde_json::Value>` reports for `text`:
/// `None` when it parses, else its error's display text.
pub uninterp spec fn json_parse_error(text: Seq<char>) -> Option<Seq<char>>;

/// Parses `text` as JSON with serde_json, keeping only whether it parsed
/// and the error's text.
#[verifier::external_body]
fn check_json(text: &str) -> (r: Option<String>)
    ensures
        match r {
            None => json_parse_error(text@) is None,
            Some(e) => json_parse_error(text@) == Some(e@),
        },
{
    match serde_json::from_str::<serde_json::Value>(text) {
        Ok(_) => None,
        Err(err) => Some(err.to_string()),
    }
}

/// A value of a parameter object.
#[derive(Clone, Debug)]
pub enum ParamValue {
    Text(String),
    Bool(bool),
    Number(u64),
    /// JSON text that parses.
    Json(String),
}

/// A parameter value as text and plain values.
pub enum ParamView {
    Text(Seq<char>),
    Bool(bool),
    Number(u64),
    Json(Seq<char>),
}

/// The view of a parameter value.
pub open spec fn param_view(v: ParamValue) -> ParamView {
    match v {
        ParamValue::Text(t) => ParamView::Text(t@),
        ParamValue::Bool(b) => ParamView::Bool(b),
        ParamValue::Number(n) => ParamView::Number(n),
        ParamValue::Json(t) => ParamView::Json(t@),
    }
}

/// A JSON object of RPC parameters, its fields in insertion order.
#[derive(Clone, Debug)]
pub struct ParamObject {
    pub entries: Vec<(String, ParamValue)>,
}

/// The fields of a parameter list.
pub open spec fn entries_view(v: Seq<(String, ParamValue)>) -> Seq<(Seq<char>, ParamView)> {
    v.map_values(|e: (String, ParamValue)| (e.0@, param_view(e.1)))
}

/// One step of building a parameter object.
#[derive(Clone, Debug)]
pub enum FieldStep {
    /// A required string, named `key` in errors too.
    Text { key: &'static str, source: CText },
    /// Required JSON text; `name` is the option's name in errors.
    Json { key: &'static str, name: &'static str, source: CText },
    /// A string left out when absent or empty.
    OptionalText { key: &'static str, source: CText },
    /// JSON text left out when absent or empty; errors name `<key>_json`.
    OptionalJson { key: &'static str, source: CText },
    /// A flag, present when `has_value` is non-zero; any non-zero `value`
    /// is true.
    OptionalBool { key: &'static str, has_value: i32, value: i32 },
    /// A JSON number, present when `has_value` is non-zero.
    OptionalNumber { key: &'static str, has_value: i32, value: u64 },
    /// A `0x` hexadecimal quantity, present when `has_value` is non-zero.
    OptionalU64Hex { key: &'static str, has_value: i32, value: u64 },
    /// A `0x` hexadecimal 128-bit quantity, present when `has_value` is
    /// non-zero.
    OptionalU128Hex { key: &'static str, has_value: i32, value: FiberU128 },
    /// A required `0x` hexadecimal 128-bit quantity.
    U128Hex { key: &'static str, value: FiberU128 },
    /// A fixed text value.
    Fixed { key: &'static str, text: &'static str },
    /// An option value outside its allowed set.
    Invalid { message: &'static str },
}

/// `0x` followed by the lower-case hexadecimal digits of `n`.
pub open spec fn hex_quantity(n: nat) -> Seq<char> {
    "0x"@ + hex_digits(n)
}

/// The error of a JSON option that does not parse.
pub open spec fn json_error(name: Seq<char>, text: Seq<char>) -> Option<
    (FiberFfiStatus, Seq<char>),
> {
    match json_parse_error(text) {
        Some(err) => Some(
            (FiberFfiStatus::InvalidArgument, sanitized("invalid "@ + name + ": "@ + err)),
        ),
        None => None,
    }
}

/// What one step does: fail, add nothing, or add one field.
pub open spec fn step_outcome(s: FieldStep) -> Result<
    Option<(Seq<char>, ParamView)>,
    (FiberFfiStatus, Seq<char>),
> {
    match s {
        FieldStep::Text { key, source } => match required_error(source, key@) {
            Some(e) => Err(e),
            None => Ok(Some((key@, ParamView::Text(source->Text_0@)))),
        },
        FieldStep::Json { key, name, source } => match required_error(source, name@) {
            Some(e) => Err(e),
            None => match json_error(name@, source->Text_0@) {
                Some(e) => Err(e),
                None => Ok(Some((key@, ParamView::Json(source->Text_0@)))),
            },
        },
        FieldStep::OptionalText { key, source } => match source {
            CText::Null => Ok(None),
            CText::NotUtf8(e) => Err((FiberFfiStatus::InvalidArgument, sanitized(e@))),
            CText::Text(t) => if t@.len() == 0 {
                Ok(None)
            } else {
                Ok(Some((key@, ParamView::Text(t@))))
            },
        },
        FieldStep::OptionalJson { key, source } => match source {
            CText::Null => Ok(None),
            CText::NotUtf8(e) => Err((FiberFfiStatus::InvalidArgument, sanitized(e@))),
            CText::Text(t) => if t@.len() == 0 {
                Ok(None)
            } else {
                match json_error(key@ + "_json"@, t@) {
                    Some(e) => Err(e),
                    None => Ok(Some((key@, ParamView::Json(t@)))),
                }
            },
        },
        FieldStep::OptionalBool { key, has_value, value } => if has_value != 0 {
            Ok(Some((key@, ParamView::Bool(value != 0))))
        } else {
            Ok(None)
        },
        FieldStep::OptionalNumber { key, has_value, value } => if has_value != 0 {
            Ok(Some((key@, ParamView::Number(value))))
        } else {
            Ok(None)
        },
        FieldStep::OptionalU64Hex { key, has_value, value } => if has_value != 0 {
            Ok(Some((key@, ParamView::Text(hex_quantity(value as nat)))))
        } else {
            Ok(None)
        },
        FieldStep::OptionalU128Hex { key, has_value, value } => if has_value != 0 {
            Ok(Some((key@, ParamView::Text(hex_quantity(u128_value(value))))))
        } else {
            Ok(None)
        },
        FieldStep::U128Hex { key, value } => Ok(
            Some((key@, ParamView::Text(hex_quantity(u128_value(value))))),
        ),
        FieldStep::Fixed { key, text } => Ok(Some((key@, ParamView::Text(text@)))),
        FieldStep::Invalid { message } => Err(
            (FiberFfiStatus::InvalidArgument, sanitized(message@)),
        ),
    }
}

/// The fields the steps produce in order, or the first step's error.
pub open spec fn run_steps(steps: Seq<FieldStep>) -> Result<
    Seq<(Seq<char>, ParamView)>,
    (FiberFfiStatus, Seq<char>),
>
    decreases steps.len(),
{
    if steps.len() == 0 {
        Ok(Seq::empty())
    } else {
        match run_steps(steps.drop_last()) {
            Err(e) => Err(e),
            Ok(fields) => match step_outcome(steps.last()) {
                Err(e) => Err(e),
                Ok(None) => Ok(fields),
                Ok(Some(f)) => Ok(fields.push(f)),
            },
        }
    }
}

/// The value of the last field named `key`, if any.
pub open spec fn field_of(fields: Seq<(Seq<char>, ParamView)>, key: Seq<char>) -> Option<ParamView>
    decreases fields.len(),
{
    if fields.len() == 0 {
        None
    } else if fields.last().0 == key {
        Some(fields.last().1)
    } else {
        field_of(fields.drop_last(), key)
    }
}

/// The value the last step that adds a field named `key` gives it.
pub open spec fn steps_field(steps: Seq<FieldStep>, key: Seq<char>) -> Option<ParamView>
    decreases steps.len(),
{
    if steps.len() == 0 {
        None
    } else {
        match step_outcome(steps.last()) {
            Ok(Some(f)) => if f.0 == key {
                Some(f.1)
            } else {
                steps_field(steps.drop_last(), key)
            },
            _ => steps_field(steps.drop_last(), key),
        }
    }
}

/// When the steps succeed, each field of the result is what the last step
/// adding that field gives it.
pub proof fn lemma_run_steps_field(steps: Seq<FieldStep>, key: Seq<char>)
    ensures
        run_steps(steps) matches Ok(fields) ==> field_of(fields, key) == steps_field(steps, key),
    decreases steps.len(),
{
    if steps.len() > 0 {
        lemma_run_steps_field(steps.drop_last(), key);
        match run_steps(steps.drop_last()) {
            Ok(prefix) => match step_outcome(steps.last()) {
                Ok(Some(f)) => {
                    assert(prefix.push(f).drop_last() =~= prefix);
                },
                _ => {},
            },
            Err(_) => {},
        }
    }
}

/// The name of the field a step adds, if it adds one.
pub open spec fn step_key(s: FieldStep) -> Option<Seq<char>> {
    match s {
        FieldStep::Text { key, .. } => Some(key@),
        FieldStep::Json { key, .. } => Some(key@),
        FieldStep::OptionalText { key, .. } => Some(key@),
        FieldStep::OptionalJson { key, .. } => Some(key@),
        FieldStep::OptionalBool { key, .. } => Some(key@),
        FieldStep::OptionalNumber { key, .. } => Some(key@),
        FieldStep::OptionalU64Hex { key, .. } => Some(key@),
        FieldStep::OptionalU128Hex { key, .. } => Some(key@),
        FieldStep::U128Hex { key, .. } => Some(key@),
        FieldStep::Fixed { key, .. } => Some(key@),
        FieldStep::Invalid { .. } => None,
    }
}

/// The value of field `key`, found by the steps' names: the last step
/// named `key` that adds its field.
pub open spec fn named_field(steps: Seq<FieldStep>, key: Seq<char>) -> Option<ParamView>
    decreases steps.len(),
{
    if steps.len() == 0 {
        None
    } else if step_key(steps.last()) == Some(key) {
        match step_outcome(steps.last()) {
            Ok(Some(f)) => Some(f.1),
            _ => named_field(steps.drop_last(), key),
        }
    } else {
        named_field(steps.drop_last(), key)
    }
}

/// A step only ever adds the field it is named after.
proof fn lemma_step_adds_its_key(s: FieldStep)
    ensures
        step_outcome(s) matches Ok(Some(f)) ==> step_key(s) == Some(f.0),
{
}

/// Looking a field up by the steps' names gives what the steps add.
pub proof fn lemma_named_field(steps: Seq<FieldStep>, key: Seq<char>)
    ensures
        steps_field(steps, key) == named_field(steps, key),
    decreases steps.len(),
{
    if steps.len() > 0 {
        lemma_named_field(steps.drop_last(), key);
        lemma_step_adds_its_key(steps.last());
    }
}

/// Where exactly one step is named `key`, the field `key` is what that step
/// adds, if it adds anything.
pub proof fn lemma_named_field_unique(steps: Seq<FieldStep>, i: int, key: Seq<char>)
    requires
        0 <= i < steps.len(),
        step_key(steps[i]) == Some(key),
        forall|j: int| 0 <= j < steps.len() && j != i ==> step_key(#[trigger] steps[j]) != Some(key),
    ensures
        named_field(steps, key) == match step_outcome(steps[i]) {
            Ok(Some(f)) => Some(f.1),
            _ => None,
        },
    decreases steps.len(),
{
    let last = steps.len() - 1;
    if i == last {
        lemma_named_field_absent(steps.drop_last(), key);
    } else {
        assert(step_key(steps[last]) != Some(key));
        assert(steps.drop_last()[i] == steps[i]);
        assert forall|j: int| 0 <= j < steps.drop_last().len() && j != i implies step_key(
            #[trigger] steps.drop_last()[j],
        ) != Some(key) by {
            assert(steps.drop_last()[j] == steps[j]);
        }
        lemma_named_field_unique(steps.drop_last(), i, key);
    }
}

/// Where no step is named `key`, there is no field `key`.
pub proof fn lemma_named_field_absent(steps: Seq<FieldStep>, key: Seq<char>)
    requires
        forall|j: int| 0 <= j < steps.len() ==> step_key(#[trigger] steps[j]) != Some(key),
    ensures
        named_field(steps, key) is None,
    decreases steps.len(),
{
    if steps.len() > 0 {
        assert(step_key(steps[steps.len() - 1]) != Some(key));
        assert forall|j: int| 0 <= j < steps.drop_last().len() implies step_key(
            #[trigger] steps.drop_last()[j],
        ) != Some(key) by {
            assert(steps.drop_last()[j] == steps[j]);
        }
        lemma_named_field_absent(steps.drop_last(), key);
    }
}

/// When the steps succeed, every step succeeded.
pub proof fn lemma_run_steps_ok(steps: Seq<FieldStep>)
    ensures
        run_steps(steps) is Ok ==> forall|i: int| 0 <= i < steps.len() ==> #[trigger] step_outcome(steps[i]) is Ok,
    decreases steps.len(),
{
    if steps.len() > 0 {
        lemma_run_steps_ok(steps.drop_last());
        if run_steps(steps) is Ok {
            assert forall|i: int| 0 <= i < steps.len() implies #[trigger] step_outcome(steps[i]) is Ok by {
                if i < steps.len() - 1 {
                    assert(steps.drop_last()[i] == steps[i]);
                }
            }
        }
    }
}

/// What an optional text option adds: its text when given and not empty.
pub open spec fn given_text(source: CText) -> Option<ParamView> {
    match source {
        CText::Text(t) => if t@.len() == 0 { None } else { Some(ParamView::Text(t@)) },
        _ => None,
    }
}

/// What an optional JSON option adds: its JSON text when given and not
/// empty.
pub open spec fn given_json(source: CText) -> Option<ParamView> {
    match source {
        CText::Text(t) => if t@.len() == 0 { None } else { Some(ParamView::Json(t@)) },
        _ => None,
    }
}

/// What a C flag pair adds: the flag, true for any non-zero value, when
/// `has_value` is set.
pub open spec fn given_flag(has_value: i32, value: i32) -> Option<ParamView> {
    if has_value != 0 { Some(ParamView::Bool(value != 0)) } else { None }
}

/// What a numeric C option adds: the number when `has_value` is set.
pub open spec fn given_number(has_value: i32, value: u64) -> Option<ParamView> {
    if has_value != 0 { Some(ParamView::Number(value)) } else { None }
}

/// What a 64-bit C quantity adds: `0x` and its hexadecimal digits when
/// `has_value` is set.
pub open spec fn given_u64_hex(has_value: i32, value: u64) -> Option<ParamView> {
    if has_value != 0 { Some(ParamView::Text(hex_quantity(value as nat))) } else { None }
}

/// What a 128-bit C quantity adds: `0x` and the hexadecimal digits of the
/// amount its halves stand for when `has_value` is set.
pub open spec fn given_u128_hex(has_value: i32, value: FiberU128) -> Option<ParamView> {
    if has_value != 0 { Some(ParamView::Text(hex_quantity(u128_value(value)))) } else { None }
}

/// Whether `r` is the outcome `expected`: the same fields, or the same
/// status and message.
pub open spec fn params_match(
    r: Result<ParamObject, FfiError>,
    expected: Result<Seq<(Seq<char>, ParamView)>, (FiberFfiStatus, Seq<char>)>,
) -> bool {
    match expected {
        Ok(fields) => r matches Ok(p) && entries_view(p.entries@) == fields,
        Err((status, m)) => r matches Err(e) && e.status == status && e.message@ == m,
    }
}

/// `0x` and the hexadecimal digits of `n`.
fn hex_quantity_text(n: u128) -> (r: String)
    ensures
        r@ == hex_quantity(n as nat),
{
    let mut r = owned("0x");
    push_hex(&mut r, n);
    r
}

/// Checks JSON text for an option named `name`.
fn check_json_field(text: &str, name: &str) -> (r: Result<(), FfiError>)
    ensures
        match json_error(name@, text@) {
            Some((status, m)) => r matches Err(e) && e.status == status && e.message@ == m,
            None => r is Ok,
        },
{
    match check_json(text) {
        None => Ok(()),
        Some(err) => {
            let mut m = owned("invalid ");
            push_str(&mut m, name);
            push_str(&mut m, ": ");
            push_str(&mut m, err.as_str());
            Err(ffi_error(FiberFfiStatus::InvalidArgument, m.as_str()))
        },
    }
}

/// Runs one step.
fn apply_step(step: &FieldStep) -> (r: Result<Option<(String, ParamValue)>, FfiError>)
    ensures
        match step_outcome(*step) {
            Err((status, m)) => r matches Err(e) && e.status == status && e.message@ == m,
            Ok(None) => r matches Ok(None),
            Ok(Some(f)) => r matches Ok(Some(g)) && (g.0@, param_view(g.1)) == f,
        },
{
    match step {
        FieldStep::Text { key, source } => {
            let t = match required_text(source, key) {
                Ok(t) => t,
                Err(e) => {
                    return Err(e);
                },
            };
            Ok(Some((owned(key), ParamValue::Text(t))))
        },
        FieldStep::Json { key, name, source } => {
            let t = match required_text(source, name) {
                Ok(t) => t,
                Err(e) => {
                    return Err(e);
                },
            };
            match check_json_field(t.as_str(), name) {
                Err(e) => Err(e),
                Ok(()) => Ok(Some((owned(key), ParamValue::Json(t)))),
            }
        },
        FieldStep::OptionalText { key, source } => match optional_text(source) {
            Err(e) => Err(e),
            Ok(None) => Ok(None),
            Ok(Some(t)) => if t.as_str().is_empty() {
                Ok(None)
            } else {
                Ok(Some((owned(key), ParamValue::Text(t))))
            },
        },
        FieldStep::OptionalJson { key, source } => match optional_text(source) {
            Err(e) => Err(e),
            Ok(None) => Ok(None),
            Ok(Some(t)) => if t.as_str().is_empty() {
                Ok(None)
            } else {
                let mut name = owned(key);
                push_str(&mut name, "_json");
                match check_json_field(t.as_str(), name.as_str()) {
                    Err(e) => Err(e),
                    Ok(()) => Ok(Some((owned(key), ParamValue::Json(t)))),
                }
            },
        },
        FieldStep::OptionalBool { key, has_value, value } => if *has_value != 0 {
            Ok(Some((owned(key), ParamValue::Bool(*value != 0))))
        } else {
            Ok(None)
        },
        FieldStep::OptionalNumber { key, has_value, value } => if *has_value != 0 {
            Ok(Some((owned(key), ParamValue::Number(*value))))
        } else {
            Ok(None)
        },
        FieldStep::OptionalU64Hex { key, has_value, value } => if *has_value != 0 {
            Ok(Some((owned(key), ParamValue::Text(hex_quantity_text(*value as u128)))))
        } else {
            Ok(None)
        },
        FieldStep::OptionalU128Hex { key, has_value, value } => if *has_value != 0 {
            Ok(Some((owned(key), ParamValue::Text(hex_quantity_text(value.to_u128())))))
        } else {
            Ok(None)
        },
        FieldStep::U128Hex { key, value } => Ok(
            Some((owned(key), ParamValue::Text(hex_quantity_text(value.to_u128())))),
        ),
        FieldStep::Fixed { key, text } => Ok(Some((owned(key), ParamValue::Text(owned(text))))),
        FieldStep::Invalid { message } => Err(ffi_error(FiberFfiStatus::InvalidArgument, message)),
    }
}

/// Once a prefix of the steps fails, the whole list fails the same way.
proof fn lemma_run_steps_prefix_error(steps: Seq<FieldStep>, n: int)
    requires
        0 <= n <= steps.len(),
        run_steps(steps.take(n)) is Err,
    ensures
        run_steps(steps) == run_steps(steps.take(n)),
    decreases steps.len() - n,
{
    if n < steps.len() {
        let next = steps.take(n + 1);
        assert(next.drop_last() =~= steps.take(n));
        lemma_run_steps_prefix_error(steps, n + 1);
    } else {
        assert(steps.take(n) =~= steps);
    }
}

/// Runs the steps in order into a parameter object.
pub fn build_params(steps: &Vec<FieldStep>) -> (r: Result<ParamObject, FfiError>)
    ensures
        params_match(r, run_steps(steps@)),
{
    let mut entries: Vec<(String, ParamValue)> = Vec::new();
    let mut i: usize = 0;
    proof {
        assert(steps@.take(0) =~= Seq::<FieldStep>::empty());
        assert(entries_view(entries@) =~= Seq::<(Seq<char>, ParamView)>::empty());
    }
    while i < steps.len()
        invariant
            i <= steps.len(),
            run_steps(steps@.take(i as int)) == Ok::<
                Seq<(Seq<char>, ParamView)>,
                (FiberFfiStatus, Seq<char>),
            >(entries_view(entries@)),
        decreases steps.len() - i,
    {
        proof {
            let next = steps@.take(i + 1);
            assert(next.drop_last() =~= steps@.take(i as int));
            assert(next.last() == steps@[i as int]);
        }
        match apply_step(&steps[i]) {
            Err(e) => {
                proof {
                    lemma_run_steps_prefix_error(steps@, i + 1);
                }
                return Err(e);
            },
            Ok(None) => {},
            Ok(Some(f)) => {
                let ghost before = entries@;
                entries.push(f);
                proof {
                    assert(entries_view(entries@) =~= entries_view(before).push(
                        (f.0@, param_view(f.1)),
                    ));
                }
            },
        }
        i = i + 1;
    }
    proof {
        assert(steps@.take(steps.len() as int) =~= steps@);
    }
    Ok(ParamObject { entries })
}

/// The status filter of `list_payments`: all (no filter), one of the four
/// payment states, or an error for any other value.
pub open spec fn payment_status_steps(status: i32) -> Seq<FieldStep> {
    if status == 0 {
        Seq::empty()
    } else if status == 1 {
        seq![FieldStep::Fixed { key: "status", text: "Created" }]
    } else if status == 2 {
        seq![FieldStep::Fixed { key: "status", text: "Inflight" }]
    } else if status == 3 {
        seq![FieldStep::Fixed { key: "status", text: "Success" }]
    } else if status == 4 {
        seq![FieldStep::Fixed { key: "status", text: "Failed" }]
    } else {
        seq![FieldStep::Invalid { message: "status must be one of FIBER_PAYMENT_STATUS_FILTER_*" }]
    }
}

fn payment_status_steps_of(status: i32) -> (r: Vec<FieldStep>)
    ensures
        r@ == payment_status_steps(status),
{
    let mut r: Vec<FieldStep> = Vec::new();
    if status == 0 {
    } else if status == 1 {
        r.push(FieldStep::Fixed { key: "status", text: "Created" });
    } else if status == 2 {
        r.push(FieldStep::Fixed { key: "status", text: "Inflight" });
    } else if status == 3 {
        r.push(FieldStep::Fixed { key: "status", text: "Success" });
    } else if status == 4 {
        r.push(FieldStep::Fixed { key: "status", text: "Failed" });
    } else {
        r.push(FieldStep::Invalid { message: "status must be one of FIBER_PAYMENT_STATUS_FILTER_*" });
    }
    proof {
        assert(r@ =~= payment_status_steps(status));
    }
    r
}

/// The invoice currency: the default and `FIBD` are `Fibd`, then `Fibb` and
/// `Fibt`; any other value is an error.
pub open spec fn currency_step(currency: i32) -> FieldStep {
    if currency == 0 || currency == 3 {
        FieldStep::Fixed { key: "currency", text: "Fibd" }
    } else if currency == 1 {
        FieldStep::Fixed { key: "currency", text: "Fibb" }
    } else if currency == 2 {
        FieldStep::Fixed { key: "currency", text: "Fibt" }
    } else {
        FieldStep::Invalid { message: "currency must be one of FIBER_INVOICE_CURRENCY_*" }
    }
}

fn currency_step_of(currency: i32) -> (r: FieldStep)
    ensures
        r == currency_step(currency),
{
    if currency == 0 || currency == 3 {
        FieldStep::Fixed { key: "currency", text: "Fibd" }
    } else if currency == 1 {
        FieldStep::Fixed { key: "currency", text: "Fibb" }
    } else if currency == 2 {
        FieldStep::Fixed { key: "currency", text: "Fibt" }
    } else {
        FieldStep::Invalid { message: "currency must be one of FIBER_INVOICE_CURRENCY_*" }
    }
}

/// The invoice hash algorithm: the default leaves it to the node, then
/// `ckb_hash` and `sha256`; any other value is an error.
pub open spec fn hash_algorithm_steps(hash_algorithm: i32) -> Seq<FieldStep> {
    if hash_algorithm == 0 {
        Seq::empty()
    } else if hash_algorithm == 1 {
        seq![FieldStep::Fixed { key: "hash_algorithm", text: "ckb_hash" }]
    } else if hash_algorithm == 2 {
        seq![FieldStep::Fixed { key: "hash_algorithm", text: "sha256" }]
    } else {
        seq![FieldStep::Invalid { message: "hash_algorithm must be one of FIBER_HASH_ALGORITHM_*" }]
    }
}

fn hash_algorithm_steps_of(hash_algorithm: i32) -> (r: Vec<FieldStep>)
    ensures
        r@ == hash_algorithm_steps(hash_algorithm),
{
    let mut r: Vec<FieldStep> = Vec::new();
    if hash_algorithm == 0 {
    } else if hash_algorithm == 1 {
        r.push(FieldStep::Fixed { key: "hash_algorithm", text: "ckb_hash" });
    } else if hash_algorithm == 2 {
        r.push(FieldStep::Fixed { key: "hash_algorithm", text: "sha256" });
    } else {
        r.push(FieldStep::Invalid { message: "hash_algorithm must be one of FIBER_HASH_ALGORITHM_*" });
    }
    proof {
        assert(r@ =~= hash_algorithm_steps(hash_algorithm));
    }
    r
}

/// The options of FiberOpenChannelOptions, strings as read at the C boundary.
#[derive(Clone, Debug)]
pub struct OpenChannelOptions {
    pub struct_size: u32,
    pub flags: u32,
    pub pubkey: CText,
    pub funding_amount: FiberU128,
    pub has_public: i32,
    pub public_: i32,
    pub has_one_way: i32,
    pub one_way: i32,
    pub funding_udt_type_script_json: CText,
    pub shutdown_script_json: CText,
    pub commitment_delay_epoch: u64,
    pub has_commitment_delay_epoch: i32,
    pub commitment_fee_rate: u64,
    pub has_commitment_fee_rate: i32,
    pub funding_fee_rate: u64,
    pub has_funding_fee_rate: i32,
    pub tlc_expiry_delta: u64,
    pub has_tlc_expiry_delta: i32,
    pub tlc_min_value: FiberU128,
    pub has_tlc_min_value: i32,
    pub tlc_fee_proportional_millionths: FiberU128,
    pub has_tlc_fee_proportional_millionths: i32,
    pub max_tlc_value_in_flight: FiberU128,
    pub has_max_tlc_value_in_flight: i32,
    pub max_tlc_number_in_flight: u64,
    pub has_max_tlc_number_in_flight: i32,
}

/// The steps that build the parameters of `open_channel`, in order.
pub open spec fn open_channel_steps(o: OpenChannelOptions) -> Seq<FieldStep> {
    seq![
        FieldStep::Text { key: "pubkey", source: o.pubkey },
        FieldStep::U128Hex { key: "funding_amount", value: o.funding_amount },
        FieldStep::OptionalBool { key: "public", has_value: o.has_public, value: o.public_ },
        FieldStep::OptionalBool { key: "one_way", has_value: o.has_one_way, value: o.one_way },
        FieldStep::OptionalJson { key: "funding_udt_type_script", source: o.funding_udt_type_script_json },
        FieldStep::OptionalJson { key: "shutdown_script", source: o.shutdown_script_json },
        FieldStep::OptionalNumber { key: "commitment_delay_epoch", has_value: o.has_commitment_delay_epoch, value: o.commitment_delay_epoch },
        FieldStep::OptionalU64Hex { key: "commitment_fee_rate", has_value: o.has_commitment_fee_rate, value: o.commitment_fee_rate },
        FieldStep::OptionalU64Hex { key: "funding_fee_rate", has_value: o.has_funding_fee_rate, value: o.funding_fee_rate },
        FieldStep::OptionalU64Hex { key: "tlc_expiry_delta", has_value: o.has_tlc_expiry_delta, value: o.tlc_expiry_delta },
        FieldStep::OptionalU128Hex { key: "tlc_min_value", has_value: o.has_tlc_min_value, value: o.tlc_min_value },
        FieldStep::OptionalU128Hex { key: "tlc_fee_proportional_millionths", has_value: o.has_tlc_fee_proportional_millionths, value: o.tlc_fee_proportional_millionths },
        FieldStep::OptionalU128Hex { key: "max_tlc_value_in_flight", has_value: o.has_max_tlc_value_in_flight, value: o.max_tlc_value_in_flight },
        FieldStep::OptionalU64Hex { key: "max_tlc_number_in_flight", has_value: o.has_max_tlc_number_in_flight, value: o.max_tlc_number_in_flight },
    ]
}

/// Builds the parameters of `open_channel` from FiberOpenChannelOptions: its header is checked, then the steps run.
pub fn open_channel_params_from_options(options: OpenChannelOptions, layout_size: usize) -> (r: Result<
    ParamObject,
    FfiError,
>)
    ensures
        match options_struct_rejection(options.struct_size, options.flags, layout_size, "FiberOpenChannelOptions"@) {
            Some(m) => r matches Err(e) && e.status == FiberFfiStatus::InvalidArgument && e.message@ == sanitized(m),
            None => params_match(r, run_steps(open_channel_steps(options))),
        },
{
    match validate_options_struct(options.struct_size, options.flags, layout_size, "FiberOpenChannelOptions") {
        Err(e) => {
            return Err(e);
        },
        Ok(()) => {},
    }
    let ghost o = options;
    let mut steps: Vec<FieldStep> = Vec::new();
    steps.push(FieldStep::Text { key: "pubkey", source: options.pubkey });
    steps.push(FieldStep::U128Hex { key: "funding_amount", value: options.funding_amount });
    steps.push(FieldStep::OptionalBool { key: "public", has_value: options.has_public, value: options.public_ });
    steps.push(FieldStep::OptionalBool { key: "one_way", has_value: options.has_one_way, value: options.one_way });
    steps.push(FieldStep::OptionalJson { key: "funding_udt_type_script", source: options.funding_udt_type_script_json });
    steps.push(FieldStep::OptionalJson { key: "shutdown_script", source: options.shutdown_script_json });
    steps.push(FieldStep::OptionalNumber { key: "commitment_delay_epoch", has_value: options.has_commitment_delay_epoch, value: options.commitment_delay_epoch });
    steps.push(FieldStep::OptionalU64Hex { key: "commitment_fee_rate", has_value: options.has_commitment_fee_rate, value: options.commitment_fee_rate });
    steps.push(FieldStep::OptionalU64Hex { key: "funding_fee_rate", has_value: options.has_funding_fee_rate, value: options.funding_fee_rate });
    steps.push(FieldStep::OptionalU64Hex { key: "tlc_expiry_delta", has_value: options.has_tlc_expiry_delta, value: options.tlc_expiry_delta });
    steps.push(FieldStep::OptionalU128Hex { key: "tlc_min_value", has_value: options.has_tlc_min_value, value: options.tlc_min_value });
    steps.push(FieldStep::OptionalU128Hex { key: "tlc_fee_proportional_millionths", has_value: options.has_tlc_fee_proportional_millionths, value: options.tlc_fee_proportional_millionths });
    steps.push(FieldStep::OptionalU128Hex { key: "max_tlc_value_in_flight", has_value: options.has_max_tlc_value_in_flight, value: options.max_tlc_value_in_flight });
    steps.push(FieldStep::OptionalU64Hex { key: "max_tlc_number_in_flight", has_value: options.has_max_tlc_number_in_flight, value: options.max_tlc_number_in_flight });
    proof {
        assert(steps@ =~= open_channel_steps(o));
    }
    build_params(&steps)
}

/// The options of FiberAcceptChannelOptions, strings as read at the C boundary.
#[derive(Clone, Debug)]
pub struct AcceptChannelOptions {
    pub struct_size: u32,
    pub flags: u32,
    pub temporary_channel_id: CText,
    pub funding_amount: FiberU128,
    pub shutdown_script_json: CText,
    pub max_tlc_value_in_flight: FiberU128,
    pub has_max_tlc_value_in_flight: i32,
    pub max_tlc_number_in_flight: u64,
    pub has_max_tlc_number_in_flight: i32,
    pub tlc_min_value: FiberU128,
    pub has_tlc_min_value: i32,
    pub tlc_fee_proportional_millionths: FiberU128,
    pub has_tlc_fee_proportional_millionths: i32,
    pub tlc_expiry_delta: u64,
    pub has_tlc_expiry_delta: i32,
}

/// The steps that build the parameters of `accept_channel`, in order.
pub open spec fn accept_channel_steps(o: AcceptChannelOptions) -> Seq<FieldStep> {
    seq![
        FieldStep::Text { key: "temporary_channel_id", source: o.temporary_channel_id },
        FieldStep::U128Hex { key: "funding_amount", value: o.funding_amount },
        FieldStep::OptionalJson { key: "shutdown_script", source: o.shutdown_script_json },
        FieldStep::OptionalU128Hex { key: "max_tlc_value_in_flight", has_value: o.has_max_tlc_value_in_flight, value: o.max_tlc_value_in_flight },
        FieldStep::OptionalU64Hex { key: "max_tlc_number_in_flight", has_value: o.has_max_tlc_number_in_flight, value: o.max_tlc_number_in_flight },
        FieldStep::OptionalU128Hex { key: "tlc_min_value", has_value: o.has_tlc_min_value, value: o.tlc_min_value },
        FieldStep::OptionalU128Hex { key: "tlc_fee_proportional_millionths", has_value: o.has_tlc_fee_proportional_millionths, value: o.tlc_fee_proportional_millionths },
        FieldStep::OptionalU64Hex { key: "tlc_expiry_delta", has_value: o.has_tlc_expiry_delta, value: o.tlc_expiry_delta },
    ]
}

/// Builds the parameters of `accept_channel` from FiberAcceptChannelOptions: its header is checked, then the steps run.
pub fn accept_channel_params_from_options(options: AcceptChannelOptions, layout_size: usize) -> (r: Result<
    ParamObject,
    FfiError,
>)
    ensures
        match options_struct_rejection(options.struct_size, options.flags, layout_size, "FiberAcceptChannelOptions"@) {
            Some(m) => r matches Err(e) && e.status == FiberFfiStatus::InvalidArgument && e.message@ == sanitized(m),
            None => params_match(r, run_steps(accept_channel_steps(options))),
        },
{
    match validate_options_struct(options.struct_size, options.flags, layout_size, "FiberAcceptChannelOptions") {
        Err(e) => {
            return Err(e);
        },
        Ok(()) => {},
    }
    let ghost o = options;
    let mut steps: Vec<FieldStep> = Vec::new();
    steps.push(FieldStep::Text { key: "temporary_channel_id", source: options.temporary_channel_id });
    steps.push(FieldStep::U128Hex { key: "funding_amount", value: options.funding_amount });
    steps.push(FieldStep::OptionalJson { key: "shutdown_script", source: options.shutdown_script_json });
    steps.push(FieldStep::OptionalU128Hex { key: "max_tlc_value_in_flight", has_value: options.has_max_tlc_value_in_flight, value: options.max_tlc_value_in_flight });
    steps.push(FieldStep::OptionalU64Hex { key: "max_tlc_number_in_flight", has_value: options.has_max_tlc_number_in_flight, value: options.max_tlc_number_in_flight });
    steps.push(FieldStep::OptionalU128Hex { key: "tlc_min_value", has_value: options.has_tlc_min_value, value: options.tlc_min_value });
    steps.push(FieldStep::OptionalU128Hex { key: "tlc_fee_proportional_millionths", has_value: options.has_tlc_fee_proportional_millionths, value: options.tlc_fee_proportional_millionths });
    steps.push(FieldStep::OptionalU64Hex { key: "tlc_expiry_delta", has_value: options.has_tlc_expiry_delta, value: options.tlc_expiry_delta });
    proof {
        assert(steps@ =~= accept_channel_steps(o));
    }
    build_params(&steps)
}

/// The options of FiberOpenChannelWithExternalFundingOptions, strings as read at the C boundary.
#[derive(Clone, Debug)]
pub struct OpenChannelWithExternalFundingOptions {
    pub struct_size: u32,
    pub flags: u32,
    pub pubkey: CText,
    pub funding_amount: FiberU128,
    pub has_public: i32,
    pub public_: i32,
    pub funding_udt_type_script_json: CText,
    pub shutdown_script_json: CText,
    pub funding_lock_script_json: CText,
    pub funding_lock_script_cell_deps_json: CText,
    pub commitment_delay_epoch: u64,
    pub has_commitment_delay_epoch: i32,
    pub commitment_fee_rate: u64,
    pub has_commitment_fee_rate: i32,
    pub funding_fee_rate: u64,
    pub has_funding_fee_rate: i32,
    pub tlc_expiry_delta: u64,
    pub has_tlc_expiry_delta: i32,
    pub tlc_min_value: FiberU128,
    pub has_tlc_min_value: i32,
    pub tlc_fee_proportional_millionths: FiberU128,
    pub has_tlc_fee_proportional_millionths: i32,
    pub max_tlc_value_in_flight: FiberU128,
    pub has_max_tlc_value_in_flight: i32,
    pub max_tlc_number_in_flight: u64,
    pub has_max_tlc_number_in_flight: i32,
}

/// The steps that build the parameters of `open_channel_with_external_funding`, in order.
pub open spec fn open_channel_with_external_funding_steps(o: OpenChannelWithExternalFundingOptions) -> Seq<FieldStep> {
    seq![
        FieldStep::Text { key: "pubkey", source: o.pubkey },
        FieldStep::U128Hex { key: "funding_amount", value: o.funding_amount },
        FieldStep::OptionalBool { key: "public", has_value: o.has_public, value: o.public_ },
        FieldStep::OptionalJson { key: "funding_udt_type_script", source: o.funding_udt_type_script_json },
        FieldStep::Json { key: "shutdown_script", name: "shutdown_script_json", source: o.shutdown_script_json },
        FieldStep::Json { key: "funding_lock_script", name: "funding_lock_script_json", source: o.funding_lock_script_json },
        FieldStep::OptionalJson { key: "funding_lock_script_cell_deps", source: o.funding_lock_script_cell_deps_json },
        FieldStep::OptionalNumber { key: "commitment_delay_epoch", has_value: o.has_commitment_delay_epoch, value: o.commitment_delay_epoch },
        FieldStep::OptionalU64Hex { key: "commitment_fee_rate", has_value: o.has_commitment_fee_rate, value: o.commitment_fee_rate },
        FieldStep::OptionalU64Hex { key: "funding_fee_rate", has_value: o.has_funding_fee_rate, value: o.funding_fee_rate },
        FieldStep::OptionalU64Hex { key: "tlc_expiry_delta", has_value: o.has_tlc_expiry_delta, value: o.tlc_expiry_delta },
        FieldStep::OptionalU128Hex { key: "tlc_min_value", has_value: o.has_tlc_min_value, value: o.tlc_min_value },
        FieldStep::OptionalU128Hex { key: "tlc_fee_proportional_millionths", has_value: o.has_tlc_fee_proportional_millionths, value: o.tlc_fee_proportional_millionths },
        FieldStep::OptionalU128Hex { key: "max_tlc_value_in_flight", has_value: o.has_max_tlc_value_in_flight, value: o.max_tlc_value_in_flight },
        FieldStep::OptionalU64Hex { key: "max_tlc_number_in_flight", has_value: o.has_max_tlc_number_in_flight, value: o.max_tlc_number_in_flight },
    ]
}

/// Builds the parameters of `open_channel_with_external_funding` from FiberOpenChannelWithExternalFundingOptions: its header is checked, then the steps run.
pub fn open_channel_with_external_funding_params_from_options(options: OpenChannelWithExternalFundingOptions, layout_size: usize) -> (r: Result<
    ParamObject,
    FfiError,
>)
    ensures
        match options_struct_rejection(options.struct_size, options.flags, layout_size, "FiberOpenChannelWithExternalFundingOptions"@) {
            Some(m) => r matches Err(e) && e.status == FiberFfiStatus::InvalidArgument && e.message@ == sanitized(m),
            None => params_match(r, run_steps(open_channel_with_external_funding_steps(options))),
        },
{
    match validate_options_struct(options.struct_size, options.flags, layout_size, "FiberOpenChannelWithExternalFundingOptions") {
        Err(e) => {
            return Err(e);
        },
        Ok(()) => {},
    }
    let ghost o = options;
    let mut steps: Vec<FieldStep> = Vec::new();
    steps.push(FieldStep::Text { key: "pubkey", source: options.pubkey });
    steps.push(FieldStep::U128Hex { key: "funding_amount", value: options.funding_amount });
    steps.push(FieldStep::OptionalBool { key: "public", has_value: options.has_public, value: options.public_ });
    steps.push(FieldStep::OptionalJson { key: "funding_udt_type_script", source: options.funding_udt_type_script_json });
    steps.push(FieldStep::Json { key: "shutdown_script", name: "shutdown_script_json", source: options.shutdown_script_json });
    steps.push(FieldStep::Json { key: "funding_lock_script", name: "funding_lock_script_json", source: options.funding_lock_script_json });
    steps.push(FieldStep::OptionalJson { key: "funding_lock_script_cell_deps", source: options.funding_lock_script_cell_deps_json });
    steps.push(FieldStep::OptionalNumber { key: "commitment_delay_epoch", has_value: options.has_commitment_delay_epoch, value: options.commitment_delay_epoch });
    steps.push(FieldStep::OptionalU64Hex { key: "commitment_fee_rate", has_value: options.has_commitment_fee_rate, value: options.commitment_fee_rate });
    steps.push(FieldStep::OptionalU64Hex { key: "funding_fee_rate", has_value: options.has_funding_fee_rate, value: options.funding_fee_rate });
    steps.push(FieldStep::OptionalU64Hex { key: "tlc_expiry_delta", has_value: options.has_tlc_expiry_delta, value: options.tlc_expiry_delta });
    steps.push(FieldStep::OptionalU128Hex { key: "tlc_min_value", has_value: options.has_tlc_min_value, value: options.tlc_min_value });
    steps.push(FieldStep::OptionalU128Hex { key: "tlc_fee_proportional_millionths", has_value: options.has_tlc_fee_proportional_millionths, value: options.tlc_fee_proportional_millionths });
    steps.push(FieldStep::OptionalU128Hex { key: "max_tlc_value_in_flight", has_value: options.has_max_tlc_value_in_flight, value: options.max_tlc_value_in_flight });
    steps.push(FieldStep::OptionalU64Hex { key: "max_tlc_number_in_flight", has_value: options.has_max_tlc_number_in_flight, value: options.max_tlc_number_in_flight });
    proof {
        assert(steps@ =~= open_channel_with_external_funding_steps(o));
    }
    build_params(&steps)
}

/// The options of FiberSubmitSignedFundingTxOptions, strings as read at the C boundary.
#[derive(Clone, Debug)]
pub struct SubmitSignedFundingTxOptions {
    pub struct_size: u32,
    pub flags: u32,
    pub channel_id: CText,
    pub signed_funding_tx_json: CText,
}

/// The steps that build the parameters of `submit_signed_funding_tx`, in order.
pub open spec fn submit_signed_funding_tx_steps(o: SubmitSignedFundingTxOptions) -> Seq<FieldStep> {
    seq![
        FieldStep::Text { key: "channel_id", source: o.channel_id },
        FieldStep::Json { key: "signed_funding_tx", name: "signed_funding_tx_json", source: o.signed_funding_tx_json },
    ]
}

/// Builds the parameters of `submit_signed_funding_tx` from FiberSubmitSignedFundingTxOptions: its header is checked, then the steps run.
pub fn submit_signed_funding_tx_params_from_options(options: SubmitSignedFundingTxOptions, layout_size: usize) -> (r: Result<
    ParamObject,
    FfiError,
>)
    ensures
        match options_struct_rejection(options.struct_size, options.flags, layout_size, "FiberSubmitSignedFundingTxOptions"@) {
            Some(m) => r matches Err(e) && e.status == FiberFfiStatus::InvalidArgument && e.message@ == sanitized(m),
            None => params_match(r, run_steps(submit_signed_funding_tx_steps(options))),
        },
{
    match validate_options_struct(options.struct_size, options.flags, layout_size, "FiberSubmitSignedFundingTxOptions") {
        Err(e) => {
            return Err(e);
        },
        Ok(()) => {},
    }
    let ghost o = options;
    let mut steps: Vec<FieldStep> = Vec::new();
    steps.push(FieldStep::Text { key: "channel_id", source: options.channel_id });
    steps.push(FieldStep::Json { key: "signed_funding_tx", name: "signed_funding_tx_json", source: options.signed_funding_tx_json });
    proof {
        assert(steps@ =~= submit_signed_funding_tx_steps(o));
    }
    build_params(&steps)
}

/// The options of FiberListChannelsOptions, strings as read at the C boundary.
#[derive(Clone, Debug)]
pub struct ListChannelsOptions {
    pub struct_size: u32,
    pub flags: u32,
    pub pubkey: CText,
    pub has_include_closed: i32,
    pub include_closed: i32,
    pub has_only_pending: i32,
    pub only_pending: i32,
}

/// The steps that build the parameters of `list_channels`, in order.
pub open spec fn list_channels_steps(o: ListChannelsOptions) -> Seq<FieldStep> {
    seq![
        FieldStep::OptionalText { key: "pubkey", source: o.pubkey },
        FieldStep::OptionalBool { key: "include_closed", has_value: o.has_include_closed, value: o.include_closed },
        FieldStep::OptionalBool { key: "only_pending", has_value: o.has_only_pending, value: o.only_pending },
    ]
}

/// Builds the parameters of `list_channels` from FiberListChannelsOptions: its header is checked, then the steps run.
pub fn list_channels_params_from_options(options: ListChannelsOptions, layout_size: usize) -> (r: Result<
    ParamObject,
    FfiError,
>)
    ensures
        match options_struct_rejection(options.struct_size, options.flags, layout_size, "FiberListChannelsOptions"@) {
            Some(m) => r matches Err(e) && e.status == FiberFfiStatus::InvalidArgument && e.message@ == sanitized(m),
            None => params_match(r, run_steps(list_channels_steps(options))),
        },
{
    match validate_options_struct(options.struct_size, options.flags, layout_size, "FiberListChannelsOptions") {
        Err(e) => {
            return Err(e);
        },
        Ok(()) => {},
    }
    let ghost o = options;
    let mut steps: Vec<FieldStep> = Vec::new();
    steps.push(FieldStep::OptionalText { key: "pubkey", source: options.pubkey });
    steps.push(FieldStep::OptionalBool { key: "include_closed", has_value: options.has_include_closed, value: options.include_closed });
    steps.push(FieldStep::OptionalBool { key: "only_pending", has_value: options.has_only_pending, value: options.only_pending });
    proof {
        assert(steps@ =~= list_channels_steps(o));
    }
    build_params(&steps)
}

/// The options of FiberShutdownChannelOptions, strings as read at the C boundary.
#[derive(Clone, Debug)]
pub struct ShutdownChannelOptions {
    pub struct_size: u32,
    pub flags: u32,
    pub channel_id: CText,
    pub close_script_json: CText,
    pub fee_rate: u64,
    pub has_fee_rate: i32,
    pub has_force: i32,
    pub force: i32,
}

/// The steps that build the parameters of `shutdown_channel`, in order.
pub open spec fn shutdown_channel_steps(o: ShutdownChannelOptions) -> Seq<FieldStep> {
    seq![
        FieldStep::Text { key: "channel_id", source: o.channel_id },
        FieldStep::OptionalJson { key: "close_script", source: o.close_script_json },
        FieldStep::OptionalU64Hex { key: "fee_rate", has_value: o.has_fee_rate, value: o.fee_rate },
        FieldStep::OptionalBool { key: "force", has_value: o.has_force, value: o.force },
    ]
}

/// Builds the parameters of `shutdown_channel` from FiberShutdownChannelOptions: its header is checked, then the steps run.
pub fn shutdown_channel_params_from_options(options: ShutdownChannelOptions, layout_size: usize) -> (r: Result<
    ParamObject,
    FfiError,
>)
    ensures
        match options_struct_rejection(options.struct_size, options.flags, layout_size, "FiberShutdownChannelOptions"@) {
            Some(m) => r matches Err(e) && e.status == FiberFfiStatus::InvalidArgument && e.message@ == sanitized(m),
            None => params_match(r, run_steps(shutdown_channel_steps(options))),
        },
{
    match validate_options_struct(options.struct_size, options.flags, layout_size, "FiberShutdownChannelOptions") {
        Err(e) => {
            return Err(e);
        },
        Ok(()) => {},
    }
    let ghost o = options;
    let mut steps: Vec<FieldStep> = Vec::new();
    steps.push(FieldStep::Text { key: "channel_id", source: options.channel_id });
    steps.push(FieldStep::OptionalJson { key: "close_script", source: options.close_script_json });
    steps.push(FieldStep::OptionalU64Hex { key: "fee_rate", has_value: options.has_fee_rate, value: options.fee_rate });
    steps.push(FieldStep::OptionalBool { key: "force", has_value: options.has_force, value: options.force });
    proof {
        assert(steps@ =~= shutdown_channel_steps(o));
    }
    build_params(&steps)
}

/// The options of FiberUpdateChannelOptions, strings as read at the C boundary.
#[derive(Clone, Debug)]
pub struct UpdateChannelOptions {
    pub struct_size: u32,
    pub flags: u32,
    pub channel_id: CText,
    pub has_enabled: i32,
    pub enabled: i32,
    pub tlc_expiry_delta: u64,
    pub has_tlc_expiry_delta: i32,
    pub tlc_minimum_value: FiberU128,
    pub has_tlc_minimum_value: i32,
    pub tlc_fee_proportional_millionths: FiberU128,
    pub has_tlc_fee_proportional_millionths: i32,
}

/// The steps that build the parameters of `update_channel`, in order.
pub open spec fn update_channel_steps(o: UpdateChannelOptions) -> Seq<FieldStep> {
    seq![
        FieldStep::Text { key: "channel_id", source: o.channel_id },
        FieldStep::OptionalBool { key: "enabled", has_value: o.has_enabled, value: o.enabled },
        FieldStep::OptionalU64Hex { key: "tlc_expiry_delta", has_value: o.has_tlc_expiry_delta, value: o.tlc_expiry_delta },
        FieldStep::OptionalU128Hex { key: "tlc_minimum_value", has_value: o.has_tlc_minimum_value, value: o.tlc_minimum_value },
        FieldStep::OptionalU128Hex { key: "tlc_fee_proportional_millionths", has_value: o.has_tlc_fee_proportional_millionths, value: o.tlc_fee_proportional_millionths },
    ]
}

/// Builds the parameters of `update_channel` from FiberUpdateChannelOptions: its header is checked, then the steps run.
pub fn update_channel_params_from_options(options: UpdateChannelOptions, layout_size: usize) -> (r: Result<
    ParamObject,
    FfiError,
>)
    ensures
        match options_struct_rejection(options.struct_size, options.flags, layout_size, "FiberUpdateChannelOptions"@) {
            Some(m) => r matches Err(e) && e.status == FiberFfiStatus::InvalidArgument && e.message@ == sanitized(m),
            None => params_match(r, run_steps(update_channel_steps(options))),
        },
{
    match validate_options_struct(options.struct_size, options.flags, layout_size, "FiberUpdateChannelOptions") {
        Err(e) => {
            return Err(e);
        },
        Ok(()) => {},
    }
    let ghost o = options;
    let mut steps: Vec<FieldStep> = Vec::new();
    steps.push(FieldStep::Text { key: "channel_id", source: options.channel_id });
    steps.push(FieldStep::OptionalBool { key: "enabled", has_value: options.has_enabled, value: options.enabled });
    steps.push(FieldStep::OptionalU64Hex { key: "tlc_expiry_delta", has_value: options.has_tlc_expiry_delta, value: options.tlc_expiry_delta });
    steps.push(FieldStep::OptionalU128Hex { key: "tlc_minimum_value", has_value: options.has_tlc_minimum_value, value: options.tlc_minimum_value });
    steps.push(FieldStep::OptionalU128Hex { key: "tlc_fee_proportional_millionths", has_value: options.has_tlc_fee_proportional_millionths, value: options.tlc_fee_proportional_millionths });
    proof {
        assert(steps@ =~= update_channel_steps(o));
    }
    build_params(&steps)
}

/// The options of FiberSendPaymentOptions, strings as read at the C boundary.
#[derive(Clone, Debug)]
pub struct SendPaymentOptions {
    pub struct_size: u32,
    pub flags: u32,
    pub target_pubkey: CText,
    pub amount: FiberU128,
    pub has_amount: i32,
    pub payment_hash: CText,
    pub final_tlc_expiry_delta: u64,
    pub has_final_tlc_expiry_delta: i32,
    pub tlc_expiry_limit: u64,
    pub has_tlc_expiry_limit: i32,
    pub invoice: CText,
    pub timeout: u64,
    pub has_timeout: i32,
    pub max_fee_amount: FiberU128,
    pub has_max_fee_amount: i32,
    pub max_fee_rate: u64,
    pub has_max_fee_rate: i32,
    pub max_parts: u64,
    pub has_max_parts: i32,
    pub trampoline_hops_json: CText,
    pub has_keysend: i32,
    pub keysend: i32,
    pub udt_type_script_json: CText,
    pub has_allow_self_payment: i32,
    pub allow_self_payment: i32,
    pub custom_records_json: CText,
    pub hop_hints_json: CText,
    pub has_dry_run: i32,
    pub dry_run: i32,
}

/// The steps that build the parameters of `send_payment`, in order.
pub open spec fn send_payment_steps(o: SendPaymentOptions) -> Seq<FieldStep> {
    seq![
        FieldStep::OptionalText { key: "target_pubkey", source: o.target_pubkey },
        FieldStep::OptionalU128Hex { key: "amount", has_value: o.has_amount, value: o.amount },
        FieldStep::OptionalText { key: "payment_hash", source: o.payment_hash },
        FieldStep::OptionalU64Hex { key: "final_tlc_expiry_delta", has_value: o.has_final_tlc_expiry_delta, value: o.final_tlc_expiry_delta },
        FieldStep::OptionalU64Hex { key: "tlc_expiry_limit", has_value: o.has_tlc_expiry_limit, value: o.tlc_expiry_limit },
        FieldStep::OptionalText { key: "invoice", source: o.invoice },
        FieldStep::OptionalU64Hex { key: "timeout", has_value: o.has_timeout, value: o.timeout },
        FieldStep::OptionalU128Hex { key: "max_fee_amount", has_value: o.has_max_fee_amount, value: o.max_fee_amount },
        FieldStep::OptionalU64Hex { key: "max_fee_rate", has_value: o.has_max_fee_rate, value: o.max_fee_rate },
        FieldStep::OptionalU64Hex { key: "max_parts", has_value: o.has_max_parts, value: o.max_parts },
        FieldStep::OptionalJson { key: "trampoline_hops", source: o.trampoline_hops_json },
        FieldStep::OptionalBool { key: "keysend", has_value: o.has_keysend, value: o.keysend },
        FieldStep::OptionalJson { key: "udt_type_script", source: o.udt_type_script_json },
        FieldStep::OptionalBool { key: "allow_self_payment", has_value: o.has_allow_self_payment, value: o.allow_self_payment },
        FieldStep::OptionalJson { key: "custom_records", source: o.custom_records_json },
        FieldStep::OptionalJson { key: "hop_hints", source: o.hop_hints_json },
        FieldStep::OptionalBool { key: "dry_run", has_value: o.has_dry_run, value: o.dry_run },
    ]
}

/// Builds the parameters of `send_payment` from FiberSendPaymentOptions: its header is checked, then the steps run.
pub fn send_payment_params_from_options(options: SendPaymentOptions, layout_size: usize) -> (r: Result<
    ParamObject,
    FfiError,
>)
    ensures
        match options_struct_rejection(options.struct_size, options.flags, layout_size, "FiberSendPaymentOptions"@) {
            Some(m) => r matches Err(e) && e.status == FiberFfiStatus::InvalidArgument && e.message@ == sanitized(m),
            None => params_match(r, run_steps(send_payment_steps(options))),
        },
{
    match validate_options_struct(options.struct_size, options.flags, layout_size, "FiberSendPaymentOptions") {
        Err(e) => {
            return Err(e);
        },
        Ok(()) => {},
    }
    let ghost o = options;
    let mut steps: Vec<FieldStep> = Vec::new();
    steps.push(FieldStep::OptionalText { key: "target_pubkey", source: options.target_pubkey });
    steps.push(FieldStep::OptionalU128Hex { key: "amount", has_value: options.has_amount, value: options.amount });
    steps.push(FieldStep::OptionalText { key: "payment_hash", source: options.payment_hash });
    steps.push(FieldStep::OptionalU64Hex { key: "final_tlc_expiry_delta", has_value: options.has_final_tlc_expiry_delta, value: options.final_tlc_expiry_delta });
    steps.push(FieldStep::OptionalU64Hex { key: "tlc_expiry_limit", has_value: options.has_tlc_expiry_limit, value: options.tlc_expiry_limit });
    steps.push(FieldStep::OptionalText { key: "invoice", source: options.invoice });
    steps.push(FieldStep::OptionalU64Hex { key: "timeout", has_value: options.has_timeout, value: options.timeout });
    steps.push(FieldStep::OptionalU128Hex { key: "max_fee_amount", has_value: options.has_max_fee_amount, value: options.max_fee_amount });
    steps.push(FieldStep::OptionalU64Hex { key: "max_fee_rate", has_value: options.has_max_fee_rate, value: options.max_fee_rate });
    steps.push(FieldStep::OptionalU64Hex { key: "max_parts", has_value: options.has_max_parts, value: options.max_parts });
    steps.push(FieldStep::OptionalJson { key: "trampoline_hops", source: options.trampoline_hops_json });
    steps.push(FieldStep::OptionalBool { key: "keysend", has_value: options.has_keysend, value: options.keysend });
    steps.push(FieldStep::OptionalJson { key: "udt_type_script", source: options.udt_type_script_json });
    steps.push(FieldStep::OptionalBool { key: "allow_self_payment", has_value: options.has_allow_self_payment, value: options.allow_self_payment });
    steps.push(FieldStep::OptionalJson { key: "custom_records", source: options.custom_records_json });
    steps.push(FieldStep::OptionalJson { key: "hop_hints", source: options.hop_hints_json });
    steps.push(FieldStep::OptionalBool { key: "dry_run", has_value: options.has_dry_run, value: options.dry_run });
    proof {
        assert(steps@ =~= send_payment_steps(o));
    }
    build_params(&steps)
}

/// The options of FiberBuildRouterOptions, strings as read at the C boundary.
#[derive(Clone, Debug)]
pub struct BuildRouterOptions {
    pub struct_size: u32,
    pub flags: u32,
    pub amount: FiberU128,
    pub has_amount: i32,
    pub udt_type_script_json: CText,
    pub hops_info_json: CText,
    pub final_tlc_expiry_delta: u64,
    pub has_final_tlc_expiry_delta: i32,
}

/// The steps that build the parameters of `build_router`, in order.
pub open spec fn build_router_steps(o: BuildRouterOptions) -> Seq<FieldStep> {
    seq![
        FieldStep::OptionalU128Hex { key: "amount", has_value: o.has_amount, value: o.amount },
        FieldStep::OptionalJson { key: "udt_type_script", source: o.udt_type_script_json },
        FieldStep::Json { key: "hops_info", name: "hops_info_json", source: o.hops_info_json },
        FieldStep::OptionalU64Hex { key: "final_tlc_expiry_delta", has_value: o.has_final_tlc_expiry_delta, value: o.final_tlc_expiry_delta },
    ]
}

/// Builds the parameters of `build_router` from FiberBuildRouterOptions: its header is checked, then the steps run.
pub fn build_router_params_from_options(options: BuildRouterOptions, layout_size: usize) -> (r: Result<
    ParamObject,
    FfiError,
>)
    ensures
        match options_struct_rejection(options.struct_size, options.flags, layout_size, "FiberBuildRouterOptions"@) {
            Some(m) => r matches Err(e) && e.status == FiberFfiStatus::InvalidArgument && e.message@ == sanitized(m),
            None => params_match(r, run_steps(build_router_steps(options))),
        },
{
    match validate_options_struct(options.struct_size, options.flags, layout_size, "FiberBuildRouterOptions") {
        Err(e) => {
            return Err(e);
        },
        Ok(()) => {},
    }
    let ghost o = options;
    let mut steps: Vec<FieldStep> = Vec::new();
    steps.push(FieldStep::OptionalU128Hex { key: "amount", has_value: options.has_amount, value: options.amount });
    steps.push(FieldStep::OptionalJson { key: "udt_type_script", source: options.udt_type_script_json });
    steps.push(FieldStep::Json { key: "hops_info", name: "hops_info_json", source: options.hops_info_json });
    steps.push(FieldStep::OptionalU64Hex { key: "final_tlc_expiry_delta", has_value: options.has_final_tlc_expiry_delta, value: options.final_tlc_expiry_delta });
    proof {
        assert(steps@ =~= build_router_steps(o));
    }
    build_params(&steps)
}

/// The options of FiberSendPaymentWithRouterOptions, strings as read at the C boundary.
#[derive(Clone, Debug)]
pub struct SendPaymentWithRouterOptions {
    pub struct_size: u32,
    pub flags: u32,
    pub payment_hash: CText,
    pub router_json: CText,
    pub invoice: CText,
    pub custom_records_json: CText,
    pub has_keysend: i32,
    pub keysend: i32,
    pub udt_type_script_json: CText,
    pub has_dry_run: i32,
    pub dry_run: i32,
}

/// The steps that build the parameters of `send_payment_with_router`, in order.
pub open spec fn send_payment_with_router_steps(o: SendPaymentWithRouterOptions) -> Seq<FieldStep> {
    seq![
        FieldStep::OptionalText { key: "payment_hash", source: o.payment_hash },
        FieldStep::Json { key: "router", name: "router_json", source: o.router_json },
        FieldStep::OptionalText { key: "invoice", source: o.invoice },
        FieldStep::OptionalJson { key: "custom_records", source: o.custom_records_json },
        FieldStep::OptionalBool { key: "keysend", has_value: o.has_keysend, value: o.keysend },
        FieldStep::OptionalJson { key: "udt_type_script", source: o.udt_type_script_json },
        FieldStep::OptionalBool { key: "dry_run", has_value: o.has_dry_run, value: o.dry_run },
    ]
}

/// Builds the parameters of `send_payment_with_router` from FiberSendPaymentWithRouterOptions: its header is checked, then the steps run.
pub fn send_payment_with_router_params_from_options(options: SendPaymentWithRouterOptions, layout_size: usize) -> (r: Result<
    ParamObject,
    FfiError,
>)
    ensures
        match options_struct_rejection(options.struct_size, options.flags, layout_size, "FiberSendPaymentWithRouterOptions"@) {
            Some(m) => r matches Err(e) && e.status == FiberFfiStatus::InvalidArgument && e.message@ == sanitized(m),
            None => params_match(r, run_steps(send_payment_with_router_steps(options))),
        },
{
    match validate_options_struct(options.struct_size, options.flags, layout_size, "FiberSendPaymentWithRouterOptions") {
        Err(e) => {
            return Err(e);
        },
        Ok(()) => {},
    }
    let ghost o = options;
    let mut steps: Vec<FieldStep> = Vec::new();
    steps.push(FieldStep::OptionalText { key: "payment_hash", source: options.payment_hash });
    steps.push(FieldStep::Json { key: "router", name: "router_json", source: options.router_json });
    steps.push(FieldStep::OptionalText { key: "invoice", source: options.invoice });
    steps.push(FieldStep::OptionalJson { key: "custom_records", source: options.custom_records_json });
    steps.push(FieldStep::OptionalBool { key: "keysend", has_value: options.has_keysend, value: options.keysend });
    steps.push(FieldStep::OptionalJson { key: "udt_type_script", source: options.udt_type_script_json });
    steps.push(FieldStep::OptionalBool { key: "dry_run", has_value: options.has_dry_run, value: options.dry_run });
    proof {
        assert(steps@ =~= send_payment_with_router_steps(o));
    }
    build_params(&steps)
}

/// The options of FiberListPaymentsOptions, strings as read at the C boundary.
#[derive(Clone, Debug)]
pub struct ListPaymentsOptions {
    pub struct_size: u32,
    pub flags: u32,
    pub status: i32,
    pub limit: u64,
    pub has_limit: i32,
    pub after: CText,
}

/// The steps that build the parameters of `list_payments`, in order.
pub open spec fn list_payments_steps(o: ListPaymentsOptions) -> Seq<FieldStep> {
    payment_status_steps(o.status)
        + seq![
        FieldStep::OptionalU64Hex { key: "limit", has_value: o.has_limit, value: o.limit },
        FieldStep::OptionalText { key: "after", source: o.after },
    ]
}

/// Builds the parameters of `list_payments` from FiberListPaymentsOptions: its header is checked, then the steps run.
pub fn list_payments_params_from_options(options: ListPaymentsOptions, layout_size: usize) -> (r: Result<
    ParamObject,
    FfiError,
>)
    ensures
        match options_struct_rejection(options.struct_size, options.flags, layout_size, "FiberListPaymentsOptions"@) {
            Some(m) => r matches Err(e) && e.status == FiberFfiStatus::InvalidArgument && e.message@ == sanitized(m),
            None => params_match(r, run_steps(list_payments_steps(options))),
        },
{
    match validate_options_struct(options.struct_size, options.flags, layout_size, "FiberListPaymentsOptions") {
        Err(e) => {
            return Err(e);
        },
        Ok(()) => {},
    }
    let ghost o = options;
    let mut steps: Vec<FieldStep> = payment_status_steps_of(options.status);
    steps.push(FieldStep::OptionalU64Hex { key: "limit", has_value: options.has_limit, value: options.limit });
    steps.push(FieldStep::OptionalText { key: "after", source: options.after });
    proof {
        assert(steps@ =~= list_payments_steps(o));
    }
    build_params(&steps)
}

/// The options of FiberNewInvoiceOptions, strings as read at the C boundary.
#[derive(Clone, Debug)]
pub struct NewInvoiceOptions {
    pub struct_size: u32,
    pub flags: u32,
    pub amount: FiberU128,
    pub description: CText,
    pub currency: i32,
    pub payment_preimage: CText,
    pub payment_hash: CText,
    pub expiry: u64,
    pub has_expiry: i32,
    pub fallback_address: CText,
    pub final_expiry_delta: u64,
    pub has_final_expiry_delta: i32,
    pub udt_type_script_json: CText,
    pub hash_algorithm: i32,
    pub has_allow_mpp: i32,
    pub allow_mpp: i32,
    pub has_allow_trampoline_routing: i32,
    pub allow_trampoline_routing: i32,
}

/// The steps that build the parameters of `new_invoice`, in order.
pub open spec fn new_invoice_steps(o: NewInvoiceOptions) -> Seq<FieldStep> {
    seq![
        FieldStep::U128Hex { key: "amount", value: o.amount },
        FieldStep::OptionalText { key: "description", source: o.description },
        currency_step(o.currency),
        FieldStep::OptionalText { key: "payment_preimage", source: o.payment_preimage },
        FieldStep::OptionalText { key: "payment_hash", source: o.payment_hash },
        FieldStep::OptionalU64Hex { key: "expiry", has_value: o.has_expiry, value: o.expiry },
        FieldStep::OptionalText { key: "fallback_address", source: o.fallback_address },
        FieldStep::OptionalU64Hex { key: "final_expiry_delta", has_value: o.has_final_expiry_delta, value: o.final_expiry_delta },
        FieldStep::OptionalJson { key: "udt_type_script", source: o.udt_type_script_json },
    ]
        + hash_algorithm_steps(o.hash_algorithm)
        + seq![
        FieldStep::OptionalBool { key: "allow_mpp", has_value: o.has_allow_mpp, value: o.allow_mpp },
        FieldStep::OptionalBool { key: "allow_trampoline_routing", has_value: o.has_allow_trampoline_routing, value: o.allow_trampoline_routing },
    ]
}

/// Builds the parameters of `new_invoice` from FiberNewInvoiceOptions: its header is checked, then the steps run.
pub fn new_invoice_params_from_options(options: NewInvoiceOptions, layout_size: usize) -> (r: Result<
    ParamObject,
    FfiError,
>)
    ensures
        match options_struct_rejection(options.struct_size, options.flags, layout_size, "FiberNewInvoiceOptions"@) {
            Some(m) => r matches Err(e) && e.status == FiberFfiStatus::InvalidArgument && e.message@ == sanitized(m),
            None => params_match(r, run_steps(new_invoice_steps(options))),
        },
{
    match validate_options_struct(options.struct_size, options.flags, layout_size, "FiberNewInvoiceOptions") {
        Err(e) => {
            return Err(e);
        },
        Ok(()) => {},
    }
    let ghost o = options;
    let mut steps: Vec<FieldStep> = Vec::new();
    steps.push(FieldStep::U128Hex { key: "amount", value: options.amount });
    steps.push(FieldStep::OptionalText { key: "description", source: options.description });
    steps.push(currency_step_of(options.currency));
    steps.push(FieldStep::OptionalText { key: "payment_preimage", source: options.payment_preimage });
    steps.push(FieldStep::OptionalText { key: "payment_hash", source: options.payment_hash });
    steps.push(FieldStep::OptionalU64Hex { key: "expiry", has_value: options.has_expiry, value: options.expiry });
    steps.push(FieldStep::OptionalText { key: "fallback_address", source: options.fallback_address });
    steps.push(FieldStep::OptionalU64Hex { key: "final_expiry_delta", has_value: options.has_final_expiry_delta, value: options.final_expiry_delta });
    steps.push(FieldStep::OptionalJson { key: "udt_type_script", source: options.udt_type_script_json });
    let mut extra = hash_algorithm_steps_of(options.hash_algorithm);
    steps.append(&mut extra);
    steps.push(FieldStep::OptionalBool { key: "allow_mpp", has_value: options.has_allow_mpp, value: options.allow_mpp });
    steps.push(FieldStep::OptionalBool { key: "allow_trampoline_routing", has_value: options.has_allow_trampoline_routing, value: options.allow_trampoline_routing });
    proof {
        assert(steps@ =~= new_invoice_steps(o));
    }
    build_params(&steps)
}

/// A parameter object holding one required string, such as a payment or
/// channel hash, under `name`.
pub fn required_hash_param(name: &'static str, source: CText) -> (r: Result<ParamObject, FfiError>)
    ensures
        params_match(r, run_steps(seq![FieldStep::Text { key: name, source }])),
{
    let ghost s = source;
    let mut steps: Vec<FieldStep> = Vec::new();
    steps.push(FieldStep::Text { key: name, source });
    proof {
        assert(steps@ =~= seq![FieldStep::Text { key: name, source: s }]);
    }
    build_params(&steps)
}


/// A `open_channel` request carries each given option under its own name: a required text or JSON option as given, an optional one only when given and not empty, a flag as whether its value is non-zero, and a quantity as `0x` and its hexadecimal digits, each only when its `has_` flag is set.
pub proof fn lemma_open_channel_fields(o: OpenChannelOptions)
    ensures
        run_steps(open_channel_steps(o)) matches Ok(fields) ==> {
            &&& field_of(fields, "pubkey"@) == Some(ParamView::Text(o.pubkey->Text_0@))
            &&& field_of(fields, "funding_amount"@) == Some(ParamView::Text(hex_quantity(u128_value(o.funding_amount))))
            &&& field_of(fields, "public"@) == given_flag(o.has_public, o.public_)
            &&& field_of(fields, "one_way"@) == given_flag(o.has_one_way, o.one_way)
            &&& field_of(fields, "funding_udt_type_script"@) == given_json(o.funding_udt_type_script_json)
            &&& field_of(fields, "shutdown_script"@) == given_json(o.shutdown_script_json)
            &&& field_of(fields, "commitment_delay_epoch"@) == given_number(o.has_commitment_delay_epoch, o.commitment_delay_epoch)
            &&& field_of(fields, "commitment_fee_rate"@) == given_u64_hex(o.has_commitment_fee_rate, o.commitment_fee_rate)
            &&& field_of(fields, "funding_fee_rate"@) == given_u64_hex(o.has_funding_fee_rate, o.funding_fee_rate)
            &&& field_of(fields, "tlc_expiry_delta"@) == given_u64_hex(o.has_tlc_expiry_delta, o.tlc_expiry_delta)
            &&& field_of(fields, "tlc_min_value"@) == given_u128_hex(o.has_tlc_min_value, o.tlc_min_value)
            &&& field_of(fields, "tlc_fee_proportional_millionths"@) == given_u128_hex(o.has_tlc_fee_proportional_millionths, o.tlc_fee_proportional_millionths)
            &&& field_of(fields, "max_tlc_value_in_flight"@) == given_u128_hex(o.has_max_tlc_value_in_flight, o.max_tlc_value_in_flight)
            &&& field_of(fields, "max_tlc_number_in_flight"@) == given_u64_hex(o.has_max_tlc_number_in_flight, o.max_tlc_number_in_flight)
        },
{
    let steps = open_channel_steps(o);
    lemma_run_steps_ok(steps);
    lemma_run_steps_field(steps, "pubkey"@);
    lemma_named_field(steps, "pubkey"@);
    assert(run_steps(steps) is Ok ==> named_field(steps, "pubkey"@) == Some(ParamView::Text(o.pubkey->Text_0@))) by {
        reveal_strlit("pubkey");
        reveal_strlit("funding_amount");
        reveal_strlit("public");
        reveal_strlit("one_way");
        reveal_strlit("funding_udt_type_script");
        reveal_strlit("shutdown_script");
        reveal_strlit("commitment_delay_epoch");
        reveal_strlit("commitment_fee_rate");
        reveal_strlit("funding_fee_rate");
        reveal_strlit("tlc_expiry_delta");
        reveal_strlit("tlc_min_value");
        reveal_strlit("tlc_fee_proportional_millionths");
        reveal_strlit("max_tlc_value_in_flight");
        reveal_strlit("max_tlc_number_in_flight");
        assert forall|j: int| 0 <= j < 14 && j != 0 implies step_key(#[trigger] steps[j]) != Some("pubkey"@) by {
            if j == 1 {
                assert("pubkey"@.len() != "funding_amount"@.len());
            }
            if j == 2 {
                assert("pubkey"@[3] == 'k' && "public"@[3] == 'l');
            }
            if j == 3 {
                assert("pubkey"@.len() != "one_way"@.len());
            }
            if j == 4 {
                assert("pubkey"@.len() != "funding_udt_type_script"@.len());
            }
            if j == 5 {
                assert("pubkey"@.len() != "shutdown_script"@.len());
            }
            if j == 6 {
                assert("pubkey"@.len() != "commitment_delay_epoch"@.len());
            }
            if j == 7 {
                assert("pubkey"@.len() != "commitment_fee_rate"@.len());
            }
            if j == 8 {
                assert("pubkey"@.len() != "funding_fee_rate"@.len());
            }
            if j == 9 {
                assert("pubkey"@.len() != "tlc_expiry_delta"@.len());
            }
            if j == 10 {
                assert("pubkey"@.len() != "tlc_min_value"@.len());
            }
            if j == 11 {
                assert("pubkey"@.len() != "tlc_fee_proportional_millionths"@.len());
            }
            if j == 12 {
                assert("pubkey"@.len() != "max_tlc_value_in_flight"@.len());
            }
            if j == 13 {
                assert("pubkey"@.len() != "max_tlc_number_in_flight"@.len());
            }
        }
        if run_steps(steps) is Ok {
            assert(step_outcome(steps[0]) is Ok);
            lemma_named_field_unique(steps, 0, "pubkey"@);
        }
    }
    lemma_run_steps_field(steps, "funding_amount"@);
    lemma_named_field(steps, "funding_amount"@);
    assert(named_field(steps, "funding_amount"@) == Some(ParamView::Text(hex_quantity(u128_value(o.funding_amount))))) by {
        reveal_strlit("pubkey");
        reveal_strlit("funding_amount");
        reveal_strlit("public");
        reveal_strlit("one_way");
        reveal_strlit("funding_udt_type_script");
        reveal_strlit("shutdown_script");
        reveal_strlit("commitment_delay_epoch");
        reveal_strlit("commitment_fee_rate");
        reveal_strlit("funding_fee_rate");
        reveal_strlit("tlc_expiry_delta");
        reveal_strlit("tlc_min_value");
        reveal_strlit("tlc_fee_proportional_millionths");
        reveal_strlit("max_tlc_value_in_flight");
        reveal_strlit("max_tlc_number_in_flight");
        assert forall|j: int| 0 <= j < 14 && j != 1 implies step_key(#[trigger] steps[j]) != Some("funding_amount"@) by {
            if j == 0 {
                assert("funding_amount"@.len() != "pubkey"@.len());
            }
            if j == 2 {
                assert("funding_amount"@.len() != "public"@.len());
            }
            if j == 3 {
                assert("funding_amount"@.len() != "one_way"@.len());
            }
            if j == 4 {
                assert("funding_amount"@.len() != "funding_udt_type_script"@.len());
            }
            if j == 5 {
                assert("funding_amount"@.len() != "shutdown_script"@.len());
            }
            if j == 6 {
                assert("funding_amount"@.len() != "commitment_delay_epoch"@.len());
            }
            if j == 7 {
                assert("funding_amount"@.len() != "commitment_fee_rate"@.len());
            }
            if j == 8 {
                assert("funding_amount"@.len() != "funding_fee_rate"@.len());
            }
            if j == 9 {
                assert("funding_amount"@.len() != "tlc_expiry_delta"@.len());
            }
            if j == 10 {
                assert("funding_amount"@.len() != "tlc_min_value"@.len());
            }
            if j == 11 {
                assert("funding_amount"@.len() != "tlc_fee_proportional_millionths"@.len());
            }
            if j == 12 {
                assert("funding_amount"@.len() != "max_tlc_value_in_flight"@.len());
            }
            if j == 13 {
                assert("funding_amount"@.len() != "max_tlc_number_in_flight"@.len());
            }
        }
        lemma_named_field_unique(steps, 1, "funding_amount"@);
    }
    lemma_run_steps_field(steps, "public"@);
    lemma_named_field(steps, "public"@);
    assert(named_field(steps, "public"@) == given_flag(o.has_public, o.public_)) by {
        reveal_strlit("pubkey");
        reveal_strlit("funding_amount");
        reveal_strlit("public");
        reveal_strlit("one_way");
        reveal_strlit("funding_udt_type_script");
        reveal_strlit("shutdown_script");
        reveal_strlit("commitment_delay_epoch");
        reveal_strlit("commitment_fee_rate");
        reveal_strlit("funding_fee_rate");
        reveal_strlit("tlc_expiry_delta");
        reveal_strlit("tlc_min_value");
        reveal_strlit("tlc_fee_proportional_millionths");
        reveal_strlit("max_tlc_value_in_flight");
        reveal_strlit("max_tlc_number_in_flight");
        assert forall|j: int| 0 <= j < 14 && j != 2 implies step_key(#[trigger] steps[j]) != Some("public"@) by {
            if j == 0 {
                assert("public"@[3] == 'l' && "pubkey"@[3] == 'k');
            }
            if j == 1 {
                assert("public"@.len() != "funding_amount"@.len());
            }
            if j == 3 {
                assert("public"@.len() != "one_way"@.len());
            }
            if j == 4 {
                assert("public"@.len() != "funding_udt_type_script"@.len());
            }
            if j == 5 {
                assert("public"@.len() != "shutdown_script"@.len());
            }
            if j == 6 {
                assert("public"@.len() != "commitment_delay_epoch"@.len());
            }
            if j == 7 {
                assert("public"@.len() != "commitment_fee_rate"@.len());
            }
            if j == 8 {
                assert("public"@.len() != "funding_fee_rate"@.len());
            }
            if j == 9 {
                assert("public"@.len() != "tlc_expiry_delta"@.len());
            }
            if j == 10 {
                assert("public"@.len() != "tlc_min_value"@.len());
            }
            if j == 11 {
                assert("public"@.len() != "tlc_fee_proportional_millionths"@.len());
            }
            if j == 12 {
                assert("public"@.len() != "max_tlc_value_in_flight"@.len());
            }
            if j == 13 {
                assert("public"@.len() != "max_tlc_number_in_flight"@.len());
            }
        }
        lemma_named_field_unique(steps, 2, "public"@);
    }
    lemma_run_steps_field(steps, "one_way"@);
    lemma_named_field(steps, "one_way"@);
    assert(named_field(steps, "one_way"@) == given_flag(o.has_one_way, o.one_way)) by {
        reveal_strlit("pubkey");
        reveal_strlit("funding_amount");
        reveal_strlit("public");
        reveal_strlit("one_way");
        reveal_strlit("funding_udt_type_script");
        reveal_strlit("shutdown_script");
        reveal_strlit("commitment_delay_epoch");
        reveal_strlit("commitment_fee_rate");
        reveal_strlit("funding_fee_rate");
        reveal_strlit("tlc_expiry_delta");
        reveal_strlit("tlc_min_value");
        reveal_strlit("tlc_fee_proportional_millionths");
        reveal_strlit("max_tlc_value_in_flight");
        reveal_strlit("max_tlc_number_in_flight");
        assert forall|j: int| 0 <= j < 14 && j != 3 implies step_key(#[trigger] steps[j]) != Some("one_way"@) by {
            if j == 0 {
                assert("one_way"@.len() != "pubkey"@.len());
            }
            if j == 1 {
                assert("one_way"@.len() != "funding_amount"@.len());
            }
            if j == 2 {
                assert("one_way"@.len() != "public"@.len());
            }
            if j == 4 {
                assert("one_way"@.len() != "funding_udt_type_script"@.len());
            }
            if j == 5 {
                assert("one_way"@.len() != "shutdown_script"@.len());
            }
            if j == 6 {
                assert("one_way"@.len() != "commitment_delay_epoch"@.len());
            }
            if j == 7 {
                assert("one_way"@.len() != "commitment_fee_rate"@.len());
            }
            if j == 8 {
                assert("one_way"@.len() != "funding_fee_rate"@.len());
            }
            if j == 9 {
                assert("one_way"@.len() != "tlc_expiry_delta"@.len());
            }
            if j == 10 {
                assert("one_way"@.len() != "tlc_min_value"@.len());
            }
            if j == 11 {
                assert("one_way"@.len() != "tlc_fee_proportional_millionths"@.len());
            }
            if j == 12 {
                assert("one_way"@.len() != "max_tlc_value_in_flight"@.len());
            }
            if j == 13 {
                assert("one_way"@.len() != "max_tlc_number_in_flight"@.len());
            }
        }
        lemma_named_field_unique(steps, 3, "one_way"@);
    }
    lemma_run_steps_field(steps, "funding_udt_type_script"@);
    lemma_named_field(steps, "funding_udt_type_script"@);
    assert(run_steps(steps) is Ok ==> named_field(steps, "funding_udt_type_script"@) == given_json(o.funding_udt_type_script_json)) by {
        reveal_strlit("pubkey");
        reveal_strlit("funding_amount");
        reveal_strlit("public");
        reveal_strlit("one_way");
        reveal_strlit("funding_udt_type_script");
        reveal_strlit("shutdown_script");
        reveal_strlit("commitment_delay_epoch");
        reveal_strlit("commitment_fee_rate");
        reveal_strlit("funding_fee_rate");
        reveal_strlit("tlc_expiry_delta");
        reveal_strlit("tlc_min_value");
        reveal_strlit("tlc_fee_proportional_millionths");
        reveal_strlit("max_tlc_value_in_flight");
        reveal_strlit("max_tlc_number_in_flight");
        assert forall|j: int| 0 <= j < 14 && j != 4 implies step_key(#[trigger] steps[j]) != Some("funding_udt_type_script"@) by {
            if j == 0 {
                assert("funding_udt_type_script"@.len() != "pubkey"@.len());
            }
            if j == 1 {
                assert("funding_udt_type_script"@.len() != "funding_amount"@.len());
            }
            if j == 2 {
                assert("funding_udt_type_script"@.len() != "public"@.len());
            }
            if j == 3 {
                assert("funding_udt_type_script"@.len() != "one_way"@.len());
            }
            if j == 5 {
                assert("funding_udt_type_script"@.len() != "shutdown_script"@.len());
            }
            if j == 6 {
                assert("funding_udt_type_script"@.len() != "commitment_delay_epoch"@.len());
            }
            if j == 7 {
                assert("funding_udt_type_script"@.len() != "commitment_fee_rate"@.len());
            }
            if j == 8 {
                assert("funding_udt_type_script"@.len() != "funding_fee_rate"@.len());
            }
            if j == 9 {
                assert("funding_udt_type_script"@.len() != "tlc_expiry_delta"@.len());
            }
            if j == 10 {
                assert("funding_udt_type_script"@.len() != "tlc_min_value"@.len());
            }
            if j == 11 {
                assert("funding_udt_type_script"@.len() != "tlc_fee_proportional_millionths"@.len());
            }
            if j == 12 {
                assert("funding_udt_type_script"@[0] == 'f' && "max_tlc_value_in_flight"@[0] == 'm');
            }
            if j == 13 {
                assert("funding_udt_type_script"@.len() != "max_tlc_number_in_flight"@.len());
            }
        }
        if run_steps(steps) is Ok {
            assert(step_outcome(steps[4]) is Ok);
            lemma_named_field_unique(steps, 4, "funding_udt_type_script"@);
        }
    }
    lemma_run_steps_field(steps, "shutdown_script"@);
    lemma_named_field(steps, "shutdown_script"@);
    assert(run_steps(steps) is Ok ==> named_field(steps, "shutdown_script"@) == given_json(o.shutdown_script_json)) by {
        reveal_strlit("pubkey");
        reveal_strlit("funding_amount");
        reveal_strlit("public");
        reveal_strlit("one_way");
        reveal_strlit("funding_udt_type_script");
        reveal_strlit("shutdown_script");
        reveal_strlit("commitment_delay_epoch");
        reveal_strlit("commitment_fee_rate");
        reveal_strlit("funding_fee_rate");
        reveal_strlit("tlc_expiry_delta");
        reveal_strlit("tlc_min_value");
        reveal_strlit("tlc_fee_proportional_millionths");
        reveal_strlit("max_tlc_value_in_flight");
        reveal_strlit("max_tlc_number_in_flight");
        assert forall|j: int| 0 <= j < 14 && j != 5 implies step_key(#[trigger] steps[j]) != Some("shutdown_script"@) by {
            if j == 0 {
                assert("shutdown_script"@.len() != "pubkey"@.len());
            }
            if j == 1 {
                assert("shutdown_script"@.len() != "funding_amount"@.len());
            }
            if j == 2 {
                assert("shutdown_script"@.len() != "public"@.len());
            }
            if j == 3 {
                assert("shutdown_script"@.len() != "one_way"@.len());
            }
            if j == 4 {
                assert("shutdown_script"@.len() != "funding_udt_type_script"@.len());
            }
            if j == 6 {
                assert("shutdown_script"@.len() != "commitment_delay_epoch"@.len());
            }
            if j == 7 {
                assert("shutdown_script"@.len() != "commitment_fee_rate"@.len());
            }
            if j == 8 {
                assert("shutdown_script"@.len() != "funding_fee_rate"@.len());
            }
            if j == 9 {
                assert("shutdown_script"@.len() != "tlc_expiry_delta"@.len());
            }
            if j == 10 {
                assert("shutdown_script"@.len() != "tlc_min_value"@.len());
            }
            if j == 11 {
                assert("shutdown_script"@.len() != "tlc_fee_proportional_millionths"@.len());
            }
            if j == 12 {
                assert("shutdown_script"@.len() != "max_tlc_value_in_flight"@.len());
            }
            if j == 13 {
                assert("shutdown_script"@.len() != "max_tlc_number_in_flight"@.len());
            }
        }
        if run_steps(steps) is Ok {
            assert(step_outcome(steps[5]) is Ok);
            lemma_named_field_unique(steps, 5, "shutdown_script"@);
        }
    }
    lemma_run_steps_field(steps, "commitment_delay_epoch"@);
    lemma_named_field(steps, "commitment_delay_epoch"@);
    assert(named_field(steps, "commitment_delay_epoch"@) == given_number(o.has_commitment_delay_epoch, o.commitment_delay_epoch)) by {
        reveal_strlit("pubkey");
        reveal_strlit("funding_amount");
        reveal_strlit("public");
        reveal_strlit("one_way");
        reveal_strlit("funding_udt_type_script");
        reveal_strlit("shutdown_script");
        reveal_strlit("commitment_delay_epoch");
        reveal_strlit("commitment_fee_rate");
        reveal_strlit("funding_fee_rate");
        reveal_strlit("tlc_expiry_delta");
        reveal_strlit("tlc_min_value");
        reveal_strlit("tlc_fee_proportional_millionths");
        reveal_strlit("max_tlc_value_in_flight");
        reveal_strlit("max_tlc_number_in_flight");
        assert forall|j: int| 0 <= j < 14 && j != 6 implies step_key(#[trigger] steps[j]) != Some("commitment_delay_epoch"@) by {
            if j == 0 {
                assert("commitment_delay_epoch"@.len() != "pubkey"@.len());
            }
            if j == 1 {
                assert("commitment_delay_epoch"@.len() != "funding_amount"@.len());
            }
            if j == 2 {
                assert("commitment_delay_epoch"@.len() != "public"@.len());
            }
            if j == 3 {
                assert("commitment_delay_epoch"@.len() != "one_way"@.len());
            }
            if j == 4 {
                assert("commitment_delay_epoch"@.len() != "funding_udt_type_script"@.len());
            }
            if j == 5 {
                assert("commitment_delay_epoch"@.len() != "shutdown_script"@.len());
            }
            if j == 7 {
                assert("commitment_delay_epoch"@.len() != "commitment_fee_rate"@.len());
            }
            if j == 8 {
                assert("commitment_delay_epoch"@.len() != "funding_fee_rate"@.len());
            }
            if j == 9 {
                assert("commitment_delay_epoch"@.len() != "tlc_expiry_delta"@.len());
            }
            if j == 10 {
                assert("commitment_delay_epoch"@.len() != "tlc_min_value"@.len());
            }
            if j == 11 {
                assert("commitment_delay_epoch"@.len() != "tlc_fee_proportional_millionths"@.len());
            }
            if j == 12 {
                assert("commitment_delay_epoch"@.len() != "max_tlc_value_in_flight"@.len());
            }
            if j == 13 {
                assert("commitment_delay_epoch"@.len() != "max_tlc_number_in_flight"@.len());
            }
        }
        lemma_named_field_unique(steps, 6, "commitment_delay_epoch"@);
    }
    lemma_run_steps_field(steps, "commitment_fee_rate"@);
    lemma_named_field(steps, "commitment_fee_rate"@);
    assert(named_field(steps, "commitment_fee_rate"@) == given_u64_hex(o.has_commitment_fee_rate, o.commitment_fee_rate)) by {
        reveal_strlit("pubkey");
        reveal_strlit("funding_amount");
        reveal_strlit("public");
        reveal_strlit("one_way");
        reveal_strlit("funding_udt_type_script");
        reveal_strlit("shutdown_script");
        reveal_strlit("commitment_delay_epoch");
        reveal_strlit("commitment_fee_rate");
        reveal_strlit("funding_fee_rate");
        reveal_strlit("tlc_expiry_delta");
        reveal_strlit("tlc_min_value");
        reveal_strlit("tlc_fee_proportional_millionths");
        reveal_strlit("max_tlc_value_in_flight");
        reveal_strlit("max_tlc_number_in_flight");
        assert forall|j: int| 0 <= j < 14 && j != 7 implies step_key(#[trigger] steps[j]) != Some("commitment_fee_rate"@) by {
            if j == 0 {
                assert("commitment_fee_rate"@.len() != "pubkey"@.len());
            }
            if j == 1 {
                assert("commitment_fee_rate"@.len() != "funding_amount"@.len());
            }
            if j == 2 {
                assert("commitment_fee_rate"@.len() != "public"@.len());
            }
            if j == 3 {
                assert("commitment_fee_rate"@.len() != "one_way"@.len());
            }
            if j == 4 {
                assert("commitment_fee_rate"@.len() != "funding_udt_type_script"@.len());
            }
            if j == 5 {
                assert("commitment_fee_rate"@.len() != "shutdown_script"@.len());
            }
            if j == 6 {
                assert("commitment_fee_rate"@.len() != "commitment_delay_epoch"@.len());
            }
            if j == 8 {
                assert("commitment_fee_rate"@.len() != "funding_fee_rate"@.len());
            }
            if j == 9 {
                assert("commitment_fee_rate"@.len() != "tlc_expiry_delta"@.len());
            }
            if j == 10 {
                assert("commitment_fee_rate"@.len() != "tlc_min_value"@.len());
            }
            if j == 11 {
                assert("commitment_fee_rate"@.len() != "tlc_fee_proportional_millionths"@.len());
            }
            if j == 12 {
                assert("commitment_fee_rate"@.len() != "max_tlc_value_in_flight"@.len());
            }
            if j == 13 {
                assert("commitment_fee_rate"@.len() != "max_tlc_number_in_flight"@.len());
            }
        }
        lemma_named_field_unique(steps, 7, "commitment_fee_rate"@);
    }
    lemma_run_steps_field(steps, "funding_fee_rate"@);
    lemma_named_field(steps, "funding_fee_rate"@);
    assert(named_field(steps, "funding_fee_rate"@) == given_u64_hex(o.has_funding_fee_rate, o.funding_fee_rate)) by {
        reveal_strlit("pubkey");
        reveal_strlit("funding_amount");
        reveal_strlit("public");
        reveal_strlit("one_way");
        reveal_strlit("funding_udt_type_script");
        reveal_strlit("shutdown_script");
        reveal_strlit("commitment_delay_epoch");
        reveal_strlit("commitment_fee_rate");
        reveal_strlit("funding_fee_rate");
        reveal_strlit("tlc_expiry_delta");
        reveal_strlit("tlc_min_value");
        reveal_strlit("tlc_fee_proportional_millionths");
        reveal_strlit("max_tlc_value_in_flight");
        reveal_strlit("max_tlc_number_in_flight");
        assert forall|j: int| 0 <= j < 14 && j != 8 implies step_key(#[trigger] steps[j]) != Some("funding_fee_rate"@) by {
            if j == 0 {
                assert("funding_fee_rate"@.len() != "pubkey"@.len());
            }
            if j == 1 {
                assert("funding_fee_rate"@.len() != "funding_amount"@.len());
            }
            if j == 2 {
                assert("funding_fee_rate"@.len() != "public"@.len());
            }
            if j == 3 {
                assert("funding_fee_rate"@.len() != "one_way"@.len());
            }
            if j == 4 {
                assert("funding_fee_rate"@.len() != "funding_udt_type_script"@.len());
            }
            if j == 5 {
                assert("funding_fee_rate"@.len() != "shutdown_script"@.len());
            }
            if j == 6 {
                assert("funding_fee_rate"@.len() != "commitment_delay_epoch"@.len());
            }
            if j == 7 {
                assert("funding_fee_rate"@.len() != "commitment_fee_rate"@.len());
            }
            if j == 9 {
                assert("funding_fee_rate"@[0] == 'f' && "tlc_expiry_delta"@[0] == 't');
            }
            if j == 10 {
                assert("funding_fee_rate"@.len() != "tlc_min_value"@.len());
            }
            if j == 11 {
                assert("funding_fee_rate"@.len() != "tlc_fee_proportional_millionths"@.len());
            }
            if j == 12 {
                assert("funding_fee_rate"@.len() != "max_tlc_value_in_flight"@.len());
            }
            if j == 13 {
                assert("funding_fee_rate"@.len() != "max_tlc_number_in_flight"@.len());
            }
        }
        lemma_named_field_unique(steps, 8, "funding_fee_rate"@);
    }
    lemma_run_steps_field(steps, "tlc_expiry_delta"@);
    lemma_named_field(steps, "tlc_expiry_delta"@);
    assert(named_field(steps, "tlc_expiry_delta"@) == given_u64_hex(o.has_tlc_expiry_delta, o.tlc_expiry_delta)) by {
        reveal_strlit("pubkey");
        reveal_strlit("funding_amount");
        reveal_strlit("public");
        reveal_strlit("one_way");
        reveal_strlit("funding_udt_type_script");
        reveal_strlit("shutdown_script");
        reveal_strlit("commitment_delay_epoch");
        reveal_strlit("commitment_fee_rate");
        reveal_strlit("funding_fee_rate");
        reveal_strlit("tlc_expiry_delta");
        reveal_strlit("tlc_min_value");
        reveal_strlit("tlc_fee_proportional_millionths");
        reveal_strlit("max_tlc_value_in_flight");
        reveal_strlit("max_tlc_number_in_flight");
        assert forall|j: int| 0 <= j < 14 && j != 9 implies step_key(#[trigger] steps[j]) != Some("tlc_expiry_delta"@) by {
            if j == 0 {
                assert("tlc_expiry_delta"@.len() != "pubkey"@.len());
            }
            if j == 1 {
                assert("tlc_expiry_delta"@.len() != "funding_amount"@.len());
            }
            if j == 2 {
                assert("tlc_expiry_delta"@.len() != "public"@.len());
            }
            if j == 3 {
                assert("tlc_expiry_delta"@.len() != "one_way"@.len());
            }
            if j == 4 {
                assert("tlc_expiry_delta"@.len() != "funding_udt_type_script"@.len());
            }
            if j == 5 {
                assert("tlc_expiry_delta"@.len() != "shutdown_script"@.len());
            }
            if j == 6 {
                assert("tlc_expiry_delta"@.len() != "commitment_delay_epoch"@.len());
            }
            if j == 7 {
                assert("tlc_expiry_delta"@.len() != "commitment_fee_rate"@.len());
            }
            if j == 8 {
                assert("tlc_expiry_delta"@[0] == 't' && "funding_fee_rate"@[0] == 'f');
            }
            if j == 10 {
                assert("tlc_expiry_delta"@.len() != "tlc_min_value"@.len());
            }
            if j == 11 {
                assert("tlc_expiry_delta"@.len() != "tlc_fee_proportional_millionths"@.len());
            }
            if j == 12 {
                assert("tlc_expiry_delta"@.len() != "max_tlc_value_in_flight"@.len());
            }
            if j == 13 {
                assert("tlc_expiry_delta"@.len() != "max_tlc_number_in_flight"@.len());
            }
        }
        lemma_named_field_unique(steps, 9, "tlc_expiry_delta"@);
    }
    lemma_run_steps_field(steps, "tlc_min_value"@);
    lemma_named_field(steps, "tlc_min_value"@);
    assert(named_field(steps, "tlc_min_value"@) == given_u128_hex(o.has_tlc_min_value, o.tlc_min_value)) by {
        reveal_strlit("pubkey");
        reveal_strlit("funding_amount");
        reveal_strlit("public");
        reveal_strlit("one_way");
        reveal_strlit("funding_udt_type_script");
        reveal_strlit("shutdown_script");
        reveal_strlit("commitment_delay_epoch");
        reveal_strlit("commitment_fee_rate");
        reveal_strlit("funding_fee_rate");
        reveal_strlit("tlc_expiry_delta");
        reveal_strlit("tlc_min_value");
        reveal_strlit("tlc_fee_proportional_millionths");
        reveal_strlit("max_tlc_value_in_flight");
        reveal_strlit("max_tlc_number_in_flight");
        assert forall|j: int| 0 <= j < 14 && j != 10 implies step_key(#[trigger] steps[j]) != Some("tlc_min_value"@) by {
            if j == 0 {
                assert("tlc_min_value"@.len() != "pubkey"@.len());
            }
            if j == 1 {
                assert("tlc_min_value"@.len() != "funding_amount"@.len());
            }
            if j == 2 {
                assert("tlc_min_value"@.len() != "public"@.len());
            }
            if j == 3 {
                assert("tlc_min_value"@.len() != "one_way"@.len());
            }
            if j == 4 {
                assert("tlc_min_value"@.len() != "funding_udt_type_script"@.len());
            }
            if j == 5 {
                assert("tlc_min_value"@.len() != "shutdown_script"@.len());
            }
            if j == 6 {
                assert("tlc_min_value"@.len() != "commitment_delay_epoch"@.len());
            }
            if j == 7 {
                assert("tlc_min_value"@.len() != "commitment_fee_rate"@.len());
            }
            if j == 8 {
                assert("tlc_min_value"@.len() != "funding_fee_rate"@.len());
            }
            if j == 9 {
                assert("tlc_min_value"@.len() != "tlc_expiry_delta"@.len());
            }
            if j == 11 {
                assert("tlc_min_value"@.len() != "tlc_fee_proportional_millionths"@.len());
            }
            if j == 12 {
                assert("tlc_min_value"@.len() != "max_tlc_value_in_flight"@.len());
            }
            if j == 13 {
                assert("tlc_min_value"@.len() != "max_tlc_number_in_flight"@.len());
            }
        }
        lemma_named_field_unique(steps, 10, "tlc_min_value"@);
    }
    lemma_run_steps_field(steps, "tlc_fee_proportional_millionths"@);
    lemma_named_field(steps, "tlc_fee_proportional_millionths"@);
    assert(named_field(steps, "tlc_fee_proportional_millionths"@) == given_u128_hex(o.has_tlc_fee_proportional_millionths, o.tlc_fee_proportional_millionths)) by {
        reveal_strlit("pubkey");
        reveal_strlit("funding_amount");
        reveal_strlit("public");
        reveal_strlit("one_way");
        reveal_strlit("funding_udt_type_script");
        reveal_strlit("shutdown_script");
        reveal_strlit("commitment_delay_epoch");
        reveal_strlit("commitment_fee_rate");
        reveal_strlit("funding_fee_rate");
        reveal_strlit("tlc_expiry_delta");
        reveal_strlit("tlc_min_value");
        reveal_strlit("tlc_fee_proportional_millionths");
        reveal_strlit("max_tlc_value_in_flight");
        reveal_strlit("max_tlc_number_in_flight");
        assert forall|j: int| 0 <= j < 14 && j != 11 implies step_key(#[trigger] steps[j]) != Some("tlc_fee_proportional_millionths"@) by {
            if j == 0 {
                assert("tlc_fee_proportional_millionths"@.len() != "pubkey"@.len());
            }
            if j == 1 {
                assert("tlc_fee_proportional_millionths"@.len() != "funding_amount"@.len());
            }
            if j == 2 {
                assert("tlc_fee_proportional_millionths"@.len() != "public"@.len());
            }
            if j == 3 {
                assert("tlc_fee_proportional_millionths"@.len() != "one_way"@.len());
            }
            if j == 4 {
                assert("tlc_fee_proportional_millionths"@.len() != "funding_udt_type_script"@.len());
            }
            if j == 5 {
                assert("tlc_fee_proportional_millionths"@.len() != "shutdown_script"@.len());
            }
            if j == 6 {
                assert("tlc_fee_proportional_millionths"@.len() != "commitment_delay_epoch"@.len());
            }
            if j == 7 {
                assert("tlc_fee_proportional_millionths"@.len() != "commitment_fee_rate"@.len());
            }
            if j == 8 {
                assert("tlc_fee_proportional_millionths"@.len() != "funding_fee_rate"@.len());
            }
            if j == 9 {
                assert("tlc_fee_proportional_millionths"@.len() != "tlc_expiry_delta"@.len());
            }
            if j == 10 {
                assert("tlc_fee_proportional_millionths"@.len() != "tlc_min_value"@.len());
            }
            if j == 12 {
                assert("tlc_fee_proportional_millionths"@.len() != "max_tlc_value_in_flight"@.len());
            }
            if j == 13 {
                assert("tlc_fee_proportional_millionths"@.len() != "max_tlc_number_in_flight"@.len());
            }
        }
        lemma_named_field_unique(steps, 11, "tlc_fee_proportional_millionths"@);
    }
    lemma_run_steps_field(steps, "max_tlc_value_in_flight"@);
    lemma_named_field(steps, "max_tlc_value_in_flight"@);
    assert(named_field(steps, "max_tlc_value_in_flight"@) == given_u128_hex(o.has_max_tlc_value_in_flight, o.max_tlc_value_in_flight)) by {
        reveal_strlit("pubkey");
        reveal_strlit("funding_amount");
        reveal_strlit("public");
        reveal_strlit("one_way");
        reveal_strlit("funding_udt_type_script");
        reveal_strlit("shutdown_script");
        reveal_strlit("commitment_delay_epoch");
        reveal_strlit("commitment_fee_rate");
        reveal_strlit("funding_fee_rate");
        reveal_strlit("tlc_expiry_delta");
        reveal_strlit("tlc_min_value");
        reveal_strlit("tlc_fee_proportional_millionths");
        reveal_strlit("max_tlc_value_in_flight");
        reveal_strlit("max_tlc_number_in_flight");
        assert forall|j: int| 0 <= j < 14 && j != 12 implies step_key(#[trigger] steps[j]) != Some("max_tlc_value_in_flight"@) by {
            if j == 0 {
                assert("max_tlc_value_in_flight"@.len() != "pubkey"@.len());
            }
            if j == 1 {
                assert("max_tlc_value_in_flight"@.len() != "funding_amount"@.len());
            }
            if j == 2 {
                assert("max_tlc_value_in_flight"@.len() != "public"@.len());
            }
            if j == 3 {
                assert("max_tlc_value_in_flight"@.len() != "one_way"@.len());
            }
            if j == 4 {
                assert("max_tlc_value_in_flight"@[0] == 'm' && "funding_udt_type_script"@[0] == 'f');
            }
            if j == 5 {
                assert("max_tlc_value_in_flight"@.len() != "shutdown_script"@.len());
            }
            if j == 6 {
                assert("max_tlc_value_in_flight"@.len() != "commitment_delay_epoch"@.len());
            }
            if j == 7 {
                assert("max_tlc_value_in_flight"@.len() != "commitment_fee_rate"@.len());
            }
            if j == 8 {
                assert("max_tlc_value_in_flight"@.len() != "funding_fee_rate"@.len());
            }
            if j == 9 {
                assert("max_tlc_value_in_flight"@.len() != "tlc_expiry_delta"@.len());
            }
            if j == 10 {
                assert("max_tlc_value_in_flight"@.len() != "tlc_min_value"@.len());
            }
            if j == 11 {
                assert("max_tlc_value_in_flight"@.len() != "tlc_fee_proportional_millionths"@.len());
            }
            if j == 13 {
                assert("max_tlc_value_in_flight"@.len() != "max_tlc_number_in_flight"@.len());
            }
        }
        lemma_named_field_unique(steps, 12, "max_tlc_value_in_flight"@);
    }
    lemma_run_steps_field(steps, "max_tlc_number_in_flight"@);
    lemma_named_field(steps, "max_tlc_number_in_flight"@);
    assert(named_field(steps, "max_tlc_number_in_flight"@) == given_u64_hex(o.has_max_tlc_number_in_flight, o.max_tlc_number_in_flight)) by {
        reveal_strlit("pubkey");
        reveal_strlit("funding_amount");
        reveal_strlit("public");
        reveal_strlit("one_way");
        reveal_strlit("funding_udt_type_script");
        reveal_strlit("shutdown_script");
        reveal_strlit("commitment_delay_epoch");
        reveal_strlit("commitment_fee_rate");
        reveal_strlit("funding_fee_rate");
        reveal_strlit("tlc_expiry_delta");
        reveal_strlit("tlc_min_value");
        reveal_strlit("tlc_fee_proportional_millionths");
        reveal_strlit("max_tlc_value_in_flight");
        reveal_strlit("max_tlc_number_in_flight");
        assert forall|j: int| 0 <= j < 14 && j != 13 implies step_key(#[trigger] steps[j]) != Some("max_tlc_number_in_flight"@) by {
            if j == 0 {
                assert("max_tlc_number_in_flight"@.len() != "pubkey"@.len());
            }
            if j == 1 {
                assert("max_tlc_number_in_flight"@.len() != "funding_amount"@.len());
            }
            if j == 2 {
                assert("max_tlc_number_in_flight"@.len() != "public"@.len());
            }
            if j == 3 {
                assert("max_tlc_number_in_flight"@.len() != "one_way"@.len());
            }
            if j == 4 {
                assert("max_tlc_number_in_flight"@.len() != "funding_udt_type_script"@.len());
            }
            if j == 5 {
                assert("max_tlc_number_in_flight"@.len() != "shutdown_script"@.len());
            }
            if j == 6 {
                assert("max_tlc_number_in_flight"@.len() != "commitment_delay_epoch"@.len());
            }
            if j == 7 {
                assert("max_tlc_number_in_flight"@.len() != "commitment_fee_rate"@.len());
            }
            if j == 8 {
                assert("max_tlc_number_in_flight"@.len() != "funding_fee_rate"@.len());
            }
            if j == 9 {
                assert("max_tlc_number_in_flight"@.len() != "tlc_expiry_delta"@.len());
            }
            if j == 10 {
                assert("max_tlc_number_in_flight"@.len() != "tlc_min_value"@.len());
            }
            if j == 11 {
                assert("max_tlc_number_in_flight"@.len() != "tlc_fee_proportional_millionths"@.len());
            }
            if j == 12 {
                assert("max_tlc_number_in_flight"@.len() != "max_tlc_value_in_flight"@.len());
            }
        }
        lemma_named_field_unique(steps, 13, "max_tlc_number_in_flight"@);
    }
}

/// A `accept_channel` request carries each given option under its own name: a required text or JSON option as given, an optional one only when given and not empty, a flag as whether its value is non-zero, and a quantity as `0x` and its hexadecimal digits, each only when its `has_` flag is set.
pub proof fn lemma_accept_channel_fields(o: AcceptChannelOptions)
    ensures
        run_steps(accept_channel_steps(o)) matches Ok(fields) ==> {
            &&& field_of(fields, "temporary_channel_id"@) == Some(ParamView::Text(o.temporary_channel_id->Text_0@))
            &&& field_of(fields, "funding_amount"@) == Some(ParamView::Text(hex_quantity(u128_value(o.funding_amount))))
            &&& field_of(fields, "shutdown_script"@) == given_json(o.shutdown_script_json)
            &&& field_of(fields, "max_tlc_value_in_flight"@) == given_u128_hex(o.has_max_tlc_value_in_flight, o.max_tlc_value_in_flight)
            &&& field_of(fields, "max_tlc_number_in_flight"@) == given_u64_hex(o.has_max_tlc_number_in_flight, o.max_tlc_number_in_flight)
            &&& field_of(fields, "tlc_min_value"@) == given_u128_hex(o.has_tlc_min_value, o.tlc_min_value)
            &&& field_of(fields, "tlc_fee_proportional_millionths"@) == given_u128_hex(o.has_tlc_fee_proportional_millionths, o.tlc_fee_proportional_millionths)
            &&& field_of(fields, "tlc_expiry_delta"@) == given_u64_hex(o.has_tlc_expiry_delta, o.tlc_expiry_delta)
        },
{
    let steps = accept_channel_steps(o);
    lemma_run_steps_ok(steps);
    lemma_run_steps_field(steps, "temporary_channel_id"@);
    lemma_named_field(steps, "temporary_channel_id"@);
    assert(run_steps(steps) is Ok ==> named_field(steps, "temporary_channel_id"@) == Some(ParamView::Text(o.temporary_channel_id->Text_0@))) by {
        reveal_strlit("temporary_channel_id");
        reveal_strlit("funding_amount");
        reveal_strlit("shutdown_script");
        reveal_strlit("max_tlc_value_in_flight");
        reveal_strlit("max_tlc_number_in_flight");
        reveal_strlit("tlc_min_value");
        reveal_strlit("tlc_fee_proportional_millionths");
        reveal_strlit("tlc_expiry_delta");
        assert forall|j: int| 0 <= j < 8 && j != 0 implies step_key(#[trigger] steps[j]) != Some("temporary_channel_id"@) by {
            if j == 1 {
                assert("temporary_channel_id"@.len() != "funding_amount"@.len());
            }
            if j == 2 {
                assert("temporary_channel_id"@.len() != "shutdown_script"@.len());
            }
            if j == 3 {
                assert("temporary_channel_id"@.len() != "max_tlc_value_in_flight"@.len());
            }
            if j == 4 {
                assert("temporary_channel_id"@.len() != "max_tlc_number_in_flight"@.len());
            }
            if j == 5 {
                assert("temporary_channel_id"@.len() != "tlc_min_value"@.len());
            }
            if j == 6 {
                assert("temporary_channel_id"@.len() != "tlc_fee_proportional_millionths"@.len());
            }
            if j == 7 {
                assert("temporary_channel_id"@.len() != "tlc_expiry_delta"@.len());
            }
        }
        if run_steps(steps) is Ok {
            assert(step_outcome(steps[0]) is Ok);
            lemma_named_field_unique(steps, 0, "temporary_channel_id"@);
        }
    }
    lemma_run_steps_field(steps, "funding_amount"@);
    lemma_named_field(steps, "funding_amount"@);
    assert(named_field(steps, "funding_amount"@) == Some(ParamView::Text(hex_quantity(u128_value(o.funding_amount))))) by {
        reveal_strlit("temporary_channel_id");
        reveal_strlit("funding_amount");
        reveal_strlit("shutdown_script");
        reveal_strlit("max_tlc_value_in_flight");
        reveal_strlit("max_tlc_number_in_flight");
        reveal_strlit("tlc_min_value");
        reveal_strlit("tlc_fee_proportional_millionths");
        reveal_strlit("tlc_expiry_delta");
        assert forall|j: int| 0 <= j < 8 && j != 1 implies step_key(#[trigger] steps[j]) != Some("funding_amount"@) by {
            if j == 0 {
                assert("funding_amount"@.len() != "temporary_channel_id"@.len());
            }
            if j == 2 {
                assert("funding_amount"@.len() != "shutdown_script"@.len());
            }
            if j == 3 {
                assert("funding_amount"@.len() != "max_tlc_value_in_flight"@.len());
            }
            if j == 4 {
                assert("funding_amount"@.len() != "max_tlc_number_in_flight"@.len());
            }
            if j == 5 {
                assert("funding_amount"@.len() != "tlc_min_value"@.len());
            }
            if j == 6 {
                assert("funding_amount"@.len() != "tlc_fee_proportional_millionths"@.len());
            }
            if j == 7 {
                assert("funding_amount"@.len() != "tlc_expiry_delta"@.len());
            }
        }
        lemma_named_field_unique(steps, 1, "funding_amount"@);
    }
    lemma_run_steps_field(steps, "shutdown_script"@);
    lemma_named_field(steps, "shutdown_script"@);
    assert(run_steps(steps) is Ok ==> named_field(steps, "shutdown_script"@) == given_json(o.shutdown_script_json)) by {
        reveal_strlit("temporary_channel_id");
        reveal_strlit("funding_amount");
        reveal_strlit("shutdown_script");
        reveal_strlit("max_tlc_value_in_flight");
        reveal_strlit("max_tlc_number_in_flight");
        reveal_strlit("tlc_min_value");
        reveal_strlit("tlc_fee_proportional_millionths");
        reveal_strlit("tlc_expiry_delta");
        assert forall|j: int| 0 <= j < 8 && j != 2 implies step_key(#[trigger] steps[j]) != Some("shutdown_script"@) by {
            if j == 0 {
                assert("shutdown_script"@.len() != "temporary_channel_id"@.len());
            }
            if j == 1 {
                assert("shutdown_script"@.len() != "funding_amount"@.len());
            }
            if j == 3 {
                assert("shutdown_script"@.len() != "max_tlc_value_in_flight"@.len());
            }
            if j == 4 {
                assert("shutdown_script"@.len() != "max_tlc_number_in_flight"@.len());
            }
            if j == 5 {
                assert("shutdown_script"@.len() != "tlc_min_value"@.len());
            }
            if j == 6 {
                assert("shutdown_script"@.len() != "tlc_fee_proportional_millionths"@.len());
            }
            if j == 7 {
                assert("shutdown_script"@.len() != "tlc_expiry_delta"@.len());
            }
        }
        if run_steps(steps) is Ok {
            assert(step_outcome(steps[2]) is Ok);
            lemma_named_field_unique(steps, 2, "shutdown_script"@);
        }
    }
    lemma_run_steps_field(steps, "max_tlc_value_in_flight"@);
    lemma_named_field(steps, "max_tlc_value_in_flight"@);
    assert(named_field(steps, "max_tlc_value_in_flight"@) == given_u128_hex(o.has_max_tlc_value_in_flight, o.max_tlc_value_in_flight)) by {
        reveal_strlit("temporary_channel_id");
        reveal_strlit("funding_amount");
        reveal_strlit("shutdown_script");
        reveal_strlit("max_tlc_value_in_flight");
        reveal_strlit("max_tlc_number_in_flight");
        reveal_strlit("tlc_min_value");
        reveal_strlit("tlc_fee_proportional_millionths");
        reveal_strlit("tlc_expiry_delta");
        assert forall|j: int| 0 <= j < 8 && j != 3 implies step_key(#[trigger] steps[j]) != Some("max_tlc_value_in_flight"@) by {
            if j == 0 {
                assert("max_tlc_value_in_flight"@.len() != "temporary_channel_id"@.len());
            }
            if j == 1 {
                assert("max_tlc_value_in_flight"@.len() != "funding_amount"@.len());
            }
            if j == 2 {
                assert("max_tlc_value_in_flight"@.len() != "shutdown_script"@.len());
            }
            if j == 4 {
                assert("max_tlc_value_in_flight"@.len() != "max_tlc_number_in_flight"@.len());
            }
            if j == 5 {
                assert("max_tlc_value_in_flight"@.len() != "tlc_min_value"@.len());
            }
            if j == 6 {
                assert("max_tlc_value_in_flight"@.len() != "tlc_fee_proportional_millionths"@.len());
            }
            if j == 7 {
                assert("max_tlc_value_in_flight"@.len() != "tlc_expiry_delta"@.len());
            }
        }
        lemma_named_field_unique(steps, 3, "max_tlc_value_in_flight"@);
    }
    lemma_run_steps_field(steps, "max_tlc_number_in_flight"@);
    lemma_named_field(steps, "max_tlc_number_in_flight"@);
    assert(named_field(steps, "max_tlc_number_in_flight"@) == given_u64_hex(o.has_max_tlc_number_in_flight, o.max_tlc_number_in_flight)) by {
        reveal_strlit("temporary_channel_id");
        reveal_strlit("funding_amount");
        reveal_strlit("shutdown_script");
        reveal_strlit("max_tlc_value_in_flight");
        reveal_strlit("max_tlc_number_in_flight");
        reveal_strlit("tlc_min_value");
        reveal_strlit("tlc_fee_proportional_millionths");
        reveal_strlit("tlc_expiry_delta");
        assert forall|j: int| 0 <= j < 8 && j != 4 implies step_key(#[trigger] steps[j]) != Some("max_tlc_number_in_flight"@) by {
            if j == 0 {
                assert("max_tlc_number_in_flight"@.len() != "temporary_channel_id"@.len());
            }
            if j == 1 {
                assert("max_tlc_number_in_flight"@.len() != "funding_amount"@.len());
            }
            if j == 2 {
                assert("max_tlc_number_in_flight"@.len() != "shutdown_script"@.len());
            }
            if j == 3 {
                assert("max_tlc_number_in_flight"@.len() != "max_tlc_value_in_flight"@.len());
            }
            if j == 5 {
                assert("max_tlc_number_in_flight"@.len() != "tlc_min_value"@.len());
            }
            if j == 6 {
                assert("max_tlc_number_in_flight"@.len() != "tlc_fee_proportional_millionths"@.len());
            }
            if j == 7 {
                assert("max_tlc_number_in_flight"@.len() != "tlc_expiry_delta"@.len());
            }
        }
        lemma_named_field_unique(steps, 4, "max_tlc_number_in_flight"@);
    }
    lemma_run_steps_field(steps, "tlc_min_value"@);
    lemma_named_field(steps, "tlc_min_value"@);
    assert(named_field(steps, "tlc_min_value"@) == given_u128_hex(o.has_tlc_min_value, o.tlc_min_value)) by {
        reveal_strlit("temporary_channel_id");
        reveal_strlit("funding_amount");
        reveal_strlit("shutdown_script");
        reveal_strlit("max_tlc_value_in_flight");
        reveal_strlit("max_tlc_number_in_flight");
        reveal_strlit("tlc_min_value");
        reveal_strlit("tlc_fee_proportional_millionths");
        reveal_strlit("tlc_expiry_delta");
        assert forall|j: int| 0 <= j < 8 && j != 5 implies step_key(#[trigger] steps[j]) != Some("tlc_min_value"@) by {
            if j == 0 {
                assert("tlc_min_value"@.len() != "temporary_channel_id"@.len());
            }
            if j == 1 {
                assert("tlc_min_value"@.len() != "funding_amount"@.len());
            }
            if j == 2 {
                assert("tlc_min_value"@.len() != "shutdown_script"@.len());
            }
            if j == 3 {
                assert("tlc_min_value"@.len() != "max_tlc_value_in_flight"@.len());
            }
            if j == 4 {
                assert("tlc_min_value"@.len() != "max_tlc_number_in_flight"@.len());
            }
            if j == 6 {
                assert("tlc_min_value"@.len() != "tlc_fee_proportional_millionths"@.len());
            }
            if j == 7 {
                assert("tlc_min_value"@.len() != "tlc_expiry_delta"@.len());
            }
        }
        lemma_named_field_unique(steps, 5, "tlc_min_value"@);
    }
    lemma_run_steps_field(steps, "tlc_fee_proportional_millionths"@);
    lemma_named_field(steps, "tlc_fee_proportional_millionths"@);
    assert(named_field(steps, "tlc_fee_proportional_millionths"@) == given_u128_hex(o.has_tlc_fee_proportional_millionths, o.tlc_fee_proportional_millionths)) by {
        reveal_strlit("temporary_channel_id");
        reveal_strlit("funding_amount");
        reveal_strlit("shutdown_script");
        reveal_strlit("max_tlc_value_in_flight");
        reveal_strlit("max_tlc_number_in_flight");
        reveal_strlit("tlc_min_value");
        reveal_strlit("tlc_fee_proportional_millionths");
        reveal_strlit("tlc_expiry_delta");
        assert forall|j: int| 0 <= j < 8 && j != 6 implies step_key(#[trigger] steps[j]) != Some("tlc_fee_proportional_millionths"@) by {
            if j == 0 {
                assert("tlc_fee_proportional_millionths"@.len() != "temporary_channel_id"@.len());
            }
            if j == 1 {
                assert("tlc_fee_proportional_millionths"@.len() != "funding_amount"@.len());
            }
            if j == 2 {
                assert("tlc_fee_proportional_millionths"@.len() != "shutdown_script"@.len());
            }
            if j == 3 {
                assert("tlc_fee_proportional_millionths"@.len() != "max_tlc_value_in_flight"@.len());
            }
            if j == 4 {
                assert("tlc_fee_proportional_millionths"@.len() != "max_tlc_number_in_flight"@.len());
            }
            if j == 5 {
                assert("tlc_fee_proportional_millionths"@.len() != "tlc_min_value"@.len());
            }
            if j == 7 {
                assert("tlc_fee_proportional_millionths"@.len() != "tlc_expiry_delta"@.len());
            }
        }
        lemma_named_field_unique(steps, 6, "tlc_fee_proportional_millionths"@);
    }
    lemma_run_steps_field(steps, "tlc_expiry_delta"@);
    lemma_named_field(steps, "tlc_expiry_delta"@);
    assert(named_field(steps, "tlc_expiry_delta"@) == given_u64_hex(o.has_tlc_expiry_delta, o.tlc_expiry_delta)) by {
        reveal_strlit("temporary_channel_id");
        reveal_strlit("funding_amount");
        reveal_strlit("shutdown_script");
        reveal_strlit("max_tlc_value_in_flight");
        reveal_strlit("max_tlc_number_in_flight");
        reveal_strlit("tlc_min_value");
        reveal_strlit("tlc_fee_proportional_millionths");
        reveal_strlit("tlc_expiry_delta");
        assert forall|j: int| 0 <= j < 8 && j != 7 implies step_key(#[trigger] steps[j]) != Some("tlc_expiry_delta"@) by {
            if j == 0 {
                assert("tlc_expiry_delta"@.len() != "temporary_channel_id"@.len());
            }
            if j == 1 {
                assert("tlc_expiry_delta"@.len() != "funding_amount"@.len());
            }
            if j == 2 {
                assert("tlc_expiry_delta"@.len() != "shutdown_script"@.len());
            }
            if j == 3 {
                assert("tlc_expiry_delta"@.len() != "max_tlc_value_in_flight"@.len());
            }
            if j == 4 {
                assert("tlc_expiry_delta"@.len() != "max_tlc_number_in_flight"@.len());
            }
            if j == 5 {
                assert("tlc_expiry_delta"@.len() != "tlc_min_value"@.len());
            }
            if j == 6 {
                assert("tlc_expiry_delta"@.len() != "tlc_fee_proportional_millionths"@.len());
            }
        }
        lemma_named_field_unique(steps, 7, "tlc_expiry_delta"@);
    }
}

/// A `open_channel_with_external_funding` request carries each given option under its own name: a required text or JSON option as given, an optional one only when given and not empty, a flag as whether its value is non-zero, and a quantity as `0x` and its hexadecimal digits, each only when its `has_` flag is set.
pub proof fn lemma_open_channel_with_external_funding_fields(o: OpenChannelWithExternalFundingOptions)
    ensures
        run_steps(open_channel_with_external_funding_steps(o)) matches Ok(fields) ==> {
            &&& field_of(fields, "pubkey"@) == Some(ParamView::Text(o.pubkey->Text_0@))
            &&& field_of(fields, "funding_amount"@) == Some(ParamView::Text(hex_quantity(u128_value(o.funding_amount))))
            &&& field_of(fields, "public"@) == given_flag(o.has_public, o.public_)
            &&& field_of(fields, "funding_udt_type_script"@) == given_json(o.funding_udt_type_script_json)
            &&& field_of(fields, "shutdown_script"@) == Some(ParamView::Json(o.shutdown_script_json->Text_0@))
            &&& field_of(fields, "funding_lock_script"@) == Some(ParamView::Json(o.funding_lock_script_json->Text_0@))
            &&& field_of(fields, "funding_lock_script_cell_deps"@) == given_json(o.funding_lock_script_cell_deps_json)
            &&& field_of(fields, "commitment_delay_epoch"@) == given_number(o.has_commitment_delay_epoch, o.commitment_delay_epoch)
            &&& field_of(fields, "commitment_fee_rate"@) == given_u64_hex(o.has_commitment_fee_rate, o.commitment_fee_rate)
            &&& field_of(fields, "funding_fee_rate"@) == given_u64_hex(o.has_funding_fee_rate, o.funding_fee_rate)
            &&& field_of(fields, "tlc_expiry_delta"@) == given_u64_hex(o.has_tlc_expiry_delta, o.tlc_expiry_delta)
            &&& field_of(fields, "tlc_min_value"@) == given_u128_hex(o.has_tlc_min_value, o.tlc_min_value)
            &&& field_of(fields, "tlc_fee_proportional_millionths"@) == given_u128_hex(o.has_tlc_fee_proportional_millionths, o.tlc_fee_proportional_millionths)
            &&& field_of(fields, "max_tlc_value_in_flight"@) == given_u128_hex(o.has_max_tlc_value_in_flight, o.max_tlc_value_in_flight)
            &&& field_of(fields, "max_tlc_number_in_flight"@) == given_u64_hex(o.has_max_tlc_number_in_flight, o.max_tlc_number_in_flight)
        },
{
    let steps = open_channel_with_external_funding_steps(o);
    lemma_run_steps_ok(steps);
    lemma_run_steps_field(steps, "pubkey"@);
    lemma_named_field(steps, "pubkey"@);
    assert(run_steps(steps) is Ok ==> named_field(steps, "pubkey"@) == Some(ParamView::Text(o.pubkey->Text_0@))) by {
        reveal_strlit("pubkey");
        reveal_strlit("funding_amount");
        reveal_strlit("public");
        reveal_strlit("funding_udt_type_script");
        reveal_strlit("shutdown_script");
        reveal_strlit("funding_lock_script");
        reveal_strlit("funding_lock_script_cell_deps");
        reveal_strlit("commitment_delay_epoch");
        reveal_strlit("commitment_fee_rate");
        reveal_strlit("funding_fee_rate");
        reveal_strlit("tlc_expiry_delta");
        reveal_strlit("tlc_min_value");
        reveal_strlit("tlc_fee_proportional_millionths");
        reveal_strlit("max_tlc_value_in_flight");
        reveal_strlit("max_tlc_number_in_flight");
        assert forall|j: int| 0 <= j < 15 && j != 0 implies step_key(#[trigger] steps[j]) != Some("pubkey"@) by {
            if j == 1 {
                assert("pubkey"@.len() != "funding_amount"@.len());
            }
            if j == 2 {
                assert("pubkey"@[3] == 'k' && "public"@[3] == 'l');
            }
            if j == 3 {
                assert("pubkey"@.len() != "funding_udt_type_script"@.len());
            }
            if j == 4 {
                assert("pubkey"@.len() != "shutdown_script"@.len());
            }
            if j == 5 {
                assert("pubkey"@.len() != "funding_lock_script"@.len());
            }
            if j == 6 {
                assert("pubkey"@.len() != "funding_lock_script_cell_deps"@.len());
            }
            if j == 7 {
                assert("pubkey"@.len() != "commitment_delay_epoch"@.len());
            }
            if j == 8 {
                assert("pubkey"@.len() != "commitment_fee_rate"@.len());
            }
            if j == 9 {
                assert("pubkey"@.len() != "funding_fee_rate"@.len());
            }
            if j == 10 {
                assert("pubkey"@.len() != "tlc_expiry_delta"@.len());
            }
            if j == 11 {
                assert("pubkey"@.len() != "tlc_min_value"@.len());
            }
            if j == 12 {
                assert("pubkey"@.len() != "tlc_fee_proportional_millionths"@.len());
            }
            if j == 13 {
                assert("pubkey"@.len() != "max_tlc_value_in_flight"@.len());
            }
            if j == 14 {
                assert("pubkey"@.len() != "max_tlc_number_in_flight"@.len());
            }
        }
        if run_steps(steps) is Ok {
            assert(step_outcome(steps[0]) is Ok);
            lemma_named_field_unique(steps, 0, "pubkey"@);
        }
    }
    lemma_run_steps_field(steps, "funding_amount"@);
    lemma_named_field(steps, "funding_amount"@);
    assert(named_field(steps, "funding_amount"@) == Some(ParamView::Text(hex_quantity(u128_value(o.funding_amount))))) by {
        reveal_strlit("pubkey");
        reveal_strlit("funding_amount");
        reveal_strlit("public");
        reveal_strlit("funding_udt_type_script");
        reveal_strlit("shutdown_script");
        reveal_strlit("funding_lock_script");
        reveal_strlit("funding_lock_script_cell_deps");
        reveal_strlit("commitment_delay_epoch");
        reveal_strlit("commitment_fee_rate");
        reveal_strlit("funding_fee_rate");
        reveal_strlit("tlc_expiry_delta");
        reveal_strlit("tlc_min_value");
        reveal_strlit("tlc_fee_proportional_millionths");
        reveal_strlit("max_tlc_value_in_flight");
        reveal_strlit("max_tlc_number_in_flight");
        assert forall|j: int| 0 <= j < 15 && j != 1 implies step_key(#[trigger] steps[j]) != Some("funding_amount"@) by {
            if j == 0 {
                assert("funding_amount"@.len() != "pubkey"@.len());
            }
            if j == 2 {
                assert("funding_amount"@.len() != "public"@.len());
            }
            if j == 3 {
                assert("funding_amount"@.len() != "funding_udt_type_script"@.len());
            }
            if j == 4 {
                assert("funding_amount"@.len() != "shutdown_script"@.len());
            }
            if j == 5 {
                assert("funding_amount"@.len() != "funding_lock_script"@.len());
            }
            if j == 6 {
                assert("funding_amount"@.len() != "funding_lock_script_cell_deps"@.len());
            }
            if j == 7 {
                assert("funding_amount"@.len() != "commitment_delay_epoch"@.len());
            }
            if j == 8 {
                assert("funding_amount"@.len() != "commitment_fee_rate"@.len());
            }
            if j == 9 {
                assert("funding_amount"@.len() != "funding_fee_rate"@.len());
            }
            if j == 10 {
                assert("funding_amount"@.len() != "tlc_expiry_delta"@.len());
            }
            if j == 11 {
                assert("funding_amount"@.len() != "tlc_min_value"@.len());
            }
            if j == 12 {
                assert("funding_amount"@.len() != "tlc_fee_proportional_millionths"@.len());
            }
            if j == 13 {
                assert("funding_amount"@.len() != "max_tlc_value_in_flight"@.len());
            }
            if j == 14 {
                assert("funding_amount"@.len() != "max_tlc_number_in_flight"@.len());
            }
        }
        lemma_named_field_unique(steps, 1, "funding_amount"@);
    }
    lemma_run_steps_field(steps, "public"@);
    lemma_named_field(steps, "public"@);
    assert(named_field(steps, "public"@) == given_flag(o.has_public, o.public_)) by {
        reveal_strlit("pubkey");
        reveal_strlit("funding_amount");
        reveal_strlit("public");
        reveal_strlit("funding_udt_type_script");
        reveal_strlit("shutdown_script");
        reveal_strlit("funding_lock_script");
        reveal_strlit("funding_lock_script_cell_deps");
        reveal_strlit("commitment_delay_epoch");
        reveal_strlit("commitment_fee_rate");
        reveal_strlit("funding_fee_rate");
        reveal_strlit("tlc_expiry_delta");
        reveal_strlit("tlc_min_value");
        reveal_strlit("tlc_fee_proportional_millionths");
        reveal_strlit("max_tlc_value_in_flight");
        reveal_strlit("max_tlc_number_in_flight");
        assert forall|j: int| 0 <= j < 15 && j != 2 implies step_key(#[trigger] steps[j]) != Some("public"@) by {
            if j == 0 {
                assert("public"@[3] == 'l' && "pubkey"@[3] == 'k');
            }
            if j == 1 {
                assert("public"@.len() != "funding_amount"@.len());
            }
            if j == 3 {
                assert("public"@.len() != "funding_udt_type_script"@.len());
            }
            if j == 4 {
                assert("public"@.len() != "shutdown_script"@.len());
            }
            if j == 5 {
                assert("public"@.len() != "funding_lock_script"@.len());
            }
            if j == 6 {
                assert("public"@.len() != "funding_lock_script_cell_deps"@.len());
            }
            if j == 7 {
                assert("public"@.len() != "commitment_delay_epoch"@.len());
            }
            if j == 8 {
                assert("public"@.len() != "commitment_fee_rate"@.len());
            }
            if j == 9 {
                assert("public"@.len() != "funding_fee_rate"@.len());
            }
            if j == 10 {
                assert("public"@.len() != "tlc_expiry_delta"@.len());
            }
            if j == 11 {
                assert("public"@.len() != "tlc_min_value"@.len());
            }
            if j == 12 {
                assert("public"@.len() != "tlc_fee_proportional_millionths"@.len());
            }
            if j == 13 {
                assert("public"@.len() != "max_tlc_value_in_flight"@.len());
            }
            if j == 14 {
                assert("public"@.len() != "max_tlc_number_in_flight"@.len());
            }
        }
        lemma_named_field_unique(steps, 2, "public"@);
    }
    lemma_run_steps_field(steps, "funding_udt_type_script"@);
    lemma_named_field(steps, "funding_udt_type_script"@);
    assert(run_steps(steps) is Ok ==> named_field(steps, "funding_udt_type_script"@) == given_json(o.funding_udt_type_script_json)) by {
        reveal_strlit("pubkey");
        reveal_strlit("funding_amount");
        reveal_strlit("public");
        reveal_strlit("funding_udt_type_script");
        reveal_strlit("shutdown_script");
        reveal_strlit("funding_lock_script");
        reveal_strlit("funding_lock_script_cell_deps");
        reveal_strlit("commitment_delay_epoch");
        reveal_strlit("commitment_fee_rate");
        reveal_strlit("funding_fee_rate");
        reveal_strlit("tlc_expiry_delta");
        reveal_strlit("tlc_min_value");
        reveal_strlit("tlc_fee_proportional_millionths");
        reveal_strlit("max_tlc_value_in_flight");
        reveal_strlit("max_tlc_number_in_flight");
        assert forall|j: int| 0 <= j < 15 && j != 3 implies step_key(#[trigger] steps[j]) != Some("funding_udt_type_script"@) by {
            if j == 0 {
                assert("funding_udt_type_script"@.len() != "pubkey"@.len());
            }
            if j == 1 {
                assert("funding_udt_type_script"@.len() != "funding_amount"@.len());
            }
            if j == 2 {
                assert("funding_udt_type_script"@.len() != "public"@.len());
            }
            if j == 4 {
                assert("funding_udt_type_script"@.len() != "shutdown_script"@.len());
            }
            if j == 5 {
                assert("funding_udt_type_script"@.len() != "funding_lock_script"@.len());
            }
            if j == 6 {
                assert("funding_udt_type_script"@.len() != "funding_lock_script_cell_deps"@.len());
            }
            if j == 7 {
                assert("funding_udt_type_script"@.len() != "commitment_delay_epoch"@.len());
            }
            if j == 8 {
                assert("funding_udt_type_script"@.len() != "commitment_fee_rate"@.len());
            }
            if j == 9 {
                assert("funding_udt_type_script"@.len() != "funding_fee_rate"@.len());
            }
            if j == 10 {
                assert("funding_udt_type_script"@.len() != "tlc_expiry_delta"@.len());
            }
            if j == 11 {
                assert("funding_udt_type_script"@.len() != "tlc_min_value"@.len());
            }
            if j == 12 {
                assert("funding_udt_type_script"@.len() != "tlc_fee_proportional_millionths"@.len());
            }
            if j == 13 {
                assert("funding_udt_type_script"@[0] == 'f' && "max_tlc_value_in_flight"@[0] == 'm');
            }
            if j == 14 {
                assert("funding_udt_type_script"@.len() != "max_tlc_number_in_flight"@.len());
            }
        }
        if run_steps(steps) is Ok {
            assert(step_outcome(steps[3]) is Ok);
            lemma_named_field_unique(steps, 3, "funding_udt_type_script"@);
        }
    }
    lemma_run_steps_field(steps, "shutdown_script"@);
    lemma_named_field(steps, "shutdown_script"@);
    assert(run_steps(steps) is Ok ==> named_field(steps, "shutdown_script"@) == Some(ParamView::Json(o.shutdown_script_json->Text_0@))) by {
        reveal_strlit("pubkey");
        reveal_strlit("funding_amount");
        reveal_strlit("public");
        reveal_strlit("funding_udt_type_script");
        reveal_strlit("shutdown_script");
        reveal_strlit("funding_lock_script");
        reveal_strlit("funding_lock_script_cell_deps");
        reveal_strlit("commitment_delay_epoch");
        reveal_strlit("commitment_fee_rate");
        reveal_strlit("funding_fee_rate");
        reveal_strlit("tlc_expiry_delta");
        reveal_strlit("tlc_min_value");
        reveal_strlit("tlc_fee_proportional_millionths");
        reveal_strlit("max_tlc_value_in_flight");
        reveal_strlit("max_tlc_number_in_flight");
        assert forall|j: int| 0 <= j < 15 && j != 4 implies step_key(#[trigger] steps[j]) != Some("shutdown_script"@) by {
            if j == 0 {
                assert("shutdown_script"@.len() != "pubkey"@.len());
            }
            if j == 1 {
                assert("shutdown_script"@.len() != "funding_amount"@.len());
            }
            if j == 2 {
                assert("shutdown_script"@.len() != "public"@.len());
            }
            if j == 3 {
                assert("shutdown_script"@.len() != "funding_udt_type_script"@.len());
            }
            if j == 5 {
                assert("shutdown_script"@.len() != "funding_lock_script"@.len());
            }
            if j == 6 {
                assert("shutdown_script"@.len() != "funding_lock_script_cell_deps"@.len());
            }
            if j == 7 {
                assert("shutdown_script"@.len() != "commitment_delay_epoch"@.len());
            }
            if j == 8 {
                assert("shutdown_script"@.len() != "commitment_fee_rate"@.len());
            }
            if j == 9 {
                assert("shutdown_script"@.len() != "funding_fee_rate"@.len());
            }
            if j == 10 {
                assert("shutdown_script"@.len() != "tlc_expiry_delta"@.len());
            }
            if j == 11 {
                assert("shutdown_script"@.len() != "tlc_min_value"@.len());
            }
            if j == 12 {
                assert("shutdown_script"@.len() != "tlc_fee_proportional_millionths"@.len());
            }
            if j == 13 {
                assert("shutdown_script"@.len() != "max_tlc_value_in_flight"@.len());
            }
            if j == 14 {
                assert("shutdown_script"@.len() != "max_tlc_number_in_flight"@.len());
            }
        }
        if run_steps(steps) is Ok {
            assert(step_outcome(steps[4]) is Ok);
            lemma_named_field_unique(steps, 4, "shutdown_script"@);
        }
    }
    lemma_run_steps_field(steps, "funding_lock_script"@);
    lemma_named_field(steps, "funding_lock_script"@);
    assert(run_steps(steps) is Ok ==> named_field(steps, "funding_lock_script"@) == Some(ParamView::Json(o.funding_lock_script_json->Text_0@))) by {
        reveal_strlit("pubkey");
        reveal_strlit("funding_amount");
        reveal_strlit("public");
        reveal_strlit("funding_udt_type_script");
        reveal_strlit("shutdown_script");
        reveal_strlit("funding_lock_script");
        reveal_strlit("funding_lock_script_cell_deps");
        reveal_strlit("commitment_delay_epoch");
        reveal_strlit("commitment_fee_rate");
        reveal_strlit("funding_fee_rate");
        reveal_strlit("tlc_expiry_delta");
        reveal_strlit("tlc_min_value");
        reveal_strlit("tlc_fee_proportional_millionths");
        reveal_strlit("max_tlc_value_in_flight");
        reveal_strlit("max_tlc_number_in_flight");
        assert forall|j: int| 0 <= j < 15 && j != 5 implies step_key(#[trigger] steps[j]) != Some("funding_lock_script"@) by {
            if j == 0 {
                assert("funding_lock_script"@.len() != "pubkey"@.len());
            }
            if j == 1 {
                assert("funding_lock_script"@.len() != "funding_amount"@.len());
            }
            if j == 2 {
                assert("funding_lock_script"@.len() != "public"@.len());
            }
            if j == 3 {
                assert("funding_lock_script"@.len() != "funding_udt_type_script"@.len());
            }
            if j == 4 {
                assert("funding_lock_script"@.len() != "shutdown_script"@.len());
            }
            if j == 6 {
                assert("funding_lock_script"@.len() != "funding_lock_script_cell_deps"@.len());
            }
            if j == 7 {
                assert("funding_lock_script"@.len() != "commitment_delay_epoch"@.len());
            }
            if j == 8 {
                assert("funding_lock_script"@[0] == 'f' && "commitment_fee_rate"@[0] == 'c');
            }
            if j == 9 {
                assert("funding_lock_script"@.len() != "funding_fee_rate"@.len());
            }
            if j == 10 {
                assert("funding_lock_script"@.len() != "tlc_expiry_delta"@.len());
            }
            if j == 11 {
                assert("funding_lock_script"@.len() != "tlc_min_value"@.len());
            }
            if j == 12 {
                assert("funding_lock_script"@.len() != "tlc_fee_proportional_millionths"@.len());
            }
            if j == 13 {
                assert("funding_lock_script"@.len() != "max_tlc_value_in_flight"@.len());
            }
            if j == 14 {
                assert("funding_lock_script"@.len() != "max_tlc_number_in_flight"@.len());
            }
        }
        if run_steps(steps) is Ok {
            assert(step_outcome(steps[5]) is Ok);
            lemma_named_field_unique(steps, 5, "funding_lock_script"@);
        }
    }
    lemma_run_steps_field(steps, "funding_lock_script_cell_deps"@);
    lemma_named_field(steps, "funding_lock_script_cell_deps"@);
    assert(run_steps(steps) is Ok ==> named_field(steps, "funding_lock_script_cell_deps"@) == given_json(o.funding_lock_script_cell_deps_json)) by {
        reveal_strlit("pubkey");
        reveal_strlit("funding_amount");
        reveal_strlit("public");
        reveal_strlit("funding_udt_type_script");
        reveal_strlit("shutdown_script");
        reveal_strlit("funding_lock_script");
        reveal_strlit("funding_lock_script_cell_deps");
        reveal_strlit("commitment_delay_epoch");
        reveal_strlit("commitment_fee_rate");
        reveal_strlit("funding_fee_rate");
        reveal_strlit("tlc_expiry_delta");
        reveal_strlit("tlc_min_value");
        reveal_strlit("tlc_fee_proportional_millionths");
        reveal_strlit("max_tlc_value_in_flight");
        reveal_strlit("max_tlc_number_in_flight");
        assert forall|j: int| 0 <= j < 15 && j != 6 implies step_key(#[trigger] steps[j]) != Some("funding_lock_script_cell_deps"@) by {
            if j == 0 {
                assert("funding_lock_script_cell_deps"@.len() != "pubkey"@.len());
            }
            if j == 1 {
                assert("funding_lock_script_cell_deps"@.len() != "funding_amount"@.len());
            }
            if j == 2 {
                assert("funding_lock_script_cell_deps"@.len() != "public"@.len());
            }
            if j == 3 {
                assert("funding_lock_script_cell_deps"@.len() != "funding_udt_type_script"@.len());
            }
            if j == 4 {
                assert("funding_lock_script_cell_deps"@.len() != "shutdown_script"@.len());
            }
            if j == 5 {
                assert("funding_lock_script_cell_deps"@.len() != "funding_lock_script"@.len());
            }
            if j == 7 {
                assert("funding_lock_script_cell_deps"@.len() != "commitment_delay_epoch"@.len());
            }
            if j == 8 {
                assert("funding_lock_script_cell_deps"@.len() != "commitment_fee_rate"@.len());
            }
            if j == 9 {
                assert("funding_lock_script_cell_deps"@.len() != "funding_fee_rate"@.len());
            }
            if j == 10 {
                assert("funding_lock_script_cell_deps"@.len() != "tlc_expiry_delta"@.len());
            }
            if j == 11 {
                assert("funding_lock_script_cell_deps"@.len() != "tlc_min_value"@.len());
            }
            if j == 12 {
                assert("funding_lock_script_cell_deps"@.len() != "tlc_fee_proportional_millionths"@.len());
            }
            if j == 13 {
                assert("funding_lock_script_cell_deps"@.len() != "max_tlc_value_in_flight"@.len());
            }
            if j == 14 {
                assert("funding_lock_script_cell_deps"@.len() != "max_tlc_number_in_flight"@.len());
            }
        }
        if run_steps(steps) is Ok {
            assert(step_outcome(steps[6]) is Ok);
            lemma_named_field_unique(steps, 6, "funding_lock_script_cell_deps"@);
        }
    }
    lemma_run_steps_field(steps, "commitment_delay_epoch"@);
    lemma_named_field(steps, "commitment_delay_epoch"@);
    assert(named_field(steps, "commitment_delay_epoch"@) == given_number(o.has_commitment_delay_epoch, o.commitment_delay_epoch)) by {
        reveal_strlit("pubkey");
        reveal_strlit("funding_amount");
        reveal_strlit("public");
        reveal_strlit("funding_udt_type_script");
        reveal_strlit("shutdown_script");
        reveal_strlit("funding_lock_script");
        reveal_strlit("funding_lock_script_cell_deps");
        reveal_strlit("commitment_delay_epoch");
        reveal_strlit("commitment_fee_rate");
        reveal_strlit("funding_fee_rate");
        reveal_strlit("tlc_expiry_delta");
        reveal_strlit("tlc_min_value");
        reveal_strlit("tlc_fee_proportional_millionths");
        reveal_strlit("max_tlc_value_in_flight");
        reveal_strlit("max_tlc_number_in_flight");
        assert forall|j: int| 0 <= j < 15 && j != 7 implies step_key(#[trigger] steps[j]) != Some("commitment_delay_epoch"@) by {
            if j == 0 {
                assert("commitment_delay_epoch"@.len() != "pubkey"@.len());
            }
            if j == 1 {
                assert("commitment_delay_epoch"@.len() != "funding_amount"@.len());
            }
            if j == 2 {
                assert("commitment_delay_epoch"@.len() != "public"@.len());
            }
            if j == 3 {
                assert("commitment_delay_epoch"@.len() != "funding_udt_type_script"@.len());
            }
            if j == 4 {
                assert("commitment_delay_epoch"@.len() != "shutdown_script"@.len());
            }
            if j == 5 {
                assert("commitment_delay_epoch"@.len() != "funding_lock_script"@.len());
            }
            if j == 6 {
                assert("commitment_delay_epoch"@.len() != "funding_lock_script_cell_deps"@.len());
            }
            if j == 8 {
                assert("commitment_delay_epoch"@.len() != "commitment_fee_rate"@.len());
            }
            if j == 9 {
                assert("commitment_delay_epoch"@.len() != "funding_fee_rate"@.len());
            }
            if j == 10 {
                assert("commitment_delay_epoch"@.len() != "tlc_expiry_delta"@.len());
            }
            if j == 11 {
                assert("commitment_delay_epoch"@.len() != "tlc_min_value"@.len());
            }
            if j == 12 {
                assert("commitment_delay_epoch"@.len() != "tlc_fee_proportional_millionths"@.len());
            }
            if j == 13 {
                assert("commitment_delay_epoch"@.len() != "max_tlc_value_in_flight"@.len());
            }
            if j == 14 {
                assert("commitment_delay_epoch"@.len() != "max_tlc_number_in_flight"@.len());
            }
        }
        lemma_named_field_unique(steps, 7, "commitment_delay_epoch"@);
    }
    lemma_run_steps_field(steps, "commitment_fee_rate"@);
    lemma_named_field(steps, "commitment_fee_rate"@);
    assert(named_field(steps, "commitment_fee_rate"@) == given_u64_hex(o.has_commitment_fee_rate, o.commitment_fee_rate)) by {
        reveal_strlit("pubkey");
        reveal_strlit("funding_amount");
        reveal_strlit("public");
        reveal_strlit("funding_udt_type_script");
        reveal_strlit("shutdown_script");
        reveal_strlit("funding_lock_script");
        reveal_strlit("funding_lock_script_cell_deps");
        reveal_strlit("commitment_delay_epoch");
        reveal_strlit("commitment_fee_rate");
        reveal_strlit("funding_fee_rate");
        reveal_strlit("tlc_expiry_delta");
        reveal_strlit("tlc_min_value");
        reveal_strlit("tlc_fee_proportional_millionths");
        reveal_strlit("max_tlc_value_in_flight");
        reveal_strlit("max_tlc_number_in_flight");
        assert forall|j: int| 0 <= j < 15 && j != 8 implies step_key(#[trigger] steps[j]) != Some("commitment_fee_rate"@) by {
            if j == 0 {
                assert("commitment_fee_rate"@.len() != "pubkey"@.len());
            }
            if j == 1 {
                assert("commitment_fee_rate"@.len() != "funding_amount"@.len());
            }
            if j == 2 {
                assert("commitment_fee_rate"@.len() != "public"@.len());
            }
            if j == 3 {
                assert("commitment_fee_rate"@.len() != "funding_udt_type_script"@.len());
            }
            if j == 4 {
                assert("commitment_fee_rate"@.len() != "shutdown_script"@.len());
            }
            if j == 5 {
                assert("commitment_fee_rate"@[0] == 'c' && "funding_lock_script"@[0] == 'f');
            }
            if j == 6 {
                assert("commitment_fee_rate"@.len() != "funding_lock_script_cell_deps"@.len());
            }
            if j == 7 {
                assert("commitment_fee_rate"@.len() != "commitment_delay_epoch"@.len());
            }
            if j == 9 {
                assert("commitment_fee_rate"@.len() != "funding_fee_rate"@.len());
            }
            if j == 10 {
                assert("commitment_fee_rate"@.len() != "tlc_expiry_delta"@.len());
            }
            if j == 11 {
                assert("commitment_fee_rate"@.len() != "tlc_min_value"@.len());
            }
            if j == 12 {
                assert("commitment_fee_rate"@.len() != "tlc_fee_proportional_millionths"@.len());
            }
            if j == 13 {
                assert("commitment_fee_rate"@.len() != "max_tlc_value_in_flight"@.len());
            }
            if j == 14 {
                assert("commitment_fee_rate"@.len() != "max_tlc_number_in_flight"@.len());
            }
        }
        lemma_named_field_unique(steps, 8, "commitment_fee_rate"@);
    }
    lemma_run_steps_field(steps, "funding_fee_rate"@);
    lemma_named_field(steps, "funding_fee_rate"@);
    assert(named_field(steps, "funding_fee_rate"@) == given_u64_hex(o.has_funding_fee_rate, o.funding_fee_rate)) by {
        reveal_strlit("pubkey");
        reveal_strlit("funding_amount");
        reveal_strlit("public");
        reveal_strlit("funding_udt_type_script");
        reveal_strlit("shutdown_script");
        reveal_strlit("funding_lock_script");
        reveal_strlit("funding_lock_script_cell_deps");
        reveal_strlit("commitment_delay_epoch");
        reveal_strlit("commitment_fee_rate");
        reveal_strlit("funding_fee_rate");
        reveal_strlit("tlc_expiry_delta");
        reveal_strlit("tlc_min_value");
        reveal_strlit("tlc_fee_proportional_millionths");
        reveal_strlit("max_tlc_value_in_flight");
        reveal_strlit("max_tlc_number_in_flight");
        assert forall|j: int| 0 <= j < 15 && j != 9 implies step_key(#[trigger] steps[j]) != Some("funding_fee_rate"@) by {
            if j == 0 {
                assert("funding_fee_rate"@.len() != "pubkey"@.len());
            }
            if j == 1 {
                assert("funding_fee_rate"@.len() != "funding_amount"@.len());
            }
            if j == 2 {
                assert("funding_fee_rate"@.len() != "public"@.len());
            }
            if j == 3 {
                assert("funding_fee_rate"@.len() != "funding_udt_type_script"@.len());
            }
            if j == 4 {
                assert("funding_fee_rate"@.len() != "shutdown_script"@.len());
            }
            if j == 5 {
                assert("funding_fee_rate"@.len() != "funding_lock_script"@.len());
            }
            if j == 6 {
                assert("funding_fee_rate"@.len() != "funding_lock_script_cell_deps"@.len());
            }
            if j == 7 {
                assert("funding_fee_rate"@.len() != "commitment_delay_epoch"@.len());
            }
            if j == 8 {
                assert("funding_fee_rate"@.len() != "commitment_fee_rate"@.len());
            }
            if j == 10 {
                assert("funding_fee_rate"@[0] == 'f' && "tlc_expiry_delta"@[0] == 't');
            }
            if j == 11 {
                assert("funding_fee_rate"@.len() != "tlc_min_value"@.len());
            }
            if j == 12 {
                assert("funding_fee_rate"@.len() != "tlc_fee_proportional_millionths"@.len());
            }
            if j == 13 {
                assert("funding_fee_rate"@.len() != "max_tlc_value_in_flight"@.len());
            }
            if j == 14 {
                assert("funding_fee_rate"@.len() != "max_tlc_number_in_flight"@.len());
            }
        }
        lemma_named_field_unique(steps, 9, "funding_fee_rate"@);
    }
    lemma_run_steps_field(steps, "tlc_expiry_delta"@);
    lemma_named_field(steps, "tlc_expiry_delta"@);
    assert(named_field(steps, "tlc_expiry_delta"@) == given_u64_hex(o.has_tlc_expiry_delta, o.tlc_expiry_delta)) by {
        reveal_strlit("pubkey");
        reveal_strlit("funding_amount");
        reveal_strlit("public");
        reveal_strlit("funding_udt_type_script");
        reveal_strlit("shutdown_script");
        reveal_strlit("funding_lock_script");
        reveal_strlit("funding_lock_script_cell_deps");
        reveal_strlit("commitment_delay_epoch");
        reveal_strlit("commitment_fee_rate");
        reveal_strlit("funding_fee_rate");
        reveal_strlit("tlc_expiry_delta");
        reveal_strlit("tlc_min_value");
        reveal_strlit("tlc_fee_proportional_millionths");
        reveal_strlit("max_tlc_value_in_flight");
        reveal_strlit("max_tlc_number_in_flight");
        assert forall|j: int| 0 <= j < 15 && j != 10 implies step_key(#[trigger] steps[j]) != Some("tlc_expiry_delta"@) by {
            if j == 0 {
                assert("tlc_expiry_delta"@.len() != "pubkey"@.len());
            }
            if j == 1 {
                assert("tlc_expiry_delta"@.len() != "funding_amount"@.len());
            }
            if j == 2 {
                assert("tlc_expiry_delta"@.len() != "public"@.len());
            }
            if j == 3 {
                assert("tlc_expiry_delta"@.len() != "funding_udt_type_script"@.len());
            }
            if j == 4 {
                assert("tlc_expiry_delta"@.len() != "shutdown_script"@.len());
            }
            if j == 5 {
                assert("tlc_expiry_delta"@.len() != "funding_lock_script"@.len());
            }
            if j == 6 {
                assert("tlc_expiry_delta"@.len() != "funding_lock_script_cell_deps"@.len());
            }
            if j == 7 {
                assert("tlc_expiry_delta"@.len() != "commitment_delay_epoch"@.len());
            }
            if j == 8 {
                assert("tlc_expiry_delta"@.len() != "commitment_fee_rate"@.len());
            }
            if j == 9 {
                assert("tlc_expiry_delta"@[0] == 't' && "funding_fee_rate"@[0] == 'f');
            }
            if j == 11 {
                assert("tlc_expiry_delta"@.len() != "tlc_min_value"@.len());
            }
            if j == 12 {
                assert("tlc_expiry_delta"@.len() != "tlc_fee_proportional_millionths"@.len());
            }
            if j == 13 {
                assert("tlc_expiry_delta"@.len() != "max_tlc_value_in_flight"@.len());
            }
            if j == 14 {
                assert("tlc_expiry_delta"@.len() != "max_tlc_number_in_flight"@.len());
            }
        }
        lemma_named_field_unique(steps, 10, "tlc_expiry_delta"@);
    }
    lemma_run_steps_field(steps, "tlc_min_value"@);
    lemma_named_field(steps, "tlc_min_value"@);
    assert(named_field(steps, "tlc_min_value"@) == given_u128_hex(o.has_tlc_min_value, o.tlc_min_value)) by {
        reveal_strlit("pubkey");
        reveal_strlit("funding_amount");
        reveal_strlit("public");
        reveal_strlit("funding_udt_type_script");
        reveal_strlit("shutdown_script");
        reveal_strlit("funding_lock_script");
        reveal_strlit("funding_lock_script_cell_deps");
        reveal_strlit("commitment_delay_epoch");
        reveal_strlit("commitment_fee_rate");
        reveal_strlit("funding_fee_rate");
        reveal_strlit("tlc_expiry_delta");
        reveal_strlit("tlc_min_value");
        reveal_strlit("tlc_fee_proportional_millionths");
        reveal_strlit("max_tlc_value_in_flight");
        reveal_strlit("max_tlc_number_in_flight");
        assert forall|j: int| 0 <= j < 15 && j != 11 implies step_key(#[trigger] steps[j]) != Some("tlc_min_value"@) by {
            if j == 0 {
                assert("tlc_min_value"@.len() != "pubkey"@.len());
            }
            if j == 1 {
                assert("tlc_min_value"@.len() != "funding_amount"@.len());
            }
            if j == 2 {
                assert("tlc_min_value"@.len() != "public"@.len());
            }
            if j == 3 {
                assert("tlc_min_value"@.len() != "funding_udt_type_script"@.len());
            }
            if j == 4 {
                assert("tlc_min_value"@.len() != "shutdown_script"@.len());
            }
            if j == 5 {
                assert("tlc_min_value"@.len() != "funding_lock_script"@.len());
            }
            if j == 6 {
                assert("tlc_min_value"@.len() != "funding_lock_script_cell_deps"@.len());
            }
            if j == 7 {
                assert("tlc_min_value"@.len() != "commitment_delay_epoch"@.len());
            }
            if j == 8 {
                assert("tlc_min_value"@.len() != "commitment_fee_rate"@.len());
            }
            if j == 9 {
                assert("tlc_min_value"@.len() != "funding_fee_rate"@.len());
            }
            if j == 10 {
                assert("tlc_min_value"@.len() != "tlc_expiry_delta"@.len());
            }
            if j == 12 {
                assert("tlc_min_value"@.len() != "tlc_fee_proportional_millionths"@.len());
            }
            if j == 13 {
                assert("tlc_min_value"@.len() != "max_tlc_value_in_flight"@.len());
            }
            if j == 14 {
                assert("tlc_min_value"@.len() != "max_tlc_number_in_flight"@.len());
            }
        }
        lemma_named_field_unique(steps, 11, "tlc_min_value"@);
    }
    lemma_run_steps_field(steps, "tlc_fee_proportional_millionths"@);
    lemma_named_field(steps, "tlc_fee_proportional_millionths"@);
    assert(named_field(steps, "tlc_fee_proportional_millionths"@) == given_u128_hex(o.has_tlc_fee_proportional_millionths, o.tlc_fee_proportional_millionths)) by {
        reveal_strlit("pubkey");
        reveal_strlit("funding_amount");
        reveal_strlit("public");
        reveal_strlit("funding_udt_type_script");
        reveal_strlit("shutdown_script");
        reveal_strlit("funding_lock_script");
        reveal_strlit("funding_lock_script_cell_deps");
        reveal_strlit("commitment_delay_epoch");
        reveal_strlit("commitment_fee_rate");
        reveal_strlit("funding_fee_rate");
        reveal_strlit("tlc_expiry_delta");
        reveal_strlit("tlc_min_value");
        reveal_strlit("tlc_fee_proportional_millionths");
        reveal_strlit("max_tlc_value_in_flight");
        reveal_strlit("max_tlc_number_in_flight");
        assert forall|j: int| 0 <= j < 15 && j != 12 implies step_key(#[trigger] steps[j]) != Some("tlc_fee_proportional_millionths"@) by {
            if j == 0 {
                assert("tlc_fee_proportional_millionths"@.len() != "pubkey"@.len());
            }
            if j == 1 {
                assert("tlc_fee_proportional_millionths"@.len() != "funding_amount"@.len());
            }
            if j == 2 {
                assert("tlc_fee_proportional_millionths"@.len() != "public"@.len());
            }
            if j == 3 {
                assert("tlc_fee_proportional_millionths"@.len() != "funding_udt_type_script"@.len());
            }
            if j == 4 {
                assert("tlc_fee_proportional_millionths"@.len() != "shutdown_script"@.len());
            }
            if j == 5 {
                assert("tlc_fee_proportional_millionths"@.len() != "funding_lock_script"@.len());
            }
            if j == 6 {
                assert("tlc_fee_proportional_millionths"@.len() != "funding_lock_script_cell_deps"@.len());
            }
            if j == 7 {
                assert("tlc_fee_proportional_millionths"@.len() != "commitment_delay_epoch"@.len());
            }
            if j == 8 {
                assert("tlc_fee_proportional_millionths"@.len() != "commitment_fee_rate"@.len());
            }
            if j == 9 {
                assert("tlc_fee_proportional_millionths"@.len() != "funding_fee_rate"@.len());
            }
            if j == 10 {
                assert("tlc_fee_proportional_millionths"@.len() != "tlc_expiry_delta"@.len());
            }
            if j == 11 {
                assert("tlc_fee_proportional_millionths"@.len() != "tlc_min_value"@.len());
            }
            if j == 13 {
                assert("tlc_fee_proportional_millionths"@.len() != "max_tlc_value_in_flight"@.len());
            }
            if j == 14 {
                assert("tlc_fee_proportional_millionths"@.len() != "max_tlc_number_in_flight"@.len());
            }
        }
        lemma_named_field_unique(steps, 12, "tlc_fee_proportional_millionths"@);
    }
    lemma_run_steps_field(steps, "max_tlc_value_in_flight"@);
    lemma_named_field(steps, "max_tlc_value_in_flight"@);
    assert(named_field(steps, "max_tlc_value_in_flight"@) == given_u128_hex(o.has_max_tlc_value_in_flight, o.max_tlc_value_in_flight)) by {
        reveal_strlit("pubkey");
        reveal_strlit("funding_amount");
        reveal_strlit("public");
        reveal_strlit("funding_udt_type_script");
        reveal_strlit("shutdown_script");
        reveal_strlit("funding_lock_script");
        reveal_strlit("funding_lock_script_cell_deps");
        reveal_strlit("commitment_delay_epoch");
        reveal_strlit("commitment_fee_rate");
        reveal_strlit("funding_fee_rate");
        reveal_strlit("tlc_expiry_delta");
        reveal_strlit("tlc_min_value");
        reveal_strlit("tlc_fee_proportional_millionths");
        reveal_strlit("max_tlc_value_in_flight");
        reveal_strlit("max_tlc_number_in_flight");
        assert forall|j: int| 0 <= j < 15 && j != 13 implies step_key(#[trigger] steps[j]) != Some("max_tlc_value_in_flight"@) by {
            if j == 0 {
                assert("max_tlc_value_in_flight"@.len() != "pubkey"@.len());
            }
            if j == 1 {
                assert("max_tlc_value_in_flight"@.len() != "funding_amount"@.len());
            }
            if j == 2 {
                assert("max_tlc_value_in_flight"@.len() != "public"@.len());
            }
            if j == 3 {
                assert("max_tlc_value_in_flight"@[0] == 'm' && "funding_udt_type_script"@[0] == 'f');
            }
            if j == 4 {
                assert("max_tlc_value_in_flight"@.len() != "shutdown_script"@.len());
            }
            if j == 5 {
                assert("max_tlc_value_in_flight"@.len() != "funding_lock_script"@.len());
            }
            if j == 6 {
                assert("max_tlc_value_in_flight"@.len() != "funding_lock_script_cell_deps"@.len());
            }
            if j == 7 {
                assert("max_tlc_value_in_flight"@.len() != "commitment_delay_epoch"@.len());
            }
            if j == 8 {
                assert("max_tlc_value_in_flight"@.len() != "commitment_fee_rate"@.len());
            }
            if j == 9 {
                assert("max_tlc_value_in_flight"@.len() != "funding_fee_rate"@.len());
            }
            if j == 10 {
                assert("max_tlc_value_in_flight"@.len() != "tlc_expiry_delta"@.len());
            }
            if j == 11 {
                assert("max_tlc_value_in_flight"@.len() != "tlc_min_value"@.len());
            }
            if j == 12 {
                assert("max_tlc_value_in_flight"@.len() != "tlc_fee_proportional_millionths"@.len());
            }
            if j == 14 {
                assert("max_tlc_value_in_flight"@.len() != "max_tlc_number_in_flight"@.len());
            }
        }
        lemma_named_field_unique(steps, 13, "max_tlc_value_in_flight"@);
    }
    lemma_run_steps_field(steps, "max_tlc_number_in_flight"@);
    lemma_named_field(steps, "max_tlc_number_in_flight"@);
    assert(named_field(steps, "max_tlc_number_in_flight"@) == given_u64_hex(o.has_max_tlc_number_in_flight, o.max_tlc_number_in_flight)) by {
        reveal_strlit("pubkey");
        reveal_strlit("funding_amount");
        reveal_strlit("public");
        reveal_strlit("funding_udt_type_script");
        reveal_strlit("shutdown_script");
        reveal_strlit("funding_lock_script");
        reveal_strlit("funding_lock_script_cell_deps");
        reveal_strlit("commitment_delay_epoch");
        reveal_strlit("commitment_fee_rate");
        reveal_strlit("funding_fee_rate");
        reveal_strlit("tlc_expiry_delta");
        reveal_strlit("tlc_min_value");
        reveal_strlit("tlc_fee_proportional_millionths");
        reveal_strlit("max_tlc_value_in_flight");
        reveal_strlit("max_tlc_number_in_flight");
        assert forall|j: int| 0 <= j < 15 && j != 14 implies step_key(#[trigger] steps[j]) != Some("max_tlc_number_in_flight"@) by {
            if j == 0 {
                assert("max_tlc_number_in_flight"@.len() != "pubkey"@.len());
            }
            if j == 1 {
                assert("max_tlc_number_in_flight"@.len() != "funding_amount"@.len());
            }
            if j == 2 {
                assert("max_tlc_number_in_flight"@.len() != "public"@.len());
            }
            if j == 3 {
                assert("max_tlc_number_in_flight"@.len() != "funding_udt_type_script"@.len());
            }
            if j == 4 {
                assert("max_tlc_number_in_flight"@.len() != "shutdown_script"@.len());
            }
            if j == 5 {
                assert("max_tlc_number_in_flight"@.len() != "funding_lock_script"@.len());
            }
            if j == 6 {
                assert("max_tlc_number_in_flight"@.len() != "funding_lock_script_cell_deps"@.len());
            }
            if j == 7 {
                assert("max_tlc_number_in_flight"@.len() != "commitment_delay_epoch"@.len());
            }
            if j == 8 {
                assert("max_tlc_number_in_flight"@.len() != "commitment_fee_rate"@.len());
            }
            if j == 9 {
                assert("max_tlc_number_in_flight"@.len() != "funding_fee_rate"@.len());
            }
            if j == 10 {
                assert("max_tlc_number_in_flight"@.len() != "tlc_expiry_delta"@.len());
            }
            if j == 11 {
                assert("max_tlc_number_in_flight"@.len() != "tlc_min_value"@.len());
            }
            if j == 12 {
                assert("max_tlc_number_in_flight"@.len() != "tlc_fee_proportional_millionths"@.len());
            }
            if j == 13 {
                assert("max_tlc_number_in_flight"@.len() != "max_tlc_value_in_flight"@.len());
            }
        }
        lemma_named_field_unique(steps, 14, "max_tlc_number_in_flight"@);
    }
}

/// A `submit_signed_funding_tx` request carries each given option under its own name: a required text or JSON option as given, an optional one only when given and not empty, a flag as whether its value is non-zero, and a quantity as `0x` and its hexadecimal digits, each only when its `has_` flag is set.
pub proof fn lemma_submit_signed_funding_tx_fields(o: SubmitSignedFundingTxOptions)
    ensures
        run_steps(submit_signed_funding_tx_steps(o)) matches Ok(fields) ==> {
            &&& field_of(fields, "channel_id"@) == Some(ParamView::Text(o.channel_id->Text_0@))
            &&& field_of(fields, "signed_funding_tx"@) == Some(ParamView::Json(o.signed_funding_tx_json->Text_0@))
        },
{
    let steps = submit_signed_funding_tx_steps(o);
    lemma_run_steps_ok(steps);
    lemma_run_steps_field(steps, "channel_id"@);
    lemma_named_field(steps, "channel_id"@);
    assert(run_steps(steps) is Ok ==> named_field(steps, "channel_id"@) == Some(ParamView::Text(o.channel_id->Text_0@))) by {
        reveal_strlit("channel_id");
        reveal_strlit("signed_funding_tx");
        assert forall|j: int| 0 <= j < 2 && j != 0 implies step_key(#[trigger] steps[j]) != Some("channel_id"@) by {
            if j == 1 {
                assert("channel_id"@.len() != "signed_funding_tx"@.len());
            }
        }
        if run_steps(steps) is Ok {
            assert(step_outcome(steps[0]) is Ok);
            lemma_named_field_unique(steps, 0, "channel_id"@);
        }
    }
    lemma_run_steps_field(steps, "signed_funding_tx"@);
    lemma_named_field(steps, "signed_funding_tx"@);
    assert(run_steps(steps) is Ok ==> named_field(steps, "signed_funding_tx"@) == Some(ParamView::Json(o.signed_funding_tx_json->Text_0@))) by {
        reveal_strlit("channel_id");
        reveal_strlit("signed_funding_tx");
        assert forall|j: int| 0 <= j < 2 && j != 1 implies step_key(#[trigger] steps[j]) != Some("signed_funding_tx"@) by {
            if j == 0 {
                assert("signed_funding_tx"@.len() != "channel_id"@.len());
            }
        }
        if run_steps(steps) is Ok {
            assert(step_outcome(steps[1]) is Ok);
            lemma_named_field_unique(steps, 1, "signed_funding_tx"@);
        }
    }
}

/// A `list_channels` request carries each given option under its own name: a required text or JSON option as given, an optional one only when given and not empty, a flag as whether its value is non-zero, and a quantity as `0x` and its hexadecimal digits, each only when its `has_` flag is set.
pub proof fn lemma_list_channels_fields(o: ListChannelsOptions)
    ensures
        run_steps(list_channels_steps(o)) matches Ok(fields) ==> {
            &&& field_of(fields, "pubkey"@) == given_text(o.pubkey)
            &&& field_of(fields, "include_closed"@) == given_flag(o.has_include_closed, o.include_closed)
            &&& field_of(fields, "only_pending"@) == given_flag(o.has_only_pending, o.only_pending)
        },
{
    let steps = list_channels_steps(o);
    lemma_run_steps_ok(steps);
    lemma_run_steps_field(steps, "pubkey"@);
    lemma_named_field(steps, "pubkey"@);
    assert(named_field(steps, "pubkey"@) == given_text(o.pubkey)) by {
        reveal_strlit("pubkey");
        reveal_strlit("include_closed");
        reveal_strlit("only_pending");
        assert forall|j: int| 0 <= j < 3 && j != 0 implies step_key(#[trigger] steps[j]) != Some("pubkey"@) by {
            if j == 1 {
                assert("pubkey"@.len() != "include_closed"@.len());
            }
            if j == 2 {
                assert("pubkey"@.len() != "only_pending"@.len());
            }
        }
        lemma_named_field_unique(steps, 0, "pubkey"@);
    }
    lemma_run_steps_field(steps, "include_closed"@);
    lemma_named_field(steps, "include_closed"@);
    assert(named_field(steps, "include_closed"@) == given_flag(o.has_include_closed, o.include_closed)) by {
        reveal_strlit("pubkey");
        reveal_strlit("include_closed");
        reveal_strlit("only_pending");
        assert forall|j: int| 0 <= j < 3 && j != 1 implies step_key(#[trigger] steps[j]) != Some("include_closed"@) by {
            if j == 0 {
                assert("include_closed"@.len() != "pubkey"@.len());
            }
            if j == 2 {
                assert("include_closed"@.len() != "only_pending"@.len());
            }
        }
        lemma_named_field_unique(steps, 1, "include_closed"@);
    }
    lemma_run_steps_field(steps, "only_pending"@);
    lemma_named_field(steps, "only_pending"@);
    assert(named_field(steps, "only_pending"@) == given_flag(o.has_only_pending, o.only_pending)) by {
        reveal_strlit("pubkey");
        reveal_strlit("include_closed");
        reveal_strlit("only_pending");
        assert forall|j: int| 0 <= j < 3 && j != 2 implies step_key(#[trigger] steps[j]) != Some("only_pending"@) by {
            if j == 0 {
                assert("only_pending"@.len() != "pubkey"@.len());
            }
            if j == 1 {
                assert("only_pending"@.len() != "include_closed"@.len());
            }
        }
        lemma_named_field_unique(steps, 2, "only_pending"@);
    }
}

/// A `shutdown_channel` request carries each given option under its own name: a required text or JSON option as given, an optional one only when given and not empty, a flag as whether its value is non-zero, and a quantity as `0x` and its hexadecimal digits, each only when its `has_` flag is set.
pub proof fn lemma_shutdown_channel_fields(o: ShutdownChannelOptions)
    ensures
        run_steps(shutdown_channel_steps(o)) matches Ok(fields) ==> {
            &&& field_of(fields, "channel_id"@) == Some(ParamView::Text(o.channel_id->Text_0@))
            &&& field_of(fields, "close_script"@) == given_json(o.close_script_json)
            &&& field_of(fields, "fee_rate"@) == given_u64_hex(o.has_fee_rate, o.fee_rate)
            &&& field_of(fields, "force"@) == given_flag(o.has_force, o.force)
        },
{
    let steps = shutdown_channel_steps(o);
    lemma_run_steps_ok(steps);
    lemma_run_steps_field(steps, "channel_id"@);
    lemma_named_field(steps, "channel_id"@);
    assert(run_steps(steps) is Ok ==> named_field(steps, "channel_id"@) == Some(ParamView::Text(o.channel_id->Text_0@))) by {
        reveal_strlit("channel_id");
        reveal_strlit("close_script");
        reveal_strlit("fee_rate");
        reveal_strlit("force");
        assert forall|j: int| 0 <= j < 4 && j != 0 implies step_key(#[trigger] steps[j]) != Some("channel_id"@) by {
            if j == 1 {
                assert("channel_id"@.len() != "close_script"@.len());
            }
            if j == 2 {
                assert("channel_id"@.len() != "fee_rate"@.len());
            }
            if j == 3 {
                assert("channel_id"@.len() != "force"@.len());
            }
        }
        if run_steps(steps) is Ok {
            assert(step_outcome(steps[0]) is Ok);
            lemma_named_field_unique(steps, 0, "channel_id"@);
        }
    }
    lemma_run_steps_field(steps, "close_script"@);
    lemma_named_field(steps, "close_script"@);
    assert(run_steps(steps) is Ok ==> named_field(steps, "close_script"@) == given_json(o.close_script_json)) by {
        reveal_strlit("channel_id");
        reveal_strlit("close_script");
        reveal_strlit("fee_rate");
        reveal_strlit("force");
        assert forall|j: int| 0 <= j < 4 && j != 1 implies step_key(#[trigger] steps[j]) != Some("close_script"@) by {
            if j == 0 {
                assert("close_script"@.len() != "channel_id"@.len());
            }
            if j == 2 {
                assert("close_script"@.len() != "fee_rate"@.len());
            }
            if j == 3 {
                assert("close_script"@.len() != "force"@.len());
            }
        }
        if run_steps(steps) is Ok {
            assert(step_outcome(steps[1]) is Ok);
            lemma_named_field_unique(steps, 1, "close_script"@);
        }
    }
    lemma_run_steps_field(steps, "fee_rate"@);
    lemma_named_field(steps, "fee_rate"@);
    assert(named_field(steps, "fee_rate"@) == given_u64_hex(o.has_fee_rate, o.fee_rate)) by {
        reveal_strlit("channel_id");
        reveal_strlit("close_script");
        reveal_strlit("fee_rate");
        reveal_strlit("force");
        assert forall|j: int| 0 <= j < 4 && j != 2 implies step_key(#[trigger] steps[j]) != Some("fee_rate"@) by {
            if j == 0 {
                assert("fee_rate"@.len() != "channel_id"@.len());
            }
            if j == 1 {
                assert("fee_rate"@.len() != "close_script"@.len());
            }
            if j == 3 {
                assert("fee_rate"@.len() != "force"@.len());
            }
        }
        lemma_named_field_unique(steps, 2, "fee_rate"@);
    }
    lemma_run_steps_field(steps, "force"@);
    lemma_named_field(steps, "force"@);
    assert(named_field(steps, "force"@) == given_flag(o.has_force, o.force)) by {
        reveal_strlit("channel_id");
        reveal_strlit("close_script");
        reveal_strlit("fee_rate");
        reveal_strlit("force");
        assert forall|j: int| 0 <= j < 4 && j != 3 implies step_key(#[trigger] steps[j]) != Some("force"@) by {
            if j == 0 {
                assert("force"@.len() != "channel_id"@.len());
            }
            if j == 1 {
                assert("force"@.len() != "close_script"@.len());
            }
            if j == 2 {
                assert("force"@.len() != "fee_rate"@.len());
            }
        }
        lemma_named_field_unique(steps, 3, "force"@);
    }
}

/// A `update_channel` request carries each given option under its own name: a required text or JSON option as given, an optional one only when given and not empty, a flag as whether its value is non-zero, and a quantity as `0x` and its hexadecimal digits, each only when its `has_` flag is set.
pub proof fn lemma_update_channel_fields(o: UpdateChannelOptions)
    ensures
        run_steps(update_channel_steps(o)) matches Ok(fields) ==> {
            &&& field_of(fields, "channel_id"@) == Some(ParamView::Text(o.channel_id->Text_0@))
            &&& field_of(fields, "enabled"@) == given_flag(o.has_enabled, o.enabled)
            &&& field_of(fields, "tlc_expiry_delta"@) == given_u64_hex(o.has_tlc_expiry_delta, o.tlc_expiry_delta)
            &&& field_of(fields, "tlc_minimum_value"@) == given_u128_hex(o.has_tlc_minimum_value, o.tlc_minimum_value)
            &&& field_of(fields, "tlc_fee_proportional_millionths"@) == given_u128_hex(o.has_tlc_fee_proportional_millionths, o.tlc_fee_proportional_millionths)
        },
{
    let steps = update_channel_steps(o);
    lemma_run_steps_ok(steps);
    lemma_run_steps_field(steps, "channel_id"@);
    lemma_named_field(steps, "channel_id"@);
    assert(run_steps(steps) is Ok ==> named_field(steps, "channel_id"@) == Some(ParamView::Text(o.channel_id->Text_0@))) by {
        reveal_strlit("channel_id");
        reveal_strlit("enabled");
        reveal_strlit("tlc_expiry_delta");
        reveal_strlit("tlc_minimum_value");
        reveal_strlit("tlc_fee_proportional_millionths");
        assert forall|j: int| 0 <= j < 5 && j != 0 implies step_key(#[trigger] steps[j]) != Some("channel_id"@) by {
            if j == 1 {
                assert("channel_id"@.len() != "enabled"@.len());
            }
            if j == 2 {
                assert("channel_id"@.len() != "tlc_expiry_delta"@.len());
            }
            if j == 3 {
                assert("channel_id"@.len() != "tlc_minimum_value"@.len());
            }
            if j == 4 {
                assert("channel_id"@.len() != "tlc_fee_proportional_millionths"@.len());
            }
        }
        if run_steps(steps) is Ok {
            assert(step_outcome(steps[0]) is Ok);
            lemma_named_field_unique(steps, 0, "channel_id"@);
        }
    }
    lemma_run_steps_field(steps, "enabled"@);
    lemma_named_field(steps, "enabled"@);
    assert(named_field(steps, "enabled"@) == given_flag(o.has_enabled, o.enabled)) by {
        reveal_strlit("channel_id");
        reveal_strlit("enabled");
        reveal_strlit("tlc_expiry_delta");
        reveal_strlit("tlc_minimum_value");
        reveal_strlit("tlc_fee_proportional_millionths");
        assert forall|j: int| 0 <= j < 5 && j != 1 implies step_key(#[trigger] steps[j]) != Some("enabled"@) by {
            if j == 0 {
                assert("enabled"@.len() != "channel_id"@.len());
            }
            if j == 2 {
                assert("enabled"@.len() != "tlc_expiry_delta"@.len());
            }
            if j == 3 {
                assert("enabled"@.len() != "tlc_minimum_value"@.len());
            }
            if j == 4 {
                assert("enabled"@.len() != "tlc_fee_proportional_millionths"@.len());
            }
        }
        lemma_named_field_unique(steps, 1, "enabled"@);
    }
    lemma_run_steps_field(steps, "tlc_expiry_delta"@);
    lemma_named_field(steps, "tlc_expiry_delta"@);
    assert(named_field(steps, "tlc_expiry_delta"@) == given_u64_hex(o.has_tlc_expiry_delta, o.tlc_expiry_delta)) by {
        reveal_strlit("channel_id");
        reveal_strlit("enabled");
        reveal_strlit("tlc_expiry_delta");
        reveal_strlit("tlc_minimum_value");
        reveal_strlit("tlc_fee_proportional_millionths");
        assert forall|j: int| 0 <= j < 5 && j != 2 implies step_key(#[trigger] steps[j]) != Some("tlc_expiry_delta"@) by {
            if j == 0 {
                assert("tlc_expiry_delta"@.len() != "channel_id"@.len());
            }
            if j == 1 {
                assert("tlc_expiry_delta"@.len() != "enabled"@.len());
            }
            if j == 3 {
                assert("tlc_expiry_delta"@.len() != "tlc_minimum_value"@.len());
            }
            if j == 4 {
                assert("tlc_expiry_delta"@.len() != "tlc_fee_proportional_millionths"@.len());
            }
        }
        lemma_named_field_unique(steps, 2, "tlc_expiry_delta"@);
    }
    lemma_run_steps_field(steps, "tlc_minimum_value"@);
    lemma_named_field(steps, "tlc_minimum_value"@);
    assert(named_field(steps, "tlc_minimum_value"@) == given_u128_hex(o.has_tlc_minimum_value, o.tlc_minimum_value)) by {
        reveal_strlit("channel_id");
        reveal_strlit("enabled");
        reveal_strlit("tlc_expiry_delta");
        reveal_strlit("tlc_minimum_value");
        reveal_strlit("tlc_fee_proportional_millionths");
        assert forall|j: int| 0 <= j < 5 && j != 3 implies step_key(#[trigger] steps[j]) != Some("tlc_minimum_value"@) by {
            if j == 0 {
                assert("tlc_minimum_value"@.len() != "channel_id"@.len());
            }
            if j == 1 {
                assert("tlc_minimum_value"@.len() != "enabled"@.len());
            }
            if j == 2 {
                assert("tlc_minimum_value"@.len() != "tlc_expiry_delta"@.len());
            }
            if j == 4 {
                assert("tlc_minimum_value"@.len() != "tlc_fee_proportional_millionths"@.len());
            }
        }
        lemma_named_field_unique(steps, 3, "tlc_minimum_value"@);
    }
    lemma_run_steps_field(steps, "tlc_fee_proportional_millionths"@);
    lemma_named_field(steps, "tlc_fee_proportional_millionths"@);
    assert(named_field(steps, "tlc_fee_proportional_millionths"@) == given_u128_hex(o.has_tlc_fee_proportional_millionths, o.tlc_fee_proportional_millionths)) by {
        reveal_strlit("channel_id");
        reveal_strlit("enabled");
        reveal_strlit("tlc_expiry_delta");
        reveal_strlit("tlc_minimum_value");
        reveal_strlit("tlc_fee_proportional_millionths");
        assert forall|j: int| 0 <= j < 5 && j != 4 implies step_key(#[trigger] steps[j]) != Some("tlc_fee_proportional_millionths"@) by {
            if j == 0 {
                assert("tlc_fee_proportional_millionths"@.len() != "channel_id"@.len());
            }
            if j == 1 {
                assert("tlc_fee_proportional_millionths"@.len() != "enabled"@.len());
            }
            if j == 2 {
                assert("tlc_fee_proportional_millionths"@.len() != "tlc_expiry_delta"@.len());
            }
            if j == 3 {
                assert("tlc_fee_proportional_millionths"@.len() != "tlc_minimum_value"@.len());
            }
        }
        lemma_named_field_unique(steps, 4, "tlc_fee_proportional_millionths"@);
    }
}

/// A `send_payment` request carries each given option under its own name: a required text or JSON option as given, an optional one only when given and not empty, a flag as whether its value is non-zero, and a quantity as `0x` and its hexadecimal digits, each only when its `has_` flag is set.
pub proof fn lemma_send_payment_fields(o: SendPaymentOptions)
    ensures
        run_steps(send_payment_steps(o)) matches Ok(fields) ==> {
            &&& field_of(fields, "target_pubkey"@) == given_text(o.target_pubkey)
            &&& field_of(fields, "amount"@) == given_u128_hex(o.has_amount, o.amount)
            &&& field_of(fields, "payment_hash"@) == given_text(o.payment_hash)
            &&& field_of(fields, "final_tlc_expiry_delta"@) == given_u64_hex(o.has_final_tlc_expiry_delta, o.final_tlc_expiry_delta)
            &&& field_of(fields, "tlc_expiry_limit"@) == given_u64_hex(o.has_tlc_expiry_limit, o.tlc_expiry_limit)
            &&& field_of(fields, "invoice"@) == given_text(o.invoice)
            &&& field_of(fields, "timeout"@) == given_u64_hex(o.has_timeout, o.timeout)
            &&& field_of(fields, "max_fee_amount"@) == given_u128_hex(o.has_max_fee_amount, o.max_fee_amount)
            &&& field_of(fields, "max_fee_rate"@) == given_u64_hex(o.has_max_fee_rate, o.max_fee_rate)
            &&& field_of(fields, "max_parts"@) == given_u64_hex(o.has_max_parts, o.max_parts)
            &&& field_of(fields, "trampoline_hops"@) == given_json(o.trampoline_hops_json)
            &&& field_of(fields, "keysend"@) == given_flag(o.has_keysend, o.keysend)
            &&& field_of(fields, "udt_type_script"@) == given_json(o.udt_type_script_json)
            &&& field_of(fields, "allow_self_payment"@) == given_flag(o.has_allow_self_payment, o.allow_self_payment)
            &&& field_of(fields, "custom_records"@) == given_json(o.custom_records_json)
            &&& field_of(fields, "hop_hints"@) == given_json(o.hop_hints_json)
            &&& field_of(fields, "dry_run"@) == given_flag(o.has_dry_run, o.dry_run)
        },
{
    let steps = send_payment_steps(o);
    lemma_run_steps_ok(steps);
    lemma_run_steps_field(steps, "target_pubkey"@);
    lemma_named_field(steps, "target_pubkey"@);
    assert(named_field(steps, "target_pubkey"@) == given_text(o.target_pubkey)) by {
        reveal_strlit("target_pubkey");
        reveal_strlit("amount");
        reveal_strlit("payment_hash");
        reveal_strlit("final_tlc_expiry_delta");
        reveal_strlit("tlc_expiry_limit");
        reveal_strlit("invoice");
        reveal_strlit("timeout");
        reveal_strlit("max_fee_amount");
        reveal_strlit("max_fee_rate");
        reveal_strlit("max_parts");
        reveal_strlit("trampoline_hops");
        reveal_strlit("keysend");
        reveal_strlit("udt_type_script");
        reveal_strlit("allow_self_payment");
        reveal_strlit("custom_records");
        reveal_strlit("hop_hints");
        reveal_strlit("dry_run");
        assert forall|j: int| 0 <= j < 17 && j != 0 implies step_key(#[trigger] steps[j]) != Some("target_pubkey"@) by {
            if j == 1 {
                assert("target_pubkey"@.len() != "amount"@.len());
            }
            if j == 2 {
                assert("target_pubkey"@.len() != "payment_hash"@.len());
            }
            if j == 3 {
                assert("target_pubkey"@.len() != "final_tlc_expiry_delta"@.len());
            }
            if j == 4 {
                assert("target_pubkey"@.len() != "tlc_expiry_limit"@.len());
            }
            if j == 5 {
                assert("target_pubkey"@.len() != "invoice"@.len());
            }
            if j == 6 {
                assert("target_pubkey"@.len() != "timeout"@.len());
            }
            if j == 7 {
                assert("target_pubkey"@.len() != "max_fee_amount"@.len());
            }
            if j == 8 {
                assert("target_pubkey"@.len() != "max_fee_rate"@.len());
            }
            if j == 9 {
                assert("target_pubkey"@.len() != "max_parts"@.len());
            }
            if j == 10 {
                assert("target_pubkey"@.len() != "trampoline_hops"@.len());
            }
            if j == 11 {
                assert("target_pubkey"@.len() != "keysend"@.len());
            }
            if j == 12 {
                assert("target_pubkey"@.len() != "udt_type_script"@.len());
            }
            if j == 13 {
                assert("target_pubkey"@.len() != "allow_self_payment"@.len());
            }
            if j == 14 {
                assert("target_pubkey"@.len() != "custom_records"@.len());
            }
            if j == 15 {
                assert("target_pubkey"@.len() != "hop_hints"@.len());
            }
            if j == 16 {
                assert("target_pubkey"@.len() != "dry_run"@.len());
            }
        }
        lemma_named_field_unique(steps, 0, "target_pubkey"@);
    }
    lemma_run_steps_field(steps, "amount"@);
    lemma_named_field(steps, "amount"@);
    assert(named_field(steps, "amount"@) == given_u128_hex(o.has_amount, o.amount)) by {
        reveal_strlit("target_pubkey");
        reveal_strlit("amount");
        reveal_strlit("payment_hash");
        reveal_strlit("final_tlc_expiry_delta");
        reveal_strlit("tlc_expiry_limit");
        reveal_strlit("invoice");
        reveal_strlit("timeout");
        reveal_strlit("max_fee_amount");
        reveal_strlit("max_fee_rate");
        reveal_strlit("max_parts");
        reveal_strlit("trampoline_hops");
        reveal_strlit("keysend");
        reveal_strlit("udt_type_script");
        reveal_strlit("allow_self_payment");
        reveal_strlit("custom_records");
        reveal_strlit("hop_hints");
        reveal_strlit("dry_run");
        assert forall|j: int| 0 <= j < 17 && j != 1 implies step_key(#[trigger] steps[j]) != Some("amount"@) by {
            if j == 0 {
                assert("amount"@.len() != "target_pubkey"@.len());
            }
            if j == 2 {
                assert("amount"@.len() != "payment_hash"@.len());
            }
            if j == 3 {
                assert("amount"@.len() != "final_tlc_expiry_delta"@.len());
            }
            if j == 4 {
                assert("amount"@.len() != "tlc_expiry_limit"@.len());
            }
            if j == 5 {
                assert("amount"@.len() != "invoice"@.len());
            }
            if j == 6 {
                assert("amount"@.len() != "timeout"@.len());
            }
            if j == 7 {
                assert("amount"@.len() != "max_fee_amount"@.len());
            }
            if j == 8 {
                assert("amount"@.len() != "max_fee_rate"@.len());
            }
            if j == 9 {
                assert("amount"@.len() != "max_parts"@.len());
            }
            if j == 10 {
                assert("amount"@.len() != "trampoline_hops"@.len());
            }
            if j == 11 {
                assert("amount"@.len() != "keysend"@.len());
            }
            if j == 12 {
                assert("amount"@.len() != "udt_type_script"@.len());
            }
            if j == 13 {
                assert("amount"@.len() != "allow_self_payment"@.len());
            }
            if j == 14 {
                assert("amount"@.len() != "custom_records"@.len());
            }
            if j == 15 {
                assert("amount"@.len() != "hop_hints"@.len());
            }
            if j == 16 {
                assert("amount"@.len() != "dry_run"@.len());
            }
        }
        lemma_named_field_unique(steps, 1, "amount"@);
    }
    lemma_run_steps_field(steps, "payment_hash"@);
    lemma_named_field(steps, "payment_hash"@);
    assert(named_field(steps, "payment_hash"@) == given_text(o.payment_hash)) by {
        reveal_strlit("target_pubkey");
        reveal_strlit("amount");
        reveal_strlit("payment_hash");
        reveal_strlit("final_tlc_expiry_delta");
        reveal_strlit("tlc_expiry_limit");
        reveal_strlit("invoice");
        reveal_strlit("timeout");
        reveal_strlit("max_fee_amount");
        reveal_strlit("max_fee_rate");
        reveal_strlit("max_parts");
        reveal_strlit("trampoline_hops");
        reveal_strlit("keysend");
        reveal_strlit("udt_type_script");
        reveal_strlit("allow_self_payment");
        reveal_strlit("custom_records");
        reveal_strlit("hop_hints");
        reveal_strlit("dry_run");
        assert forall|j: int| 0 <= j < 17 && j != 2 implies step_key(#[trigger] steps[j]) != Some("payment_hash"@) by {
            if j == 0 {
                assert("payment_hash"@.len() != "target_pubkey"@.len());
            }
            if j == 1 {
                assert("payment_hash"@.len() != "amount"@.len());
            }
            if j == 3 {
                assert("payment_hash"@.len() != "final_tlc_expiry_delta"@.len());
            }
            if j == 4 {
                assert("payment_hash"@.len() != "tlc_expiry_limit"@.len());
            }
            if j == 5 {
                assert("payment_hash"@.len() != "invoice"@.len());
            }
            if j == 6 {
                assert("payment_hash"@.len() != "timeout"@.len());
            }
            if j == 7 {
                assert("payment_hash"@.len() != "max_fee_amount"@.len());
            }
            if j == 8 {
                assert("payment_hash"@[0] == 'p' && "max_fee_rate"@[0] == 'm');
            }
            if j == 9 {
                assert("payment_hash"@.len() != "max_parts"@.len());
            }
            if j == 10 {
                assert("payment_hash"@.len() != "trampoline_hops"@.len());
            }
            if j == 11 {
                assert("payment_hash"@.len() != "keysend"@.len());
            }
            if j == 12 {
                assert("payment_hash"@.len() != "udt_type_script"@.len());
            }
            if j == 13 {
                assert("payment_hash"@.len() != "allow_self_payment"@.len());
            }
            if j == 14 {
                assert("payment_hash"@.len() != "custom_records"@.len());
            }
            if j == 15 {
                assert("payment_hash"@.len() != "hop_hints"@.len());
            }
            if j == 16 {
                assert("payment_hash"@.len() != "dry_run"@.len());
            }
        }
        lemma_named_field_unique(steps, 2, "payment_hash"@);
    }
    lemma_run_steps_field(steps, "final_tlc_expiry_delta"@);
    lemma_named_field(steps, "final_tlc_expiry_delta"@);
    assert(named_field(steps, "final_tlc_expiry_delta"@) == given_u64_hex(o.has_final_tlc_expiry_delta, o.final_tlc_expiry_delta)) by {
        reveal_strlit("target_pubkey");
        reveal_strlit("amount");
        reveal_strlit("payment_hash");
        reveal_strlit("final_tlc_expiry_delta");
        reveal_strlit("tlc_expiry_limit");
        reveal_strlit("invoice");
        reveal_strlit("timeout");
        reveal_strlit("max_fee_amount");
        reveal_strlit("max_fee_rate");
        reveal_strlit("max_parts");
        reveal_strlit("trampoline_hops");
        reveal_strlit("keysend");
        reveal_strlit("udt_type_script");
        reveal_strlit("allow_self_payment");
        reveal_strlit("custom_records");
        reveal_strlit("hop_hints");
        reveal_strlit("dry_run");
        assert forall|j: int| 0 <= j < 17 && j != 3 implies step_key(#[trigger] steps[j]) != Some("final_tlc_expiry_delta"@) by {
            if j == 0 {
                assert("final_tlc_expiry_delta"@.len() != "target_pubkey"@.len());
            }
            if j == 1 {
                assert("final_tlc_expiry_delta"@.len() != "amount"@.len());
            }
            if j == 2 {
                assert("final_tlc_expiry_delta"@.len() != "payment_hash"@.len());
            }
            if j == 4 {
                assert("final_tlc_expiry_delta"@.len() != "tlc_expiry_limit"@.len());
            }
            if j == 5 {
                assert("final_tlc_expiry_delta"@.len() != "invoice"@.len());
            }
            if j == 6 {
                assert("final_tlc_expiry_delta"@.len() != "timeout"@.len());
            }
            if j == 7 {
                assert("final_tlc_expiry_delta"@.len() != "max_fee_amount"@.len());
            }
            if j == 8 {
                assert("final_tlc_expiry_delta"@.len() != "max_fee_rate"@.len());
            }
            if j == 9 {
                assert("final_tlc_expiry_delta"@.len() != "max_parts"@.len());
            }
            if j == 10 {
                assert("final_tlc_expiry_delta"@.len() != "trampoline_hops"@.len());
            }
            if j == 11 {
                assert("final_tlc_expiry_delta"@.len() != "keysend"@.len());
            }
            if j == 12 {
                assert("final_tlc_expiry_delta"@.len() != "udt_type_script"@.len());
            }
            if j == 13 {
                assert("final_tlc_expiry_delta"@.len() != "allow_self_payment"@.len());
            }
            if j == 14 {
                assert("final_tlc_expiry_delta"@.len() != "custom_records"@.len());
            }
            if j == 15 {
                assert("final_tlc_expiry_delta"@.len() != "hop_hints"@.len());
            }
            if j == 16 {
                assert("final_tlc_expiry_delta"@.len() != "dry_run"@.len());
            }
        }
        lemma_named_field_unique(steps, 3, "final_tlc_expiry_delta"@);
    }
    lemma_run_steps_field(steps, "tlc_expiry_limit"@);
    lemma_named_field(steps, "tlc_expiry_limit"@);
    assert(named_field(steps, "tlc_expiry_limit"@) == given_u64_hex(o.has_tlc_expiry_limit, o.tlc_expiry_limit)) by {
        reveal_strlit("target_pubkey");
        reveal_strlit("amount");
        reveal_strlit("payment_hash");
        reveal_strlit("final_tlc_expiry_delta");
        reveal_strlit("tlc_expiry_limit");
        reveal_strlit("invoice");
        reveal_strlit("timeout");
        reveal_strlit("max_fee_amount");
        reveal_strlit("max_fee_rate");
        reveal_strlit("max_parts");
        reveal_strlit("trampoline_hops");
        reveal_strlit("keysend");
        reveal_strlit("udt_type_script");
        reveal_strlit("allow_self_payment");
        reveal_strlit("custom_records");
        reveal_strlit("hop_hints");
        reveal_strlit("dry_run");
        assert forall|j: int| 0 <= j < 17 && j != 4 implies step_key(#[trigger] steps[j]) != Some("tlc_expiry_limit"@) by {
            if j == 0 {
                assert("tlc_expiry_limit"@.len() != "target_pubkey"@.len());
            }
            if j == 1 {
                assert("tlc_expiry_limit"@.len() != "amount"@.len());
            }
            if j == 2 {
                assert("tlc_expiry_limit"@.len() != "payment_hash"@.len());
            }
            if j == 3 {
                assert("tlc_expiry_limit"@.len() != "final_tlc_expiry_delta"@.len());
            }
            if j == 5 {
                assert("tlc_expiry_limit"@.len() != "invoice"@.len());
            }
            if j == 6 {
                assert("tlc_expiry_limit"@.len() != "timeout"@.len());
            }
            if j == 7 {
                assert("tlc_expiry_limit"@.len() != "max_fee_amount"@.len());
            }
            if j == 8 {
                assert("tlc_expiry_limit"@.len() != "max_fee_rate"@.len());
            }
            if j == 9 {
                assert("tlc_expiry_limit"@.len() != "max_parts"@.len());
            }
            if j == 10 {
                assert("tlc_expiry_limit"@.len() != "trampoline_hops"@.len());
            }
            if j == 11 {
                assert("tlc_expiry_limit"@.len() != "keysend"@.len());
            }
            if j == 12 {
                assert("tlc_expiry_limit"@.len() != "udt_type_script"@.len());
            }
            if j == 13 {
                assert("tlc_expiry_limit"@.len() != "allow_self_payment"@.len());
            }
            if j == 14 {
                assert("tlc_expiry_limit"@.len() != "custom_records"@.len());
            }
            if j == 15 {
                assert("tlc_expiry_limit"@.len() != "hop_hints"@.len());
            }
            if j == 16 {
                assert("tlc_expiry_limit"@.len() != "dry_run"@.len());
            }
        }
        lemma_named_field_unique(steps, 4, "tlc_expiry_limit"@);
    }
    lemma_run_steps_field(steps, "invoice"@);
    lemma_named_field(steps, "invoice"@);
    assert(named_field(steps, "invoice"@) == given_text(o.invoice)) by {
        reveal_strlit("target_pubkey");
        reveal_strlit("amount");
        reveal_strlit("payment_hash");
        reveal_strlit("final_tlc_expiry_delta");
        reveal_strlit("tlc_expiry_limit");
        reveal_strlit("invoice");
        reveal_strlit("timeout");
        reveal_strlit("max_fee_amount");
        reveal_strlit("max_fee_rate");
        reveal_strlit("max_parts");
        reveal_strlit("trampoline_hops");
        reveal_strlit("keysend");
        reveal_strlit("udt_type_script");
        reveal_strlit("allow_self_payment");
        reveal_strlit("custom_records");
        reveal_strlit("hop_hints");
        reveal_strlit("dry_run");
        assert forall|j: int| 0 <= j < 17 && j != 5 implies step_key(#[trigger] steps[j]) != Some("invoice"@) by {
            if j == 0 {
                assert("invoice"@.len() != "target_pubkey"@.len());
            }
            if j == 1 {
                assert("invoice"@.len() != "amount"@.len());
            }
            if j == 2 {
                assert("invoice"@.len() != "payment_hash"@.len());
            }
            if j == 3 {
                assert("invoice"@.len() != "final_tlc_expiry_delta"@.len());
            }
            if j == 4 {
                assert("invoice"@.len() != "tlc_expiry_limit"@.len());
            }
            if j == 6 {
                assert("invoice"@[0] == 'i' && "timeout"@[0] == 't');
            }
            if j == 7 {
                assert("invoice"@.len() != "max_fee_amount"@.len());
            }
            if j == 8 {
                assert("invoice"@.len() != "max_fee_rate"@.len());
            }
            if j == 9 {
                assert("invoice"@.len() != "max_parts"@.len());
            }
            if j == 10 {
                assert("invoice"@.len() != "trampoline_hops"@.len());
            }
            if j == 11 {
                assert("invoice"@[0] == 'i' && "keysend"@[0] == 'k');
            }
            if j == 12 {
                assert("invoice"@.len() != "udt_type_script"@.len());
            }
            if j == 13 {
                assert("invoice"@.len() != "allow_self_payment"@.len());
            }
            if j == 14 {
                assert("invoice"@.len() != "custom_records"@.len());
            }
            if j == 15 {
                assert("invoice"@.len() != "hop_hints"@.len());
            }
            if j == 16 {
                assert("invoice"@[0] == 'i' && "dry_run"@[0] == 'd');
            }
        }
        lemma_named_field_unique(steps, 5, "invoice"@);
    }
    lemma_run_steps_field(steps, "timeout"@);
    lemma_named_field(steps, "timeout"@);
    assert(named_field(steps, "timeout"@) == given_u64_hex(o.has_timeout, o.timeout)) by {
        reveal_strlit("target_pubkey");
        reveal_strlit("amount");
        reveal_strlit("payment_hash");
        reveal_strlit("final_tlc_expiry_delta");
        reveal_strlit("tlc_expiry_limit");
        reveal_strlit("invoice");
        reveal_strlit("timeout");
        reveal_strlit("max_fee_amount");
        reveal_strlit("max_fee_rate");
        reveal_strlit("max_parts");
        reveal_strlit("trampoline_hops");
        reveal_strlit("keysend");
        reveal_strlit("udt_type_script");
        reveal_strlit("allow_self_payment");
        reveal_strlit("custom_records");
        reveal_strlit("hop_hints");
        reveal_strlit("dry_run");
        assert forall|j: int| 0 <= j < 17 && j != 6 implies step_key(#[trigger] steps[j]) != Some("timeout"@) by {
            if j == 0 {
                assert("timeout"@.len() != "target_pubkey"@.len());
            }
            if j == 1 {
                assert("timeout"@.len() != "amount"@.len());
            }
            if j == 2 {
                assert("timeout"@.len() != "payment_hash"@.len());
            }
            if j == 3 {
                assert("timeout"@.len() != "final_tlc_expiry_delta"@.len());
            }
            if j == 4 {
                assert("timeout"@.len() != "tlc_expiry_limit"@.len());
            }
            if j == 5 {
                assert("timeout"@[0] == 't' && "invoice"@[0] == 'i');
            }
            if j == 7 {
                assert("timeout"@.len() != "max_fee_amount"@.len());
            }
            if j == 8 {
                assert("timeout"@.len() != "max_fee_rate"@.len());
            }
            if j == 9 {
                assert("timeout"@.len() != "max_parts"@.len());
            }
            if j == 10 {
                assert("timeout"@.len() != "trampoline_hops"@.len());
            }
            if j == 11 {
                assert("timeout"@[0] == 't' && "keysend"@[0] == 'k');
            }
            if j == 12 {
                assert("timeout"@.len() != "udt_type_script"@.len());
            }
            if j == 13 {
                assert("timeout"@.len() != "allow_self_payment"@.len());
            }
            if j == 14 {
                assert("timeout"@.len() != "custom_records"@.len());
            }
            if j == 15 {
                assert("timeout"@.len() != "hop_hints"@.len());
            }
            if j == 16 {
                assert("timeout"@[0] == 't' && "dry_run"@[0] == 'd');
            }
        }
        lemma_named_field_unique(steps, 6, "timeout"@);
    }
    lemma_run_steps_field(steps, "max_fee_amount"@);
    lemma_named_field(steps, "max_fee_amount"@);
    assert(named_field(steps, "max_fee_amount"@) == given_u128_hex(o.has_max_fee_amount, o.max_fee_amount)) by {
        reveal_strlit("target_pubkey");
        reveal_strlit("amount");
        reveal_strlit("payment_hash");
        reveal_strlit("final_tlc_expiry_delta");
        reveal_strlit("tlc_expiry_limit");
        reveal_strlit("invoice");
        reveal_strlit("timeout");
        reveal_strlit("max_fee_amount");
        reveal_strlit("max_fee_rate");
        reveal_strlit("max_parts");
        reveal_strlit("trampoline_hops");
        reveal_strlit("keysend");
        reveal_strlit("udt_type_script");
        reveal_strlit("allow_self_payment");
        reveal_strlit("custom_records");
        reveal_strlit("hop_hints");
        reveal_strlit("dry_run");
        assert forall|j: int| 0 <= j < 17 && j != 7 implies step_key(#[trigger] steps[j]) != Some("max_fee_amount"@) by {
            if j == 0 {
                assert("max_fee_amount"@.len() != "target_pubkey"@.len());
            }
            if j == 1 {
                assert("max_fee_amount"@.len() != "amount"@.len());
            }
            if j == 2 {
                assert("max_fee_amount"@.len() != "payment_hash"@.len());
            }
            if j == 3 {
                assert("max_fee_amount"@.len() != "final_tlc_expiry_delta"@.len());
            }
            if j == 4 {
                assert("max_fee_amount"@.len() != "tlc_expiry_limit"@.len());
            }
            if j == 5 {
                assert("max_fee_amount"@.len() != "invoice"@.len());
            }
            if j == 6 {
                assert("max_fee_amount"@.len() != "timeout"@.len());
            }
            if j == 8 {
                assert("max_fee_amount"@.len() != "max_fee_rate"@.len());
            }
            if j == 9 {
                assert("max_fee_amount"@.len() != "max_parts"@.len());
            }
            if j == 10 {
                assert("max_fee_amount"@.len() != "trampoline_hops"@.len());
            }
            if j == 11 {
                assert("max_fee_amount"@.len() != "keysend"@.len());
            }
            if j == 12 {
                assert("max_fee_amount"@.len() != "udt_type_script"@.len());
            }
            if j == 13 {
                assert("max_fee_amount"@.len() != "allow_self_payment"@.len());
            }
            if j == 14 {
                assert("max_fee_amount"@[0] == 'm' && "custom_records"@[0] == 'c');
            }
            if j == 15 {
                assert("max_fee_amount"@.len() != "hop_hints"@.len());
            }
            if j == 16 {
                assert("max_fee_amount"@.len() != "dry_run"@.len());
            }
        }
        lemma_named_field_unique(steps, 7, "max_fee_amount"@);
    }
    lemma_run_steps_field(steps, "max_fee_rate"@);
    lemma_named_field(steps, "max_fee_rate"@);
    assert(named_field(steps, "max_fee_rate"@) == given_u64_hex(o.has_max_fee_rate, o.max_fee_rate)) by {
        reveal_strlit("target_pubkey");
        reveal_strlit("amount");
        reveal_strlit("payment_hash");
        reveal_strlit("final_tlc_expiry_delta");
        reveal_strlit("tlc_expiry_limit");
        reveal_strlit("invoice");
        reveal_strlit("timeout");
        reveal_strlit("max_fee_amount");
        reveal_strlit("max_fee_rate");
        reveal_strlit("max_parts");
        reveal_strlit("trampoline_hops");
        reveal_strlit("keysend");
        reveal_strlit("udt_type_script");
        reveal_strlit("allow_self_payment");
        reveal_strlit("custom_records");
        reveal_strlit("hop_hints");
        reveal_strlit("dry_run");
        assert forall|j: int| 0 <= j < 17 && j != 8 implies step_key(#[trigger] steps[j]) != Some("max_fee_rate"@) by {
            if j == 0 {
                assert("max_fee_rate"@.len() != "target_pubkey"@.len());
            }
            if j == 1 {
                assert("max_fee_rate"@.len() != "amount"@.len());
            }
            if j == 2 {
                assert("max_fee_rate"@[0] == 'm' && "payment_hash"@[0] == 'p');
            }
            if j == 3 {
                assert("max_fee_rate"@.len() != "final_tlc_expiry_delta"@.len());
            }
            if j == 4 {
                assert("max_fee_rate"@.len() != "tlc_expiry_limit"@.len());
            }
            if j == 5 {
                assert("max_fee_rate"@.len() != "invoice"@.len());
            }
            if j == 6 {
                assert("max_fee_rate"@.len() != "timeout"@.len());
            }
            if j == 7 {
                assert("max_fee_rate"@.len() != "max_fee_amount"@.len());
            }
            if j == 9 {
                assert("max_fee_rate"@.len() != "max_parts"@.len());
            }
            if j == 10 {
                assert("max_fee_rate"@.len() != "trampoline_hops"@.len());
            }
            if j == 11 {
                assert("max_fee_rate"@.len() != "keysend"@.len());
            }
            if j == 12 {
                assert("max_fee_rate"@.len() != "udt_type_script"@.len());
            }
            if j == 13 {
                assert("max_fee_rate"@.len() != "allow_self_payment"@.len());
            }
            if j == 14 {
                assert("max_fee_rate"@.len() != "custom_records"@.len());
            }
            if j == 15 {
                assert("max_fee_rate"@.len() != "hop_hints"@.len());
            }
            if j == 16 {
                assert("max_fee_rate"@.len() != "dry_run"@.len());
            }
        }
        lemma_named_field_unique(steps, 8, "max_fee_rate"@);
    }
    lemma_run_steps_field(steps, "max_parts"@);
    lemma_named_field(steps, "max_parts"@);
    assert(named_field(steps, "max_parts"@) == given_u64_hex(o.has_max_parts, o.max_parts)) by {
        reveal_strlit("target_pubkey");
        reveal_strlit("amount");
        reveal_strlit("payment_hash");
        reveal_strlit("final_tlc_expiry_delta");
        reveal_strlit("tlc_expiry_limit");
        reveal_strlit("invoice");
        reveal_strlit("timeout");
        reveal_strlit("max_fee_amount");
        reveal_strlit("max_fee_rate");
        reveal_strlit("max_parts");
        reveal_strlit("trampoline_hops");
        reveal_strlit("keysend");
        reveal_strlit("udt_type_script");
        reveal_strlit("allow_self_payment");
        reveal_strlit("custom_records");
        reveal_strlit("hop_hints");
        reveal_strlit("dry_run");
        assert forall|j: int| 0 <= j < 17 && j != 9 implies step_key(#[trigger] steps[j]) != Some("max_parts"@) by {
            if j == 0 {
                assert("max_parts"@.len() != "target_pubkey"@.len());
            }
            if j == 1 {
                assert("max_parts"@.len() != "amount"@.len());
            }
            if j == 2 {
                assert("max_parts"@.len() != "payment_hash"@.len());
            }
            if j == 3 {
                assert("max_parts"@.len() != "final_tlc_expiry_delta"@.len());
            }
            if j == 4 {
                assert("max_parts"@.len() != "tlc_expiry_limit"@.len());
            }
            if j == 5 {
                assert("max_parts"@.len() != "invoice"@.len());
            }
            if j == 6 {
                assert("max_parts"@.len() != "timeout"@.len());
            }
            if j == 7 {
                assert("max_parts"@.len() != "max_fee_amount"@.len());
            }
            if j == 8 {
                assert("max_parts"@.len() != "max_fee_rate"@.len());
            }
            if j == 10 {
                assert("max_parts"@.len() != "trampoline_hops"@.len());
            }
            if j == 11 {
                assert("max_parts"@.len() != "keysend"@.len());
            }
            if j == 12 {
                assert("max_parts"@.len() != "udt_type_script"@.len());
            }
            if j == 13 {
                assert("max_parts"@.len() != "allow_self_payment"@.len());
            }
            if j == 14 {
                assert("max_parts"@.len() != "custom_records"@.len());
            }
            if j == 15 {
                assert("max_parts"@[0] == 'm' && "hop_hints"@[0] == 'h');
            }
            if j == 16 {
                assert("max_parts"@.len() != "dry_run"@.len());
            }
        }
        lemma_named_field_unique(steps, 9, "max_parts"@);
    }
    lemma_run_steps_field(steps, "trampoline_hops"@);
    lemma_named_field(steps, "trampoline_hops"@);
    assert(run_steps(steps) is Ok ==> named_field(steps, "trampoline_hops"@) == given_json(o.trampoline_hops_json)) by {
        reveal_strlit("target_pubkey");
        reveal_strlit("amount");
        reveal_strlit("payment_hash");
        reveal_strlit("final_tlc_expiry_delta");
        reveal_strlit("tlc_expiry_limit");
        reveal_strlit("invoice");
        reveal_strlit("timeout");
        reveal_strlit("max_fee_amount");
        reveal_strlit("max_fee_rate");
        reveal_strlit("max_parts");
        reveal_strlit("trampoline_hops");
        reveal_strlit("keysend");
        reveal_strlit("udt_type_script");
        reveal_strlit("allow_self_payment");
        reveal_strlit("custom_records");
        reveal_strlit("hop_hints");
        reveal_strlit("dry_run");
        assert forall|j: int| 0 <= j < 17 && j != 10 implies step_key(#[trigger] steps[j]) != Some("trampoline_hops"@) by {
            if j == 0 {
                assert("trampoline_hops"@.len() != "target_pubkey"@.len());
            }
            if j == 1 {
                assert("trampoline_hops"@.len() != "amount"@.len());
            }
            if j == 2 {
                assert("trampoline_hops"@.len() != "payment_hash"@.len());
            }
            if j == 3 {
                assert("trampoline_hops"@.len() != "final_tlc_expiry_delta"@.len());
            }
            if j == 4 {
                assert("trampoline_hops"@.len() != "tlc_expiry_limit"@.len());
            }
            if j == 5 {
                assert("trampoline_hops"@.len() != "invoice"@.len());
            }
            if j == 6 {
                assert("trampoline_hops"@.len() != "timeout"@.len());
            }
            if j == 7 {
                assert("trampoline_hops"@.len() != "max_fee_amount"@.len());
            }
            if j == 8 {
                assert("trampoline_hops"@.len() != "max_fee_rate"@.len());
            }
            if j == 9 {
                assert("trampoline_hops"@.len() != "max_parts"@.len());
            }
            if j == 11 {
                assert("trampoline_hops"@.len() != "keysend"@.len());
            }
            if j == 12 {
                assert("trampoline_hops"@[0] == 't' && "udt_type_script"@[0] == 'u');
            }
            if j == 13 {
                assert("trampoline_hops"@.len() != "allow_self_payment"@.len());
            }
            if j == 14 {
                assert("trampoline_hops"@.len() != "custom_records"@.len());
            }
            if j == 15 {
                assert("trampoline_hops"@.len() != "hop_hints"@.len());
            }
            if j == 16 {
                assert("trampoline_hops"@.len() != "dry_run"@.len());
            }
        }
        if run_steps(steps) is Ok {
            assert(step_outcome(steps[10]) is Ok);
            lemma_named_field_unique(steps, 10, "trampoline_hops"@);
        }
    }
    lemma_run_steps_field(steps, "keysend"@);
    lemma_named_field(steps, "keysend"@);
    assert(named_field(steps, "keysend"@) == given_flag(o.has_keysend, o.keysend)) by {
        reveal_strlit("target_pubkey");
        reveal_strlit("amount");
        reveal_strlit("payment_hash");
        reveal_strlit("final_tlc_expiry_delta");
        reveal_strlit("tlc_expiry_limit");
        reveal_strlit("invoice");
        reveal_strlit("timeout");
        reveal_strlit("max_fee_amount");
        reveal_strlit("max_fee_rate");
        reveal_strlit("max_parts");
        reveal_strlit("trampoline_hops");
        reveal_strlit("keysend");
        reveal_strlit("udt_type_script");
        reveal_strlit("allow_self_payment");
        reveal_strlit("custom_records");
        reveal_strlit("hop_hints");
        reveal_strlit("dry_run");
        assert forall|j: int| 0 <= j < 17 && j != 11 implies step_key(#[trigger] steps[j]) != Some("keysend"@) by {
            if j == 0 {
                assert("keysend"@.len() != "target_pubkey"@.len());
            }
            if j == 1 {
                assert("keysend"@.len() != "amount"@.len());
            }
            if j == 2 {
                assert("keysend"@.len() != "payment_hash"@.len());
            }
            if j == 3 {
                assert("keysend"@.len() != "final_tlc_expiry_delta"@.len());
            }
            if j == 4 {
                assert("keysend"@.len() != "tlc_expiry_limit"@.len());
            }
            if j == 5 {
                assert("keysend"@[0] == 'k' && "invoice"@[0] == 'i');
            }
            if j == 6 {
                assert("keysend"@[0] == 'k' && "timeout"@[0] == 't');
            }
            if j == 7 {
                assert("keysend"@.len() != "max_fee_amount"@.len());
            }
            if j == 8 {
                assert("keysend"@.len() != "max_fee_rate"@.len());
            }
            if j == 9 {
                assert("keysend"@.len() != "max_parts"@.len());
            }
            if j == 10 {
                assert("keysend"@.len() != "trampoline_hops"@.len());
            }
            if j == 12 {
                assert("keysend"@.len() != "udt_type_script"@.len());
            }
            if j == 13 {
                assert("keysend"@.len() != "allow_self_payment"@.len());
            }
            if j == 14 {
                assert("keysend"@.len() != "custom_records"@.len());
            }
            if j == 15 {
                assert("keysend"@.len() != "hop_hints"@.len());
            }
            if j == 16 {
                assert("keysend"@[0] == 'k' && "dry_run"@[0] == 'd');
            }
        }
        lemma_named_field_unique(steps, 11, "keysend"@);
    }
    lemma_run_steps_field(steps, "udt_type_script"@);
    lemma_named_field(steps, "udt_type_script"@);
    assert(run_steps(steps) is Ok ==> named_field(steps, "udt_type_script"@) == given_json(o.udt_type_script_json)) by {
        reveal_strlit("target_pubkey");
        reveal_strlit("amount");
        reveal_strlit("payment_hash");
        reveal_strlit("final_tlc_expiry_delta");
        reveal_strlit("tlc_expiry_limit");
        reveal_strlit("invoice");
        reveal_strlit("timeout");
        reveal_strlit("max_fee_amount");
        reveal_strlit("max_fee_rate");
        reveal_strlit("max_parts");
        reveal_strlit("trampoline_hops");
        reveal_strlit("keysend");
        reveal_strlit("udt_type_script");
        reveal_strlit("allow_self_payment");
        reveal_strlit("custom_records");
        reveal_strlit("hop_hints");
        reveal_strlit("dry_run");
        assert forall|j: int| 0 <= j < 17 && j != 12 implies step_key(#[trigger] steps[j]) != Some("udt_type_script"@) by {
            if j == 0 {
                assert("udt_type_script"@.len() != "target_pubkey"@.len());
            }
            if j == 1 {
                assert("udt_type_script"@.len() != "amount"@.len());
            }
            if j == 2 {
                assert("udt_type_script"@.len() != "payment_hash"@.len());
            }
            if j == 3 {
                assert("udt_type_script"@.len() != "final_tlc_expiry_delta"@.len());
            }
            if j == 4 {
                assert("udt_type_script"@.len() != "tlc_expiry_limit"@.len());
            }
            if j == 5 {
                assert("udt_type_script"@.len() != "invoice"@.len());
            }
            if j == 6 {
                assert("udt_type_script"@.len() != "timeout"@.len());
            }
            if j == 7 {
                assert("udt_type_script"@.len() != "max_fee_amount"@.len());
            }
            if j == 8 {
                assert("udt_type_script"@.len() != "max_fee_rate"@.len());
            }
            if j == 9 {
                assert("udt_type_script"@.len() != "max_parts"@.len());
            }
            if j == 10 {
                assert("udt_type_script"@[0] == 'u' && "trampoline_hops"@[0] == 't');
            }
            if j == 11 {
                assert("udt_type_script"@.len() != "keysend"@.len());
            }
            if j == 13 {
                assert("udt_type_script"@.len() != "allow_self_payment"@.len());
            }
            if j == 14 {
                assert("udt_type_script"@.len() != "custom_records"@.len());
            }
            if j == 15 {
                assert("udt_type_script"@.len() != "hop_hints"@.len());
            }
            if j == 16 {
                assert("udt_type_script"@.len() != "dry_run"@.len());
            }
        }
        if run_steps(steps) is Ok {
            assert(step_outcome(steps[12]) is Ok);
            lemma_named_field_unique(steps, 12, "udt_type_script"@);
        }
    }
    lemma_run_steps_field(steps, "allow_self_payment"@);
    lemma_named_field(steps, "allow_self_payment"@);
    assert(named_field(steps, "allow_self_payment"@) == given_flag(o.has_allow_self_payment, o.allow_self_payment)) by {
        reveal_strlit("target_pubkey");
        reveal_strlit("amount");
        reveal_strlit("payment_hash");
        reveal_strlit("final_tlc_expiry_delta");
        reveal_strlit("tlc_expiry_limit");
        reveal_strlit("invoice");
        reveal_strlit("timeout");
        reveal_strlit("max_fee_amount");
        reveal_strlit("max_fee_rate");
        reveal_strlit("max_parts");
        reveal_strlit("trampoline_hops");
        reveal_strlit("keysend");
        reveal_strlit("udt_type_script");
        reveal_strlit("allow_self_payment");
        reveal_strlit("custom_records");
        reveal_strlit("hop_hints");
        reveal_strlit("dry_run");
        assert forall|j: int| 0 <= j < 17 && j != 13 implies step_key(#[trigger] steps[j]) != Some("allow_self_payment"@) by {
            if j == 0 {
                assert("allow_self_payment"@.len() != "target_pubkey"@.len());
            }
            if j == 1 {
                assert("allow_self_payment"@.len() != "amount"@.len());
            }
            if j == 2 {
                assert("allow_self_payment"@.len() != "payment_hash"@.len());
            }
            if j == 3 {
                assert("allow_self_payment"@.len() != "final_tlc_expiry_delta"@.len());
            }
            if j == 4 {
                assert("allow_self_payment"@.len() != "tlc_expiry_limit"@.len());
            }
            if j == 5 {
                assert("allow_self_payment"@.len() != "invoice"@.len());
            }
            if j == 6 {
                assert("allow_self_payment"@.len() != "timeout"@.len());
            }
            if j == 7 {
                assert("allow_self_payment"@.len() != "max_fee_amount"@.len());
            }
            if j == 8 {
                assert("allow_self_payment"@.len() != "max_fee_rate"@.len());
            }
            if j == 9 {
                assert("allow_self_payment"@.len() != "max_parts"@.len());
            }
            if j == 10 {
                assert("allow_self_payment"@.len() != "trampoline_hops"@.len());
            }
            if j == 11 {
                assert("allow_self_payment"@.len() != "keysend"@.len());
            }
            if j == 12 {
                assert("allow_self_payment"@.len() != "udt_type_script"@.len());
            }
            if j == 14 {
                assert("allow_self_payment"@.len() != "custom_records"@.len());
            }
            if j == 15 {
                assert("allow_self_payment"@.len() != "hop_hints"@.len());
            }
            if j == 16 {
                assert("allow_self_payment"@.len() != "dry_run"@.len());
            }
        }
        lemma_named_field_unique(steps, 13, "allow_self_payment"@);
    }
    lemma_run_steps_field(steps, "custom_records"@);
    lemma_named_field(steps, "custom_records"@);
    assert(run_steps(steps) is Ok ==> named_field(steps, "custom_records"@) == given_json(o.custom_records_json)) by {
        reveal_strlit("target_pubkey");
        reveal_strlit("amount");
        reveal_strlit("payment_hash");
        reveal_strlit("final_tlc_expiry_delta");
        reveal_strlit("tlc_expiry_limit");
        reveal_strlit("invoice");
        reveal_strlit("timeout");
        reveal_strlit("max_fee_amount");
        reveal_strlit("max_fee_rate");
        reveal_strlit("max_parts");
        reveal_strlit("trampoline_hops");
        reveal_strlit("keysend");
        reveal_strlit("udt_type_script");
        reveal_strlit("allow_self_payment");
        reveal_strlit("custom_records");
        reveal_strlit("hop_hints");
        reveal_strlit("dry_run");
        assert forall|j: int| 0 <= j < 17 && j != 14 implies step_key(#[trigger] steps[j]) != Some("custom_records"@) by {
            if j == 0 {
                assert("custom_records"@.len() != "target_pubkey"@.len());
            }
            if j == 1 {
                assert("custom_records"@.len() != "amount"@.len());
            }
            if j == 2 {
                assert("custom_records"@.len() != "payment_hash"@.len());
            }
            if j == 3 {
                assert("custom_records"@.len() != "final_tlc_expiry_delta"@.len());
            }
            if j == 4 {
                assert("custom_records"@.len() != "tlc_expiry_limit"@.len());
            }
            if j == 5 {
                assert("custom_records"@.len() != "invoice"@.len());
            }
            if j == 6 {
                assert("custom_records"@.len() != "timeout"@.len());
            }
            if j == 7 {
                assert("custom_records"@[0] == 'c' && "max_fee_amount"@[0] == 'm');
            }
            if j == 8 {
                assert("custom_records"@.len() != "max_fee_rate"@.len());
            }
            if j == 9 {
                assert("custom_records"@.len() != "max_parts"@.len());
            }
            if j == 10 {
                assert("custom_records"@.len() != "trampoline_hops"@.len());
            }
            if j == 11 {
                assert("custom_records"@.len() != "keysend"@.len());
            }
            if j == 12 {
                assert("custom_records"@.len() != "udt_type_script"@.len());
            }
            if j == 13 {
                assert("custom_records"@.len() != "allow_self_payment"@.len());
            }
            if j == 15 {
                assert("custom_records"@.len() != "hop_hints"@.len());
            }
            if j == 16 {
                assert("custom_records"@.len() != "dry_run"@.len());
            }
        }
        if run_steps(steps) is Ok {
            assert(step_outcome(steps[14]) is Ok);
            lemma_named_field_unique(steps, 14, "custom_records"@);
        }
    }
    lemma_run_steps_field(steps, "hop_hints"@);
    lemma_named_field(steps, "hop_hints"@);
    assert(run_steps(steps) is Ok ==> named_field(steps, "hop_hints"@) == given_json(o.hop_hints_json)) by {
        reveal_strlit("target_pubkey");
        reveal_strlit("amount");
        reveal_strlit("payment_hash");
        reveal_strlit("final_tlc_expiry_delta");
        reveal_strlit("tlc_expiry_limit");
        reveal_strlit("invoice");
        reveal_strlit("timeout");
        reveal_strlit("max_fee_amount");
        reveal_strlit("max_fee_rate");
        reveal_strlit("max_parts");
        reveal_strlit("trampoline_hops");
        reveal_strlit("keysend");
        reveal_strlit("udt_type_script");
        reveal_strlit("allow_self_payment");
        reveal_strlit("custom_records");
        reveal_strlit("hop_hints");
        reveal_strlit("dry_run");
        assert forall|j: int| 0 <= j < 17 && j != 15 implies step_key(#[trigger] steps[j]) != Some("hop_hints"@) by {
            if j == 0 {
                assert("hop_hints"@.len() != "target_pubkey"@.len());
            }
            if j == 1 {
                assert("hop_hints"@.len() != "amount"@.len());
            }
            if j == 2 {
                assert("hop_hints"@.len() != "payment_hash"@.len());
            }
            if j == 3 {
                assert("hop_hints"@.len() != "final_tlc_expiry_delta"@.len());
            }
            if j == 4 {
                assert("hop_hints"@.len() != "tlc_expiry_limit"@.len());
            }
            if j == 5 {
                assert("hop_hints"@.len() != "invoice"@.len());
            }
            if j == 6 {
                assert("hop_hints"@.len() != "timeout"@.len());
            }
            if j == 7 {
                assert("hop_hints"@.len() != "max_fee_amount"@.len());
            }
            if j == 8 {
                assert("hop_hints"@.len() != "max_fee_rate"@.len());
            }
            if j == 9 {
                assert("hop_hints"@[0] == 'h' && "max_parts"@[0] == 'm');
            }
            if j == 10 {
                assert("hop_hints"@.len() != "trampoline_hops"@.len());
            }
            if j == 11 {
                assert("hop_hints"@.len() != "keysend"@.len());
            }
            if j == 12 {
                assert("hop_hints"@.len() != "udt_type_script"@.len());
            }
            if j == 13 {
                assert("hop_hints"@.len() != "allow_self_payment"@.len());
            }
            if j == 14 {
                assert("hop_hints"@.len() != "custom_records"@.len());
            }
            if j == 16 {
                assert("hop_hints"@.len() != "dry_run"@.len());
            }
        }
        if run_steps(steps) is Ok {
            assert(step_outcome(steps[15]) is Ok);
            lemma_named_field_unique(steps, 15, "hop_hints"@);
        }
    }
    lemma_run_steps_field(steps, "dry_run"@);
    lemma_named_field(steps, "dry_run"@);
    assert(named_field(steps, "dry_run"@) == given_flag(o.has_dry_run, o.dry_run)) by {
        reveal_strlit("target_pubkey");
        reveal_strlit("amount");
        reveal_strlit("payment_hash");
        reveal_strlit("final_tlc_expiry_delta");
        reveal_strlit("tlc_expiry_limit");
        reveal_strlit("invoice");
        reveal_strlit("timeout");
        reveal_strlit("max_fee_amount");
        reveal_strlit("max_fee_rate");
        reveal_strlit("max_parts");
        reveal_strlit("trampoline_hops");
        reveal_strlit("keysend");
        reveal_strlit("udt_type_script");
        reveal_strlit("allow_self_payment");
        reveal_strlit("custom_records");
        reveal_strlit("hop_hints");
        reveal_strlit("dry_run");
        assert forall|j: int| 0 <= j < 17 && j != 16 implies step_key(#[trigger] steps[j]) != Some("dry_run"@) by {
            if j == 0 {
                assert("dry_run"@.len() != "target_pubkey"@.len());
            }
            if j == 1 {
                assert("dry_run"@.len() != "amount"@.len());
            }
            if j == 2 {
                assert("dry_run"@.len() != "payment_hash"@.len());
            }
            if j == 3 {
                assert("dry_run"@.len() != "final_tlc_expiry_delta"@.len());
            }
            if j == 4 {
                assert("dry_run"@.len() != "tlc_expiry_limit"@.len());
            }
            if j == 5 {
                assert("dry_run"@[0] == 'd' && "invoice"@[0] == 'i');
            }
            if j == 6 {
                assert("dry_run"@[0] == 'd' && "timeout"@[0] == 't');
            }
            if j == 7 {
                assert("dry_run"@.len() != "max_fee_amount"@.len());
            }
            if j == 8 {
                assert("dry_run"@.len() != "max_fee_rate"@.len());
            }
            if j == 9 {
                assert("dry_run"@.len() != "max_parts"@.len());
            }
            if j == 10 {
                assert("dry_run"@.len() != "trampoline_hops"@.len());
            }
            if j == 11 {
                assert("dry_run"@[0] == 'd' && "keysend"@[0] == 'k');
            }
            if j == 12 {
                assert("dry_run"@.len() != "udt_type_script"@.len());
            }
            if j == 13 {
                assert("dry_run"@.len() != "allow_self_payment"@.len());
            }
            if j == 14 {
                assert("dry_run"@.len() != "custom_records"@.len());
            }
            if j == 15 {
                assert("dry_run"@.len() != "hop_hints"@.len());
            }
        }
        lemma_named_field_unique(steps, 16, "dry_run"@);
    }
}

/// A `build_router` request carries each given option under its own name: a required text or JSON option as given, an optional one only when given and not empty, a flag as whether its value is non-zero, and a quantity as `0x` and its hexadecimal digits, each only when its `has_` flag is set.
pub proof fn lemma_build_router_fields(o: BuildRouterOptions)
    ensures
        run_steps(build_router_steps(o)) matches Ok(fields) ==> {
            &&& field_of(fields, "amount"@) == given_u128_hex(o.has_amount, o.amount)
            &&& field_of(fields, "udt_type_script"@) == given_json(o.udt_type_script_json)
            &&& field_of(fields, "hops_info"@) == Some(ParamView::Json(o.hops_info_json->Text_0@))
            &&& field_of(fields, "final_tlc_expiry_delta"@) == given_u64_hex(o.has_final_tlc_expiry_delta, o.final_tlc_expiry_delta)
        },
{
    let steps = build_router_steps(o);
    lemma_run_steps_ok(steps);
    lemma_run_steps_field(steps, "amount"@);
    lemma_named_field(steps, "amount"@);
    assert(named_field(steps, "amount"@) == given_u128_hex(o.has_amount, o.amount)) by {
        reveal_strlit("amount");
        reveal_strlit("udt_type_script");
        reveal_strlit("hops_info");
        reveal_strlit("final_tlc_expiry_delta");
        assert forall|j: int| 0 <= j < 4 && j != 0 implies step_key(#[trigger] steps[j]) != Some("amount"@) by {
            if j == 1 {
                assert("amount"@.len() != "udt_type_script"@.len());
            }
            if j == 2 {
                assert("amount"@.len() != "hops_info"@.len());
            }
            if j == 3 {
                assert("amount"@.len() != "final_tlc_expiry_delta"@.len());
            }
        }
        lemma_named_field_unique(steps, 0, "amount"@);
    }
    lemma_run_steps_field(steps, "udt_type_script"@);
    lemma_named_field(steps, "udt_type_script"@);
    assert(run_steps(steps) is Ok ==> named_field(steps, "udt_type_script"@) == given_json(o.udt_type_script_json)) by {
        reveal_strlit("amount");
        reveal_strlit("udt_type_script");
        reveal_strlit("hops_info");
        reveal_strlit("final_tlc_expiry_delta");
        assert forall|j: int| 0 <= j < 4 && j != 1 implies step_key(#[trigger] steps[j]) != Some("udt_type_script"@) by {
            if j == 0 {
                assert("udt_type_script"@.len() != "amount"@.len());
            }
            if j == 2 {
                assert("udt_type_script"@.len() != "hops_info"@.len());
            }
            if j == 3 {
                assert("udt_type_script"@.len() != "final_tlc_expiry_delta"@.len());
            }
        }
        if run_steps(steps) is Ok {
            assert(step_outcome(steps[1]) is Ok);
            lemma_named_field_unique(steps, 1, "udt_type_script"@);
        }
    }
    lemma_run_steps_field(steps, "hops_info"@);
    lemma_named_field(steps, "hops_info"@);
    assert(run_steps(steps) is Ok ==> named_field(steps, "hops_info"@) == Some(ParamView::Json(o.hops_info_json->Text_0@))) by {
        reveal_strlit("amount");
        reveal_strlit("udt_type_script");
        reveal_strlit("hops_info");
        reveal_strlit("final_tlc_expiry_delta");
        assert forall|j: int| 0 <= j < 4 && j != 2 implies step_key(#[trigger] steps[j]) != Some("hops_info"@) by {
            if j == 0 {
                assert("hops_info"@.len() != "amount"@.len());
            }
            if j == 1 {
                assert("hops_info"@.len() != "udt_type_script"@.len());
            }
            if j == 3 {
                assert("hops_info"@.len() != "final_tlc_expiry_delta"@.len());
            }
        }
        if run_steps(steps) is Ok {
            assert(step_outcome(steps[2]) is Ok);
            lemma_named_field_unique(steps, 2, "hops_info"@);
        }
    }
    lemma_run_steps_field(steps, "final_tlc_expiry_delta"@);
    lemma_named_field(steps, "final_tlc_expiry_delta"@);
    assert(named_field(steps, "final_tlc_expiry_delta"@) == given_u64_hex(o.has_final_tlc_expiry_delta, o.final_tlc_expiry_delta)) by {
        reveal_strlit("amount");
        reveal_strlit("udt_type_script");
        reveal_strlit("hops_info");
        reveal_strlit("final_tlc_expiry_delta");
        assert forall|j: int| 0 <= j < 4 && j != 3 implies step_key(#[trigger] steps[j]) != Some("final_tlc_expiry_delta"@) by {
            if j == 0 {
                assert("final_tlc_expiry_delta"@.len() != "amount"@.len());
            }
            if j == 1 {
                assert("final_tlc_expiry_delta"@.len() != "udt_type_script"@.len());
            }
            if j == 2 {
                assert("final_tlc_expiry_delta"@.len() != "hops_info"@.len());
            }
        }
        lemma_named_field_unique(steps, 3, "final_tlc_expiry_delta"@);
    }
}

/// A `send_payment_with_router` request carries each given option under its own name: a required text or JSON option as given, an optional one only when given and not empty, a flag as whether its value is non-zero, and a quantity as `0x` and its hexadecimal digits, each only when its `has_` flag is set.
pub proof fn lemma_send_payment_with_router_fields(o: SendPaymentWithRouterOptions)
    ensures
        run_steps(send_payment_with_router_steps(o)) matches Ok(fields) ==> {
            &&& field_of(fields, "payment_hash"@) == given_text(o.payment_hash)
            &&& field_of(fields, "router"@) == Some(ParamView::Json(o.router_json->Text_0@))
            &&& field_of(fields, "invoice"@) == given_text(o.invoice)
            &&& field_of(fields, "custom_records"@) == given_json(o.custom_records_json)
            &&& field_of(fields, "keysend"@) == given_flag(o.has_keysend, o.keysend)
            &&& field_of(fields, "udt_type_script"@) == given_json(o.udt_type_script_json)
            &&& field_of(fields, "dry_run"@) == given_flag(o.has_dry_run, o.dry_run)
        },
{
    let steps = send_payment_with_router_steps(o);
    lemma_run_steps_ok(steps);
    lemma_run_steps_field(steps, "payment_hash"@);
    lemma_named_field(steps, "payment_hash"@);
    assert(named_field(steps, "payment_hash"@) == given_text(o.payment_hash)) by {
        reveal_strlit("payment_hash");
        reveal_strlit("router");
        reveal_strlit("invoice");
        reveal_strlit("custom_records");
        reveal_strlit("keysend");
        reveal_strlit("udt_type_script");
        reveal_strlit("dry_run");
        assert forall|j: int| 0 <= j < 7 && j != 0 implies step_key(#[trigger] steps[j]) != Some("payment_hash"@) by {
            if j == 1 {
                assert("payment_hash"@.len() != "router"@.len());
            }
            if j == 2 {
                assert("payment_hash"@.len() != "invoice"@.len());
            }
            if j == 3 {
                assert("payment_hash"@.len() != "custom_records"@.len());
            }
            if j == 4 {
                assert("payment_hash"@.len() != "keysend"@.len());
            }
            if j == 5 {
                assert("payment_hash"@.len() != "udt_type_script"@.len());
            }
            if j == 6 {
                assert("payment_hash"@.len() != "dry_run"@.len());
            }
        }
        lemma_named_field_unique(steps, 0, "payment_hash"@);
    }
    lemma_run_steps_field(steps, "router"@);
    lemma_named_field(steps, "router"@);
    assert(run_steps(steps) is Ok ==> named_field(steps, "router"@) == Some(ParamView::Json(o.router_json->Text_0@))) by {
        reveal_strlit("payment_hash");
        reveal_strlit("router");
        reveal_strlit("invoice");
        reveal_strlit("custom_records");
        reveal_strlit("keysend");
        reveal_strlit("udt_type_script");
        reveal_strlit("dry_run");
        assert forall|j: int| 0 <= j < 7 && j != 1 implies step_key(#[trigger] steps[j]) != Some("router"@) by {
            if j == 0 {
                assert("router"@.len() != "payment_hash"@.len());
            }
            if j == 2 {
                assert("router"@.len() != "invoice"@.len());
            }
            if j == 3 {
                assert("router"@.len() != "custom_records"@.len());
            }
            if j == 4 {
                assert("router"@.len() != "keysend"@.len());
            }
            if j == 5 {
                assert("router"@.len() != "udt_type_script"@.len());
            }
            if j == 6 {
                assert("router"@.len() != "dry_run"@.len());
            }
        }
        if run_steps(steps) is Ok {
            assert(step_outcome(steps[1]) is Ok);
            lemma_named_field_unique(steps, 1, "router"@);
        }
    }
    lemma_run_steps_field(steps, "invoice"@);
    lemma_named_field(steps, "invoice"@);
    assert(named_field(steps, "invoice"@) == given_text(o.invoice)) by {
        reveal_strlit("payment_hash");
        reveal_strlit("router");
        reveal_strlit("invoice");
        reveal_strlit("custom_records");
        reveal_strlit("keysend");
        reveal_strlit("udt_type_script");
        reveal_strlit("dry_run");
        assert forall|j: int| 0 <= j < 7 && j != 2 implies step_key(#[trigger] steps[j]) != Some("invoice"@) by {
            if j == 0 {
                assert("invoice"@.len() != "payment_hash"@.len());
            }
            if j == 1 {
                assert("invoice"@.len() != "router"@.len());
            }
            if j == 3 {
                assert("invoice"@.len() != "custom_records"@.len());
            }
            if j == 4 {
                assert("invoice"@[0] == 'i' && "keysend"@[0] == 'k');
            }
            if j == 5 {
                assert("invoice"@.len() != "udt_type_script"@.len());
            }
            if j == 6 {
                assert("invoice"@[0] == 'i' && "dry_run"@[0] == 'd');
            }
        }
        lemma_named_field_unique(steps, 2, "invoice"@);
    }
    lemma_run_steps_field(steps, "custom_records"@);
    lemma_named_field(steps, "custom_records"@);
    assert(run_steps(steps) is Ok ==> named_field(steps, "custom_records"@) == given_json(o.custom_records_json)) by {
        reveal_strlit("payment_hash");
        reveal_strlit("router");
        reveal_strlit("invoice");
        reveal_strlit("custom_records");
        reveal_strlit("keysend");
        reveal_strlit("udt_type_script");
        reveal_strlit("dry_run");
        assert forall|j: int| 0 <= j < 7 && j != 3 implies step_key(#[trigger] steps[j]) != Some("custom_records"@) by {
            if j == 0 {
                assert("custom_records"@.len() != "payment_hash"@.len());
            }
            if j == 1 {
                assert("custom_records"@.len() != "router"@.len());
            }
            if j == 2 {
                assert("custom_records"@.len() != "invoice"@.len());
            }
            if j == 4 {
                assert("custom_records"@.len() != "keysend"@.len());
            }
            if j == 5 {
                assert("custom_records"@.len() != "udt_type_script"@.len());
            }
            if j == 6 {
                assert("custom_records"@.len() != "dry_run"@.len());
            }
        }
        if run_steps(steps) is Ok {
            assert(step_outcome(steps[3]) is Ok);
            lemma_named_field_unique(steps, 3, "custom_records"@);
        }
    }
    lemma_run_steps_field(steps, "keysend"@);
    lemma_named_field(steps, "keysend"@);
    assert(named_field(steps, "keysend"@) == given_flag(o.has_keysend, o.keysend)) by {
        reveal_strlit("payment_hash");
        reveal_strlit("router");
        reveal_strlit("invoice");
        reveal_strlit("custom_records");
        reveal_strlit("keysend");
        reveal_strlit("udt_type_script");
        reveal_strlit("dry_run");
        assert forall|j: int| 0 <= j < 7 && j != 4 implies step_key(#[trigger] steps[j]) != Some("keysend"@) by {
            if j == 0 {
                assert("keysend"@.len() != "payment_hash"@.len());
            }
            if j == 1 {
                assert("keysend"@.len() != "router"@.len());
            }
            if j == 2 {
                assert("keysend"@[0] == 'k' && "invoice"@[0] == 'i');
            }
            if j == 3 {
                assert("keysend"@.len() != "custom_records"@.len());
            }
            if j == 5 {
                assert("keysend"@.len() != "udt_type_script"@.len());
            }
            if j == 6 {
                assert("keysend"@[0] == 'k' && "dry_run"@[0] == 'd');
            }
        }
        lemma_named_field_unique(steps, 4, "keysend"@);
    }
    lemma_run_steps_field(steps, "udt_type_script"@);
    lemma_named_field(steps, "udt_type_script"@);
    assert(run_steps(steps) is Ok ==> named_field(steps, "udt_type_script"@) == given_json(o.udt_type_script_json)) by {
        reveal_strlit("payment_hash");
        reveal_strlit("router");
        reveal_strlit("invoice");
        reveal_strlit("custom_records");
        reveal_strlit("keysend");
        reveal_strlit("udt_type_script");
        reveal_strlit("dry_run");
        assert forall|j: int| 0 <= j < 7 && j != 5 implies step_key(#[trigger] steps[j]) != Some("udt_type_script"@) by {
            if j == 0 {
                assert("udt_type_script"@.len() != "payment_hash"@.len());
            }
            if j == 1 {
                assert("udt_type_script"@.len() != "router"@.len());
            }
            if j == 2 {
                assert("udt_type_script"@.len() != "invoice"@.len());
            }
            if j == 3 {
                assert("udt_type_script"@.len() != "custom_records"@.len());
            }
            if j == 4 {
                assert("udt_type_script"@.len() != "keysend"@.len());
            }
            if j == 6 {
                assert("udt_type_script"@.len() != "dry_run"@.len());
            }
        }
        if run_steps(steps) is Ok {
            assert(step_outcome(steps[5]) is Ok);
            lemma_named_field_unique(steps, 5, "udt_type_script"@);
        }
    }
    lemma_run_steps_field(steps, "dry_run"@);
    lemma_named_field(steps, "dry_run"@);
    assert(named_field(steps, "dry_run"@) == given_flag(o.has_dry_run, o.dry_run)) by {
        reveal_strlit("payment_hash");
        reveal_strlit("router");
        reveal_strlit("invoice");
        reveal_strlit("custom_records");
        reveal_strlit("keysend");
        reveal_strlit("udt_type_script");
        reveal_strlit("dry_run");
        assert forall|j: int| 0 <= j < 7 && j != 6 implies step_key(#[trigger] steps[j]) != Some("dry_run"@) by {
            if j == 0 {
                assert("dry_run"@.len() != "payment_hash"@.len());
            }
            if j == 1 {
                assert("dry_run"@.len() != "router"@.len());
            }
            if j == 2 {
                assert("dry_run"@[0] == 'd' && "invoice"@[0] == 'i');
            }
            if j == 3 {
                assert("dry_run"@.len() != "custom_records"@.len());
            }
            if j == 4 {
                assert("dry_run"@[0] == 'd' && "keysend"@[0] == 'k');
            }
            if j == 5 {
                assert("dry_run"@.len() != "udt_type_script"@.len());
            }
        }
        lemma_named_field_unique(steps, 6, "dry_run"@);
    }
}

/// A `list_payments` request filters by the status its code names (1 `Created`, 2 `Inflight`, 3 `Success`, 4 `Failed`, 0 none; any other code is refused) and carries its other options under their own names.
pub proof fn lemma_list_payments_fields(o: ListPaymentsOptions)
    ensures
        !(0 <= o.status <= 4) ==> run_steps(list_payments_steps(o)) is Err,
        run_steps(list_payments_steps(o)) matches Ok(fields) ==> {
            &&& field_of(fields, "status"@) == if o.status == 1 { Some(ParamView::Text("Created"@)) } else if o.status == 2 { Some(ParamView::Text("Inflight"@)) } else if o.status == 3 { Some(ParamView::Text("Success"@)) } else if o.status == 4 { Some(ParamView::Text("Failed"@)) } else { None }
            &&& field_of(fields, "limit"@) == given_u64_hex(o.has_limit, o.limit)
            &&& field_of(fields, "after"@) == given_text(o.after)
        },
{
    let steps = list_payments_steps(o);
    lemma_run_steps_ok(steps);
    if o.status == 0 {
        assert(steps =~= seq![
            FieldStep::OptionalU64Hex { key: "limit", has_value: o.has_limit, value: o.limit },
            FieldStep::OptionalText { key: "after", source: o.after },
        ]);
        lemma_run_steps_field(steps, "limit"@);
        lemma_named_field(steps, "limit"@);
        assert(named_field(steps, "limit"@) == given_u64_hex(o.has_limit, o.limit)) by {
            reveal_strlit("limit");
            reveal_strlit("after");
            reveal_strlit("status");
            assert forall|j: int| 0 <= j < 2 && j != 0 implies step_key(#[trigger] steps[j]) != Some("limit"@) by {
                if j == 1 {
                    assert("limit"@[0] == 'l' && "after"@[0] == 'a');
                }
            }
            lemma_named_field_unique(steps, 0, "limit"@);
        }
        lemma_run_steps_field(steps, "after"@);
        lemma_named_field(steps, "after"@);
        assert(named_field(steps, "after"@) == given_text(o.after)) by {
            reveal_strlit("limit");
            reveal_strlit("after");
            reveal_strlit("status");
            assert forall|j: int| 0 <= j < 2 && j != 1 implies step_key(#[trigger] steps[j]) != Some("after"@) by {
                if j == 0 {
                    assert("after"@[0] == 'a' && "limit"@[0] == 'l');
                }
            }
            lemma_named_field_unique(steps, 1, "after"@);
        }

        lemma_run_steps_field(steps, "status"@);
        lemma_named_field(steps, "status"@);
        assert(named_field(steps, "status"@) is None) by {
            reveal_strlit("limit");
            reveal_strlit("after");
            reveal_strlit("status");
            assert forall|j: int| 0 <= j < 2 implies step_key(#[trigger] steps[j]) != Some("status"@) by {
                if j == 0 {
                assert("status"@.len() != "limit"@.len());
                }
                if j == 1 {
                assert("status"@.len() != "after"@.len());
                }
            }
            lemma_named_field_absent(steps, "status"@);
        }
    } else if 1 <= o.status <= 4 {
        assert(steps =~= seq![
            payment_status_steps(o.status)[0],
            FieldStep::OptionalU64Hex { key: "limit", has_value: o.has_limit, value: o.limit },
            FieldStep::OptionalText { key: "after", source: o.after },
        ]);
        lemma_run_steps_field(steps, "status"@);
        lemma_named_field(steps, "status"@);
        assert(named_field(steps, "status"@) == if o.status == 1 { Some(ParamView::Text("Created"@)) } else if o.status == 2 { Some(ParamView::Text("Inflight"@)) } else if o.status == 3 { Some(ParamView::Text("Success"@)) } else if o.status == 4 { Some(ParamView::Text("Failed"@)) } else { None }) by {
            reveal_strlit("limit");
            reveal_strlit("after");
            reveal_strlit("status");
            assert forall|j: int| 0 <= j < 3 && j != 0 implies step_key(#[trigger] steps[j]) != Some("status"@) by {
                if j == 1 {
                    assert("status"@.len() != "limit"@.len());
                }
                if j == 2 {
                    assert("status"@.len() != "after"@.len());
                }
            }
            lemma_named_field_unique(steps, 0, "status"@);
        }
        lemma_run_steps_field(steps, "limit"@);
        lemma_named_field(steps, "limit"@);
        assert(named_field(steps, "limit"@) == given_u64_hex(o.has_limit, o.limit)) by {
            reveal_strlit("limit");
            reveal_strlit("after");
            reveal_strlit("status");
            assert forall|j: int| 0 <= j < 3 && j != 1 implies step_key(#[trigger] steps[j]) != Some("limit"@) by {
                if j == 0 {
                    assert("limit"@.len() != "status"@.len());
                }
                if j == 2 {
                    assert("limit"@[0] == 'l' && "after"@[0] == 'a');
                }
            }
            lemma_named_field_unique(steps, 1, "limit"@);
        }
        lemma_run_steps_field(steps, "after"@);
        lemma_named_field(steps, "after"@);
        assert(named_field(steps, "after"@) == given_text(o.after)) by {
            reveal_strlit("limit");
            reveal_strlit("after");
            reveal_strlit("status");
            assert forall|j: int| 0 <= j < 3 && j != 2 implies step_key(#[trigger] steps[j]) != Some("after"@) by {
                if j == 0 {
                    assert("after"@.len() != "status"@.len());
                }
                if j == 1 {
                    assert("after"@[0] == 'a' && "limit"@[0] == 'l');
                }
            }
            lemma_named_field_unique(steps, 2, "after"@);
        }

    } else {
        assert(step_outcome(steps[0]) is Err);
    }
}

/// A `new_invoice` request names the currency its code names (1 `Fibb`, 2 `Fibt`, 0 and 3 `Fibd`; any other code is refused) and the hash algorithm its code names (1 `ckb_hash`, 2 `sha256`, 0 left to the node; any other code is refused), and carries its other options under their own names.
pub proof fn lemma_new_invoice_fields(o: NewInvoiceOptions)
    ensures
        !(0 <= o.currency <= 3) ==> run_steps(new_invoice_steps(o)) is Err,
        !(0 <= o.hash_algorithm <= 2) ==> run_steps(new_invoice_steps(o)) is Err,
        run_steps(new_invoice_steps(o)) matches Ok(fields) ==> {
            &&& field_of(fields, "amount"@) == Some(ParamView::Text(hex_quantity(u128_value(o.amount))))
            &&& field_of(fields, "description"@) == given_text(o.description)
            &&& field_of(fields, "currency"@) == if o.currency == 1 { Some(ParamView::Text("Fibb"@)) } else if o.currency == 2 { Some(ParamView::Text("Fibt"@)) } else { Some(ParamView::Text("Fibd"@)) }
            &&& field_of(fields, "payment_preimage"@) == given_text(o.payment_preimage)
            &&& field_of(fields, "payment_hash"@) == given_text(o.payment_hash)
            &&& field_of(fields, "expiry"@) == given_u64_hex(o.has_expiry, o.expiry)
            &&& field_of(fields, "fallback_address"@) == given_text(o.fallback_address)
            &&& field_of(fields, "final_expiry_delta"@) == given_u64_hex(o.has_final_expiry_delta, o.final_expiry_delta)
            &&& field_of(fields, "udt_type_script"@) == given_json(o.udt_type_script_json)
            &&& field_of(fields, "hash_algorithm"@) == if o.hash_algorithm == 1 { Some(ParamView::Text("ckb_hash"@)) } else if o.hash_algorithm == 2 { Some(ParamView::Text("sha256"@)) } else { None }
            &&& field_of(fields, "allow_mpp"@) == given_flag(o.has_allow_mpp, o.allow_mpp)
            &&& field_of(fields, "allow_trampoline_routing"@) == given_flag(o.has_allow_trampoline_routing, o.allow_trampoline_routing)
        },
{
    let steps = new_invoice_steps(o);
    lemma_run_steps_ok(steps);
    if !(0 <= o.currency <= 3) {
        assert(step_outcome(steps[2]) is Err);
    }
    if o.hash_algorithm == 0 {
        lemma_new_invoice_fields_without_hash_algorithm(o);
    } else if o.hash_algorithm == 1 || o.hash_algorithm == 2 {
        lemma_new_invoice_fields_with_hash_algorithm(o);
    } else {
        assert(step_outcome(steps[9]) is Err);
    }
}

proof fn lemma_new_invoice_fields_without_hash_algorithm(o: NewInvoiceOptions)
    requires
        o.hash_algorithm == 0,
    ensures
        run_steps(new_invoice_steps(o)) matches Ok(fields) ==> {
            &&& field_of(fields, "amount"@) == Some(ParamView::Text(hex_quantity(u128_value(o.amount))))
            &&& field_of(fields, "description"@) == given_text(o.description)
            &&& field_of(fields, "currency"@) == if o.currency == 1 { Some(ParamView::Text("Fibb"@)) } else if o.currency == 2 { Some(ParamView::Text("Fibt"@)) } else { Some(ParamView::Text("Fibd"@)) }
            &&& field_of(fields, "payment_preimage"@) == given_text(o.payment_preimage)
            &&& field_of(fields, "payment_hash"@) == given_text(o.payment_hash)
            &&& field_of(fields, "expiry"@) == given_u64_hex(o.has_expiry, o.expiry)
            &&& field_of(fields, "fallback_address"@) == given_text(o.fallback_address)
            &&& field_of(fields, "final_expiry_delta"@) == given_u64_hex(o.has_final_expiry_delta, o.final_expiry_delta)
            &&& field_of(fields, "udt_type_script"@) == given_json(o.udt_type_script_json)
            &&& field_of(fields, "hash_algorithm"@) == if o.hash_algorithm == 1 { Some(ParamView::Text("ckb_hash"@)) } else if o.hash_algorithm == 2 { Some(ParamView::Text("sha256"@)) } else { None }
            &&& field_of(fields, "allow_mpp"@) == given_flag(o.has_allow_mpp, o.allow_mpp)
            &&& field_of(fields, "allow_trampoline_routing"@) == given_flag(o.has_allow_trampoline_routing, o.allow_trampoline_routing)
        },
{
    let steps = new_invoice_steps(o);
    lemma_run_steps_ok(steps);
        assert(steps =~= seq![
            FieldStep::U128Hex { key: "amount", value: o.amount },
            FieldStep::OptionalText { key: "description", source: o.description },
            currency_step(o.currency),
            FieldStep::OptionalText { key: "payment_preimage", source: o.payment_preimage },
            FieldStep::OptionalText { key: "payment_hash", source: o.payment_hash },
            FieldStep::OptionalU64Hex { key: "expiry", has_value: o.has_expiry, value: o.expiry },
            FieldStep::OptionalText { key: "fallback_address", source: o.fallback_address },
            FieldStep::OptionalU64Hex { key: "final_expiry_delta", has_value: o.has_final_expiry_delta, value: o.final_expiry_delta },
            FieldStep::OptionalJson { key: "udt_type_script", source: o.udt_type_script_json },
            FieldStep::OptionalBool { key: "allow_mpp", has_value: o.has_allow_mpp, value: o.allow_mpp },
            FieldStep::OptionalBool { key: "allow_trampoline_routing", has_value: o.has_allow_trampoline_routing, value: o.allow_trampoline_routing },
        ]);
        lemma_run_steps_field(steps, "amount"@);
        lemma_named_field(steps, "amount"@);
        assert(named_field(steps, "amount"@) == Some(ParamView::Text(hex_quantity(u128_value(o.amount))))) by {
            reveal_strlit("amount");
            reveal_strlit("description");
            reveal_strlit("currency");
            reveal_strlit("payment_preimage");
            reveal_strlit("payment_hash");
            reveal_strlit("expiry");
            reveal_strlit("fallback_address");
            reveal_strlit("final_expiry_delta");
            reveal_strlit("udt_type_script");
            reveal_strlit("allow_mpp");
            reveal_strlit("allow_trampoline_routing");
            reveal_strlit("hash_algorithm");
            assert forall|j: int| 0 <= j < 11 && j != 0 implies step_key(#[trigger] steps[j]) != Some("amount"@) by {
                if j == 1 {
                    assert("amount"@.len() != "description"@.len());
                }
                if j == 2 {
                    assert("amount"@.len() != "currency"@.len());
                }
                if j == 3 {
                    assert("amount"@.len() != "payment_preimage"@.len());
                }
                if j == 4 {
                    assert("amount"@.len() != "payment_hash"@.len());
                }
                if j == 5 {
                    assert("amount"@[0] == 'a' && "expiry"@[0] == 'e');
                }
                if j == 6 {
                    assert("amount"@.len() != "fallback_address"@.len());
                }
                if j == 7 {
                    assert("amount"@.len() != "final_expiry_delta"@.len());
                }
                if j == 8 {
                    assert("amount"@.len() != "udt_type_script"@.len());
                }
                if j == 9 {
                    assert("amount"@.len() != "allow_mpp"@.len());
                }
                if j == 10 {
                    assert("amount"@.len() != "allow_trampoline_routing"@.len());
                }
            }
            lemma_named_field_unique(steps, 0, "amount"@);
        }
        lemma_run_steps_field(steps, "description"@);
        lemma_named_field(steps, "description"@);
        assert(named_field(steps, "description"@) == given_text(o.description)) by {
            reveal_strlit("amount");
            reveal_strlit("description");
            reveal_strlit("currency");
            reveal_strlit("payment_preimage");
            reveal_strlit("payment_hash");
            reveal_strlit("expiry");
            reveal_strlit("fallback_address");
            reveal_strlit("final_expiry_delta");
            reveal_strlit("udt_type_script");
            reveal_strlit("allow_mpp");
            reveal_strlit("allow_trampoline_routing");
            reveal_strlit("hash_algorithm");
            assert forall|j: int| 0 <= j < 11 && j != 1 implies step_key(#[trigger] steps[j]) != Some("description"@) by {
                if j == 0 {
                    assert("description"@.len() != "amount"@.len());
                }
                if j == 2 {
                    assert("description"@.len() != "currency"@.len());
                }
                if j == 3 {
                    assert("description"@.len() != "payment_preimage"@.len());
                }
                if j == 4 {
                    assert("description"@.len() != "payment_hash"@.len());
                }
                if j == 5 {
                    assert("description"@.len() != "expiry"@.len());
                }
                if j == 6 {
                    assert("description"@.len() != "fallback_address"@.len());
                }
                if j == 7 {
                    assert("description"@.len() != "final_expiry_delta"@.len());
                }
                if j == 8 {
                    assert("description"@.len() != "udt_type_script"@.len());
                }
                if j == 9 {
                    assert("description"@.len() != "allow_mpp"@.len());
                }
                if j == 10 {
                    assert("description"@.len() != "allow_trampoline_routing"@.len());
                }
            }
            lemma_named_field_unique(steps, 1, "description"@);
        }
        lemma_run_steps_field(steps, "currency"@);
        lemma_named_field(steps, "currency"@);
        assert(run_steps(steps) is Ok ==> named_field(steps, "currency"@) == if o.currency == 1 { Some(ParamView::Text("Fibb"@)) } else if o.currency == 2 { Some(ParamView::Text("Fibt"@)) } else { Some(ParamView::Text("Fibd"@)) }) by {
            reveal_strlit("amount");
            reveal_strlit("description");
            reveal_strlit("currency");
            reveal_strlit("payment_preimage");
            reveal_strlit("payment_hash");
            reveal_strlit("expiry");
            reveal_strlit("fallback_address");
            reveal_strlit("final_expiry_delta");
            reveal_strlit("udt_type_script");
            reveal_strlit("allow_mpp");
            reveal_strlit("allow_trampoline_routing");
            reveal_strlit("hash_algorithm");
            assert forall|j: int| 0 <= j < 11 && j != 2 implies step_key(#[trigger] steps[j]) != Some("currency"@) by {
                if j == 0 {
                    assert("currency"@.len() != "amount"@.len());
                }
                if j == 1 {
                    assert("currency"@.len() != "description"@.len());
                }
                if j == 3 {
                    assert("currency"@.len() != "payment_preimage"@.len());
                }
                if j == 4 {
                    assert("currency"@.len() != "payment_hash"@.len());
                }
                if j == 5 {
                    assert("currency"@.len() != "expiry"@.len());
                }
                if j == 6 {
                    assert("currency"@.len() != "fallback_address"@.len());
                }
                if j == 7 {
                    assert("currency"@.len() != "final_expiry_delta"@.len());
                }
                if j == 8 {
                    assert("currency"@.len() != "udt_type_script"@.len());
                }
                if j == 9 {
                    assert("currency"@.len() != "allow_mpp"@.len());
                }
                if j == 10 {
                    assert("currency"@.len() != "allow_trampoline_routing"@.len());
                }
            }
            if run_steps(steps) is Ok {
                assert(step_outcome(steps[2]) is Ok);
                lemma_named_field_unique(steps, 2, "currency"@);
            }
        }
        lemma_run_steps_field(steps, "payment_preimage"@);
        lemma_named_field(steps, "payment_preimage"@);
        assert(named_field(steps, "payment_preimage"@) == given_text(o.payment_preimage)) by {
            reveal_strlit("amount");
            reveal_strlit("description");
            reveal_strlit("currency");
            reveal_strlit("payment_preimage");
            reveal_strlit("payment_hash");
            reveal_strlit("expiry");
            reveal_strlit("fallback_address");
            reveal_strlit("final_expiry_delta");
            reveal_strlit("udt_type_script");
            reveal_strlit("allow_mpp");
            reveal_strlit("allow_trampoline_routing");
            reveal_strlit("hash_algorithm");
            assert forall|j: int| 0 <= j < 11 && j != 3 implies step_key(#[trigger] steps[j]) != Some("payment_preimage"@) by {
                if j == 0 {
                    assert("payment_preimage"@.len() != "amount"@.len());
                }
                if j == 1 {
                    assert("payment_preimage"@.len() != "description"@.len());
                }
                if j == 2 {
                    assert("payment_preimage"@.len() != "currency"@.len());
                }
                if j == 4 {
                    assert("payment_preimage"@.len() != "payment_hash"@.len());
                }
                if j == 5 {
                    assert("payment_preimage"@.len() != "expiry"@.len());
                }
                if j == 6 {
                    assert("payment_preimage"@[0] == 'p' && "fallback_address"@[0] == 'f');
                }
                if j == 7 {
                    assert("payment_preimage"@.len() != "final_expiry_delta"@.len());
                }
                if j == 8 {
                    assert("payment_preimage"@.len() != "udt_type_script"@.len());
                }
                if j == 9 {
                    assert("payment_preimage"@.len() != "allow_mpp"@.len());
                }
                if j == 10 {
                    assert("payment_preimage"@.len() != "allow_trampoline_routing"@.len());
                }
            }
            lemma_named_field_unique(steps, 3, "payment_preimage"@);
        }
        lemma_run_steps_field(steps, "payment_hash"@);
        lemma_named_field(steps, "payment_hash"@);
        assert(named_field(steps, "payment_hash"@) == given_text(o.payment_hash)) by {
            reveal_strlit("amount");
            reveal_strlit("description");
            reveal_strlit("currency");
            reveal_strlit("payment_preimage");
            reveal_strlit("payment_hash");
            reveal_strlit("expiry");
            reveal_strlit("fallback_address");
            reveal_strlit("final_expiry_delta");
            reveal_strlit("udt_type_script");
            reveal_strlit("allow_mpp");
            reveal_strlit("allow_trampoline_routing");
            reveal_strlit("hash_algorithm");
            assert forall|j: int| 0 <= j < 11 && j != 4 implies step_key(#[trigger] steps[j]) != Some("payment_hash"@) by {
                if j == 0 {
                    assert("payment_hash"@.len() != "amount"@.len());
                }
                if j == 1 {
                    assert("payment_hash"@.len() != "description"@.len());
                }
                if j == 2 {
                    assert("payment_hash"@.len() != "currency"@.len());
                }
                if j == 3 {
                    assert("payment_hash"@.len() != "payment_preimage"@.len());
                }
                if j == 5 {
                    assert("payment_hash"@.len() != "expiry"@.len());
                }
                if j == 6 {
                    assert("payment_hash"@.len() != "fallback_address"@.len());
                }
                if j == 7 {
                    assert("payment_hash"@.len() != "final_expiry_delta"@.len());
                }
                if j == 8 {
                    assert("payment_hash"@.len() != "udt_type_script"@.len());
                }
                if j == 9 {
                    assert("payment_hash"@.len() != "allow_mpp"@.len());
                }
                if j == 10 {
                    assert("payment_hash"@.len() != "allow_trampoline_routing"@.len());
                }
            }
            lemma_named_field_unique(steps, 4, "payment_hash"@);
        }
        lemma_run_steps_field(steps, "expiry"@);
        lemma_named_field(steps, "expiry"@);
        assert(named_field(steps, "expiry"@) == given_u64_hex(o.has_expiry, o.expiry)) by {
            reveal_strlit("amount");
            reveal_strlit("description");
            reveal_strlit("currency");
            reveal_strlit("payment_preimage");
            reveal_strlit("payment_hash");
            reveal_strlit("expiry");
            reveal_strlit("fallback_address");
            reveal_strlit("final_expiry_delta");
            reveal_strlit("udt_type_script");
            reveal_strlit("allow_mpp");
            reveal_strlit("allow_trampoline_routing");
            reveal_strlit("hash_algorithm");
            assert forall|j: int| 0 <= j < 11 && j != 5 implies step_key(#[trigger] steps[j]) != Some("expiry"@) by {
                if j == 0 {
                    assert("expiry"@[0] == 'e' && "amount"@[0] == 'a');
                }
                if j == 1 {
                    assert("expiry"@.len() != "description"@.len());
                }
                if j == 2 {
                    assert("expiry"@.len() != "currency"@.len());
                }
                if j == 3 {
                    assert("expiry"@.len() != "payment_preimage"@.len());
                }
                if j == 4 {
                    assert("expiry"@.len() != "payment_hash"@.len());
                }
                if j == 6 {
                    assert("expiry"@.len() != "fallback_address"@.len());
                }
                if j == 7 {
                    assert("expiry"@.len() != "final_expiry_delta"@.len());
                }
                if j == 8 {
                    assert("expiry"@.len() != "udt_type_script"@.len());
                }
                if j == 9 {
                    assert("expiry"@.len() != "allow_mpp"@.len());
                }
                if j == 10 {
                    assert("expiry"@.len() != "allow_trampoline_routing"@.len());
                }
            }
            lemma_named_field_unique(steps, 5, "expiry"@);
        }
        lemma_run_steps_field(steps, "fallback_address"@);
        lemma_named_field(steps, "fallback_address"@);
        assert(named_field(steps, "fallback_address"@) == given_text(o.fallback_address)) by {
            reveal_strlit("amount");
            reveal_strlit("description");
            reveal_strlit("currency");
            reveal_strlit("payment_preimage");
            reveal_strlit("payment_hash");
            reveal_strlit("expiry");
            reveal_strlit("fallback_address");
            reveal_strlit("final_expiry_delta");
            reveal_strlit("udt_type_script");
            reveal_strlit("allow_mpp");
            reveal_strlit("allow_trampoline_routing");
            reveal_strlit("hash_algorithm");
            assert forall|j: int| 0 <= j < 11 && j != 6 implies step_key(#[trigger] steps[j]) != Some("fallback_address"@) by {
                if j == 0 {
                    assert("fallback_address"@.len() != "amount"@.len());
                }
                if j == 1 {
                    assert("fallback_address"@.len() != "description"@.len());
                }
                if j == 2 {
                    assert("fallback_address"@.len() != "currency"@.len());
                }
                if j == 3 {
                    assert("fallback_address"@[0] == 'f' && "payment_preimage"@[0] == 'p');
                }
                if j == 4 {
                    assert("fallback_address"@.len() != "payment_hash"@.len());
                }
                if j == 5 {
                    assert("fallback_address"@.len() != "expiry"@.len());
                }
                if j == 7 {
                    assert("fallback_address"@.len() != "final_expiry_delta"@.len());
                }
                if j == 8 {
                    assert("fallback_address"@.len() != "udt_type_script"@.len());
                }
                if j == 9 {
                    assert("fallback_address"@.len() != "allow_mpp"@.len());
                }
                if j == 10 {
                    assert("fallback_address"@.len() != "allow_trampoline_routing"@.len());
                }
            }
            lemma_named_field_unique(steps, 6, "fallback_address"@);
        }
        lemma_run_steps_field(steps, "final_expiry_delta"@);
        lemma_named_field(steps, "final_expiry_delta"@);
        assert(named_field(steps, "final_expiry_delta"@) == given_u64_hex(o.has_final_expiry_delta, o.final_expiry_delta)) by {
            reveal_strlit("amount");
            reveal_strlit("description");
            reveal_strlit("currency");
            reveal_strlit("payment_preimage");
            reveal_strlit("payment_hash");
            reveal_strlit("expiry");
            reveal_strlit("fallback_address");
            reveal_strlit("final_expiry_delta");
            reveal_strlit("udt_type_script");
            reveal_strlit("allow_mpp");
            reveal_strlit("allow_trampoline_routing");
            reveal_strlit("hash_algorithm");
            assert forall|j: int| 0 <= j < 11 && j != 7 implies step_key(#[trigger] steps[j]) != Some("final_expiry_delta"@) by {
                if j == 0 {
                    assert("final_expiry_delta"@.len() != "amount"@.len());
                }
                if j == 1 {
                    assert("final_expiry_delta"@.len() != "description"@.len());
                }
                if j == 2 {
                    assert("final_expiry_delta"@.len() != "currency"@.len());
                }
                if j == 3 {
                    assert("final_expiry_delta"@.len() != "payment_preimage"@.len());
                }
                if j == 4 {
                    assert("final_expiry_delta"@.len() != "payment_hash"@.len());
                }
                if j == 5 {
                    assert("final_expiry_delta"@.len() != "expiry"@.len());
                }
                if j == 6 {
                    assert("final_expiry_delta"@.len() != "fallback_address"@.len());
                }
                if j == 8 {
                    assert("final_expiry_delta"@.len() != "udt_type_script"@.len());
                }
                if j == 9 {
                    assert("final_expiry_delta"@.len() != "allow_mpp"@.len());
                }
                if j == 10 {
                    assert("final_expiry_delta"@.len() != "allow_trampoline_routing"@.len());
                }
            }
            lemma_named_field_unique(steps, 7, "final_expiry_delta"@);
        }
        lemma_run_steps_field(steps, "udt_type_script"@);
        lemma_named_field(steps, "udt_type_script"@);
        assert(run_steps(steps) is Ok ==> named_field(steps, "udt_type_script"@) == given_json(o.udt_type_script_json)) by {
            reveal_strlit("amount");
            reveal_strlit("description");
            reveal_strlit("currency");
            reveal_strlit("payment_preimage");
            reveal_strlit("payment_hash");
            reveal_strlit("expiry");
            reveal_strlit("fallback_address");
            reveal_strlit("final_expiry_delta");
            reveal_strlit("udt_type_script");
            reveal_strlit("allow_mpp");
            reveal_strlit("allow_trampoline_routing");
            reveal_strlit("hash_algorithm");
            assert forall|j: int| 0 <= j < 11 && j != 8 implies step_key(#[trigger] steps[j]) != Some("udt_type_script"@) by {
                if j == 0 {
                    assert("udt_type_script"@.len() != "amount"@.len());
                }
                if j == 1 {
                    assert("udt_type_script"@.len() != "description"@.len());
                }
                if j == 2 {
                    assert("udt_type_script"@.len() != "currency"@.len());
                }
                if j == 3 {
                    assert("udt_type_script"@.len() != "payment_preimage"@.len());
                }
                if j == 4 {
                    assert("udt_type_script"@.len() != "payment_hash"@.len());
                }
                if j == 5 {
                    assert("udt_type_script"@.len() != "expiry"@.len());
                }
                if j == 6 {
                    assert("udt_type_script"@.len() != "fallback_address"@.len());
                }
                if j == 7 {
                    assert("udt_type_script"@.len() != "final_expiry_delta"@.len());
                }
                if j == 9 {
                    assert("udt_type_script"@.len() != "allow_mpp"@.len());
                }
                if j == 10 {
                    assert("udt_type_script"@.len() != "allow_trampoline_routing"@.len());
                }
            }
            if run_steps(steps) is Ok {
                assert(step_outcome(steps[8]) is Ok);
                lemma_named_field_unique(steps, 8, "udt_type_script"@);
            }
        }
        lemma_run_steps_field(steps, "allow_mpp"@);
        lemma_named_field(steps, "allow_mpp"@);
        assert(named_field(steps, "allow_mpp"@) == given_flag(o.has_allow_mpp, o.allow_mpp)) by {
            reveal_strlit("amount");
            reveal_strlit("description");
            reveal_strlit("currency");
            reveal_strlit("payment_preimage");
            reveal_strlit("payment_hash");
            reveal_strlit("expiry");
            reveal_strlit("fallback_address");
            reveal_strlit("final_expiry_delta");
            reveal_strlit("udt_type_script");
            reveal_strlit("allow_mpp");
            reveal_strlit("allow_trampoline_routing");
            reveal_strlit("hash_algorithm");
            assert forall|j: int| 0 <= j < 11 && j != 9 implies step_key(#[trigger] steps[j]) != Some("allow_mpp"@) by {
                if j == 0 {
                    assert("allow_mpp"@.len() != "amount"@.len());
                }
                if j == 1 {
                    assert("allow_mpp"@.len() != "description"@.len());
                }
                if j == 2 {
                    assert("allow_mpp"@.len() != "currency"@.len());
                }
                if j == 3 {
                    assert("allow_mpp"@.len() != "payment_preimage"@.len());
                }
                if j == 4 {
                    assert("allow_mpp"@.len() != "payment_hash"@.len());
                }
                if j == 5 {
                    assert("allow_mpp"@.len() != "expiry"@.len());
                }
                if j == 6 {
                    assert("allow_mpp"@.len() != "fallback_address"@.len());
                }
                if j == 7 {
                    assert("allow_mpp"@.len() != "final_expiry_delta"@.len());
                }
                if j == 8 {
                    assert("allow_mpp"@.len() != "udt_type_script"@.len());
                }
                if j == 10 {
                    assert("allow_mpp"@.len() != "allow_trampoline_routing"@.len());
                }
            }
            lemma_named_field_unique(steps, 9, "allow_mpp"@);
        }
        lemma_run_steps_field(steps, "allow_trampoline_routing"@);
        lemma_named_field(steps, "allow_trampoline_routing"@);
        assert(named_field(steps, "allow_trampoline_routing"@) == given_flag(o.has_allow_trampoline_routing, o.allow_trampoline_routing)) by {
            reveal_strlit("amount");
            reveal_strlit("description");
            reveal_strlit("currency");
            reveal_strlit("payment_preimage");
            reveal_strlit("payment_hash");
            reveal_strlit("expiry");
            reveal_strlit("fallback_address");
            reveal_strlit("final_expiry_delta");
            reveal_strlit("udt_type_script");
            reveal_strlit("allow_mpp");
            reveal_strlit("allow_trampoline_routing");
            reveal_strlit("hash_algorithm");
            assert forall|j: int| 0 <= j < 11 && j != 10 implies step_key(#[trigger] steps[j]) != Some("allow_trampoline_routing"@) by {
                if j == 0 {
                    assert("allow_trampoline_routing"@.len() != "amount"@.len());
                }
                if j == 1 {
                    assert("allow_trampoline_routing"@.len() != "description"@.len());
                }
                if j == 2 {
                    assert("allow_trampoline_routing"@.len() != "currency"@.len());
                }
                if j == 3 {
                    assert("allow_trampoline_routing"@.len() != "payment_preimage"@.len());
                }
                if j == 4 {
                    assert("allow_trampoline_routing"@.len() != "payment_hash"@.len());
                }
                if j == 5 {
                    assert("allow_trampoline_routing"@.len() != "expiry"@.len());
                }
                if j == 6 {
                    assert("allow_trampoline_routing"@.len() != "fallback_address"@.len());
                }
                if j == 7 {
                    assert("allow_trampoline_routing"@.len() != "final_expiry_delta"@.len());
                }
                if j == 8 {
                    assert("allow_trampoline_routing"@.len() != "udt_type_script"@.len());
                }
                if j == 9 {
                    assert("allow_trampoline_routing"@.len() != "allow_mpp"@.len());
                }
            }
            lemma_named_field_unique(steps, 10, "allow_trampoline_routing"@);
        }

        lemma_run_steps_field(steps, "hash_algorithm"@);
        lemma_named_field(steps, "hash_algorithm"@);
        assert(named_field(steps, "hash_algorithm"@) is None) by {
            reveal_strlit("amount");
            reveal_strlit("description");
            reveal_strlit("currency");
            reveal_strlit("payment_preimage");
            reveal_strlit("payment_hash");
            reveal_strlit("expiry");
            reveal_strlit("fallback_address");
            reveal_strlit("final_expiry_delta");
            reveal_strlit("udt_type_script");
            reveal_strlit("allow_mpp");
            reveal_strlit("allow_trampoline_routing");
            reveal_strlit("hash_algorithm");
            assert forall|j: int| 0 <= j < 11 implies step_key(#[trigger] steps[j]) != Some("hash_algorithm"@) by {
                if j == 0 {
                assert("hash_algorithm"@.len() != "amount"@.len());
                }
                if j == 1 {
                assert("hash_algorithm"@.len() != "description"@.len());
                }
                if j == 2 {
                assert("hash_algorithm"@.len() != "currency"@.len());
                }
                if j == 3 {
                assert("hash_algorithm"@.len() != "payment_preimage"@.len());
                }
                if j == 4 {
                assert("hash_algorithm"@.len() != "payment_hash"@.len());
                }
                if j == 5 {
                assert("hash_algorithm"@.len() != "expiry"@.len());
                }
                if j == 6 {
                assert("hash_algorithm"@.len() != "fallback_address"@.len());
                }
                if j == 7 {
                assert("hash_algorithm"@.len() != "final_expiry_delta"@.len());
                }
                if j == 8 {
                assert("hash_algorithm"@.len() != "udt_type_script"@.len());
                }
                if j == 9 {
                assert("hash_algorithm"@.len() != "allow_mpp"@.len());
                }
                if j == 10 {
                assert("hash_algorithm"@.len() != "allow_trampoline_routing"@.len());
                }
            }
            lemma_named_field_absent(steps, "hash_algorithm"@);
        }
}

proof fn lemma_new_invoice_fields_with_hash_algorithm(o: NewInvoiceOptions)
    requires
        o.hash_algorithm == 1 || o.hash_algorithm == 2,
    ensures
        run_steps(new_invoice_steps(o)) matches Ok(fields) ==> {
            &&& field_of(fields, "amount"@) == Some(ParamView::Text(hex_quantity(u128_value(o.amount))))
            &&& field_of(fields, "description"@) == given_text(o.description)
            &&& field_of(fields, "currency"@) == if o.currency == 1 { Some(ParamView::Text("Fibb"@)) } else if o.currency == 2 { Some(ParamView::Text("Fibt"@)) } else { Some(ParamView::Text("Fibd"@)) }
            &&& field_of(fields, "payment_preimage"@) == given_text(o.payment_preimage)
            &&& field_of(fields, "payment_hash"@) == given_text(o.payment_hash)
            &&& field_of(fields, "expiry"@) == given_u64_hex(o.has_expiry, o.expiry)
            &&& field_of(fields, "fallback_address"@) == given_text(o.fallback_address)
            &&& field_of(fields, "final_expiry_delta"@) == given_u64_hex(o.has_final_expiry_delta, o.final_expiry_delta)
            &&& field_of(fields, "udt_type_script"@) == given_json(o.udt_type_script_json)
            &&& field_of(fields, "hash_algorithm"@) == if o.hash_algorithm == 1 { Some(ParamView::Text("ckb_hash"@)) } else if o.hash_algorithm == 2 { Some(ParamView::Text("sha256"@)) } else { None }
            &&& field_of(fields, "allow_mpp"@) == given_flag(o.has_allow_mpp, o.allow_mpp)
            &&& field_of(fields, "allow_trampoline_routing"@) == given_flag(o.has_allow_trampoline_routing, o.allow_trampoline_routing)
        },
{
    let steps = new_invoice_steps(o);
    lemma_run_steps_ok(steps);
        assert(steps =~= seq![
            FieldStep::U128Hex { key: "amount", value: o.amount },
            FieldStep::OptionalText { key: "description", source: o.description },
            currency_step(o.currency),
            FieldStep::OptionalText { key: "payment_preimage", source: o.payment_preimage },
            FieldStep::OptionalText { key: "payment_hash", source: o.payment_hash },
            FieldStep::OptionalU64Hex { key: "expiry", has_value: o.has_expiry, value: o.expiry },
            FieldStep::OptionalText { key: "fallback_address", source: o.fallback_address },
            FieldStep::OptionalU64Hex { key: "final_expiry_delta", has_value: o.has_final_expiry_delta, value: o.final_expiry_delta },
            FieldStep::OptionalJson { key: "udt_type_script", source: o.udt_type_script_json },
            hash_algorithm_steps(o.hash_algorithm)[0],
            FieldStep::OptionalBool { key: "allow_mpp", has_value: o.has_allow_mpp, value: o.allow_mpp },
            FieldStep::OptionalBool { key: "allow_trampoline_routing", has_value: o.has_allow_trampoline_routing, value: o.allow_trampoline_routing },
        ]);
        lemma_run_steps_field(steps, "amount"@);
        lemma_named_field(steps, "amount"@);
        assert(named_field(steps, "amount"@) == Some(ParamView::Text(hex_quantity(u128_value(o.amount))))) by {
            reveal_strlit("amount");
            reveal_strlit("description");
            reveal_strlit("currency");
            reveal_strlit("payment_preimage");
            reveal_strlit("payment_hash");
            reveal_strlit("expiry");
            reveal_strlit("fallback_address");
            reveal_strlit("final_expiry_delta");
            reveal_strlit("udt_type_script");
            reveal_strlit("allow_mpp");
            reveal_strlit("allow_trampoline_routing");
            reveal_strlit("hash_algorithm");
            assert forall|j: int| 0 <= j < 12 && j != 0 implies step_key(#[trigger] steps[j]) != Some("amount"@) by {
                if j == 1 {
                    assert("amount"@.len() != "description"@.len());
                }
                if j == 2 {
                    assert("amount"@.len() != "currency"@.len());
                }
                if j == 3 {
                    assert("amount"@.len() != "payment_preimage"@.len());
                }
                if j == 4 {
                    assert("amount"@.len() != "payment_hash"@.len());
                }
                if j == 5 {
                    assert("amount"@[0] == 'a' && "expiry"@[0] == 'e');
                }
                if j == 6 {
                    assert("amount"@.len() != "fallback_address"@.len());
                }
                if j == 7 {
                    assert("amount"@.len() != "final_expiry_delta"@.len());
                }
                if j == 8 {
                    assert("amount"@.len() != "udt_type_script"@.len());
                }
                if j == 9 {
                    assert("amount"@.len() != "hash_algorithm"@.len());
                }
                if j == 10 {
                    assert("amount"@.len() != "allow_mpp"@.len());
                }
                if j == 11 {
                    assert("amount"@.len() != "allow_trampoline_routing"@.len());
                }
            }
            lemma_named_field_unique(steps, 0, "amount"@);
        }
        lemma_run_steps_field(steps, "description"@);
        lemma_named_field(steps, "description"@);
        assert(named_field(steps, "description"@) == given_text(o.description)) by {
            reveal_strlit("amount");
            reveal_strlit("description");
            reveal_strlit("currency");
            reveal_strlit("payment_preimage");
            reveal_strlit("payment_hash");
            reveal_strlit("expiry");
            reveal_strlit("fallback_address");
            reveal_strlit("final_expiry_delta");
            reveal_strlit("udt_type_script");
            reveal_strlit("allow_mpp");
            reveal_strlit("allow_trampoline_routing");
            reveal_strlit("hash_algorithm");
            assert forall|j: int| 0 <= j < 12 && j != 1 implies step_key(#[trigger] steps[j]) != Some("description"@) by {
                if j == 0 {
                    assert("description"@.len() != "amount"@.len());
                }
                if j == 2 {
                    assert("description"@.len() != "currency"@.len());
                }
                if j == 3 {
                    assert("description"@.len() != "payment_preimage"@.len());
                }
                if j == 4 {
                    assert("description"@.len() != "payment_hash"@.len());
                }
                if j == 5 {
                    assert("description"@.len() != "expiry"@.len());
                }
                if j == 6 {
                    assert("description"@.len() != "fallback_address"@.len());
                }
                if j == 7 {
                    assert("description"@.len() != "final_expiry_delta"@.len());
                }
                if j == 8 {
                    assert("description"@.len() != "udt_type_script"@.len());
                }
                if j == 9 {
                    assert("description"@.len() != "hash_algorithm"@.len());
                }
                if j == 10 {
                    assert("description"@.len() != "allow_mpp"@.len());
                }
                if j == 11 {
                    assert("description"@.len() != "allow_trampoline_routing"@.len());
                }
            }
            lemma_named_field_unique(steps, 1, "description"@);
        }
        lemma_run_steps_field(steps, "currency"@);
        lemma_named_field(steps, "currency"@);
        assert(run_steps(steps) is Ok ==> named_field(steps, "currency"@) == if o.currency == 1 { Some(ParamView::Text("Fibb"@)) } else if o.currency == 2 { Some(ParamView::Text("Fibt"@)) } else { Some(ParamView::Text("Fibd"@)) }) by {
            reveal_strlit("amount");
            reveal_strlit("description");
            reveal_strlit("currency");
            reveal_strlit("payment_preimage");
            reveal_strlit("payment_hash");
            reveal_strlit("expiry");
            reveal_strlit("fallback_address");
            reveal_strlit("final_expiry_delta");
            reveal_strlit("udt_type_script");
            reveal_strlit("allow_mpp");
            reveal_strlit("allow_trampoline_routing");
            reveal_strlit("hash_algorithm");
            assert forall|j: int| 0 <= j < 12 && j != 2 implies step_key(#[trigger] steps[j]) != Some("currency"@) by {
                if j == 0 {
                    assert("currency"@.len() != "amount"@.len());
                }
                if j == 1 {
                    assert("currency"@.len() != "description"@.len());
                }
                if j == 3 {
                    assert("currency"@.len() != "payment_preimage"@.len());
                }
                if j == 4 {
                    assert("currency"@.len() != "payment_hash"@.len());
                }
                if j == 5 {
                    assert("currency"@.len() != "expiry"@.len());
                }
                if j == 6 {
                    assert("currency"@.len() != "fallback_address"@.len());
                }
                if j == 7 {
                    assert("currency"@.len() != "final_expiry_delta"@.len());
                }
                if j == 8 {
                    assert("currency"@.len() != "udt_type_script"@.len());
                }
                if j == 9 {
                    assert("currency"@.len() != "hash_algorithm"@.len());
                }
                if j == 10 {
                    assert("currency"@.len() != "allow_mpp"@.len());
                }
                if j == 11 {
                    assert("currency"@.len() != "allow_trampoline_routing"@.len());
                }
            }
            if run_steps(steps) is Ok {
                assert(step_outcome(steps[2]) is Ok);
                lemma_named_field_unique(steps, 2, "currency"@);
            }
        }
        lemma_run_steps_field(steps, "payment_preimage"@);
        lemma_named_field(steps, "payment_preimage"@);
        assert(named_field(steps, "payment_preimage"@) == given_text(o.payment_preimage)) by {
            reveal_strlit("amount");
            reveal_strlit("description");
            reveal_strlit("currency");
            reveal_strlit("payment_preimage");
            reveal_strlit("payment_hash");
            reveal_strlit("expiry");
            reveal_strlit("fallback_address");
            reveal_strlit("final_expiry_delta");
            reveal_strlit("udt_type_script");
            reveal_strlit("allow_mpp");
            reveal_strlit("allow_trampoline_routing");
            reveal_strlit("hash_algorithm");
            assert forall|j: int| 0 <= j < 12 && j != 3 implies step_key(#[trigger] steps[j]) != Some("payment_preimage"@) by {
                if j == 0 {
                    assert("payment_preimage"@.len() != "amount"@.len());
                }
                if j == 1 {
                    assert("payment_preimage"@.len() != "description"@.len());
                }
                if j == 2 {
                    assert("payment_preimage"@.len() != "currency"@.len());
                }
                if j == 4 {
                    assert("payment_preimage"@.len() != "payment_hash"@.len());
                }
                if j == 5 {
                    assert("payment_preimage"@.len() != "expiry"@.len());
                }
                if j == 6 {
                    assert("payment_preimage"@[0] == 'p' && "fallback_address"@[0] == 'f');
                }
                if j == 7 {
                    assert("payment_preimage"@.len() != "final_expiry_delta"@.len());
                }
                if j == 8 {
                    assert("payment_preimage"@.len() != "udt_type_script"@.len());
                }
                if j == 9 {
                    assert("payment_preimage"@.len() != "hash_algorithm"@.len());
                }
                if j == 10 {
                    assert("payment_preimage"@.len() != "allow_mpp"@.len());
                }
                if j == 11 {
                    assert("payment_preimage"@.len() != "allow_trampoline_routing"@.len());
                }
            }
            lemma_named_field_unique(steps, 3, "payment_preimage"@);
        }
        lemma_run_steps_field(steps, "payment_hash"@);
        lemma_named_field(steps, "payment_hash"@);
        assert(named_field(steps, "payment_hash"@) == given_text(o.payment_hash)) by {
            reveal_strlit("amount");
            reveal_strlit("description");
            reveal_strlit("currency");
            reveal_strlit("payment_preimage");
            reveal_strlit("payment_hash");
            reveal_strlit("expiry");
            reveal_strlit("fallback_address");
            reveal_strlit("final_expiry_delta");
            reveal_strlit("udt_type_script");
            reveal_strlit("allow_mpp");
            reveal_strlit("allow_trampoline_routing");
            reveal_strlit("hash_algorithm");
            assert forall|j: int| 0 <= j < 12 && j != 4 implies step_key(#[trigger] steps[j]) != Some("payment_hash"@) by {
                if j == 0 {
                    assert("payment_hash"@.len() != "amount"@.len());
                }
                if j == 1 {
                    assert("payment_hash"@.len() != "description"@.len());
                }
                if j == 2 {
                    assert("payment_hash"@.len() != "currency"@.len());
                }
                if j == 3 {
                    assert("payment_hash"@.len() != "payment_preimage"@.len());
                }
                if j == 5 {
                    assert("payment_hash"@.len() != "expiry"@.len());
                }
                if j == 6 {
                    assert("payment_hash"@.len() != "fallback_address"@.len());
                }
                if j == 7 {
                    assert("payment_hash"@.len() != "final_expiry_delta"@.len());
                }
                if j == 8 {
                    assert("payment_hash"@.len() != "udt_type_script"@.len());
                }
                if j == 9 {
                    assert("payment_hash"@.len() != "hash_algorithm"@.len());
                }
                if j == 10 {
                    assert("payment_hash"@.len() != "allow_mpp"@.len());
                }
                if j == 11 {
                    assert("payment_hash"@.len() != "allow_trampoline_routing"@.len());
                }
            }
            lemma_named_field_unique(steps, 4, "payment_hash"@);
        }
        lemma_run_steps_field(steps, "expiry"@);
        lemma_named_field(steps, "expiry"@);
        assert(named_field(steps, "expiry"@) == given_u64_hex(o.has_expiry, o.expiry)) by {
            reveal_strlit("amount");
            reveal_strlit("description");
            reveal_strlit("currency");
            reveal_strlit("payment_preimage");
            reveal_strlit("payment_hash");
            reveal_strlit("expiry");
            reveal_strlit("fallback_address");
            reveal_strlit("final_expiry_delta");
            reveal_strlit("udt_type_script");
            reveal_strlit("allow_mpp");
            reveal_strlit("allow_trampoline_routing");
            reveal_strlit("hash_algorithm");
            assert forall|j: int| 0 <= j < 12 && j != 5 implies step_key(#[trigger] steps[j]) != Some("expiry"@) by {
                if j == 0 {
                    assert("expiry"@[0] == 'e' && "amount"@[0] == 'a');
                }
                if j == 1 {
                    assert("expiry"@.len() != "description"@.len());
                }
                if j == 2 {
                    assert("expiry"@.len() != "currency"@.len());
                }
                if j == 3 {
                    assert("expiry"@.len() != "payment_preimage"@.len());
                }
                if j == 4 {
                    assert("expiry"@.len() != "payment_hash"@.len());
                }
                if j == 6 {
                    assert("expiry"@.len() != "fallback_address"@.len());
                }
                if j == 7 {
                    assert("expiry"@.len() != "final_expiry_delta"@.len());
                }
                if j == 8 {
                    assert("expiry"@.len() != "udt_type_script"@.len());
                }
                if j == 9 {
                    assert("expiry"@.len() != "hash_algorithm"@.len());
                }
                if j == 10 {
                    assert("expiry"@.len() != "allow_mpp"@.len());
                }
                if j == 11 {
                    assert("expiry"@.len() != "allow_trampoline_routing"@.len());
                }
            }
            lemma_named_field_unique(steps, 5, "expiry"@);
        }
        lemma_run_steps_field(steps, "fallback_address"@);
        lemma_named_field(steps, "fallback_address"@);
        assert(named_field(steps, "fallback_address"@) == given_text(o.fallback_address)) by {
            reveal_strlit("amount");
            reveal_strlit("description");
            reveal_strlit("currency");
            reveal_strlit("payment_preimage");
            reveal_strlit("payment_hash");
            reveal_strlit("expiry");
            reveal_strlit("fallback_address");
            reveal_strlit("final_expiry_delta");
            reveal_strlit("udt_type_script");
            reveal_strlit("allow_mpp");
            reveal_strlit("allow_trampoline_routing");
            reveal_strlit("hash_algorithm");
            assert forall|j: int| 0 <= j < 12 && j != 6 implies step_key(#[trigger] steps[j]) != Some("fallback_address"@) by {
                if j == 0 {
                    assert("fallback_address"@.len() != "amount"@.len());
                }
                if j == 1 {
                    assert("fallback_address"@.len() != "description"@.len());
                }
                if j == 2 {
                    assert("fallback_address"@.len() != "currency"@.len());
                }
                if j == 3 {
                    assert("fallback_address"@[0] == 'f' && "payment_preimage"@[0] == 'p');
                }
                if j == 4 {
                    assert("fallback_address"@.len() != "payment_hash"@.len());
                }
                if j == 5 {
                    assert("fallback_address"@.len() != "expiry"@.len());
                }
                if j == 7 {
                    assert("fallback_address"@.len() != "final_expiry_delta"@.len());
                }
                if j == 8 {
                    assert("fallback_address"@.len() != "udt_type_script"@.len());
                }
                if j == 9 {
                    assert("fallback_address"@.len() != "hash_algorithm"@.len());
                }
                if j == 10 {
                    assert("fallback_address"@.len() != "allow_mpp"@.len());
                }
                if j == 11 {
                    assert("fallback_address"@.len() != "allow_trampoline_routing"@.len());
                }
            }
            lemma_named_field_unique(steps, 6, "fallback_address"@);
        }
        lemma_run_steps_field(steps, "final_expiry_delta"@);
        lemma_named_field(steps, "final_expiry_delta"@);
        assert(named_field(steps, "final_expiry_delta"@) == given_u64_hex(o.has_final_expiry_delta, o.final_expiry_delta)) by {
            reveal_strlit("amount");
            reveal_strlit("description");
            reveal_strlit("currency");
            reveal_strlit("payment_preimage");
            reveal_strlit("payment_hash");
            reveal_strlit("expiry");
            reveal_strlit("fallback_address");
            reveal_strlit("final_expiry_delta");
            reveal_strlit("udt_type_script");
            reveal_strlit("allow_mpp");
            reveal_strlit("allow_trampoline_routing");
            reveal_strlit("hash_algorithm");
            assert forall|j: int| 0 <= j < 12 && j != 7 implies step_key(#[trigger] steps[j]) != Some("final_expiry_delta"@) by {
                if j == 0 {
                    assert("final_expiry_delta"@.len() != "amount"@.len());
                }
                if j == 1 {
                    assert("final_expiry_delta"@.len() != "description"@.len());
                }
                if j == 2 {
                    assert("final_expiry_delta"@.len() != "currency"@.len());
                }
                if j == 3 {
                    assert("final_expiry_delta"@.len() != "payment_preimage"@.len());
                }
                if j == 4 {
                    assert("final_expiry_delta"@.len() != "payment_hash"@.len());
                }
                if j == 5 {
                    assert("final_expiry_delta"@.len() != "expiry"@.len());
                }
                if j == 6 {
                    assert("final_expiry_delta"@.len() != "fallback_address"@.len());
                }
                if j == 8 {
                    assert("final_expiry_delta"@.len() != "udt_type_script"@.len());
                }
                if j == 9 {
                    assert("final_expiry_delta"@.len() != "hash_algorithm"@.len());
                }
                if j == 10 {
                    assert("final_expiry_delta"@.len() != "allow_mpp"@.len());
                }
                if j == 11 {
                    assert("final_expiry_delta"@.len() != "allow_trampoline_routing"@.len());
                }
            }
            lemma_named_field_unique(steps, 7, "final_expiry_delta"@);
        }
        lemma_run_steps_field(steps, "udt_type_script"@);
        lemma_named_field(steps, "udt_type_script"@);
        assert(run_steps(steps) is Ok ==> named_field(steps, "udt_type_script"@) == given_json(o.udt_type_script_json)) by {
            reveal_strlit("amount");
            reveal_strlit("description");
            reveal_strlit("currency");
            reveal_strlit("payment_preimage");
            reveal_strlit("payment_hash");
            reveal_strlit("expiry");
            reveal_strlit("fallback_address");
            reveal_strlit("final_expiry_delta");
            reveal_strlit("udt_type_script");
            reveal_strlit("allow_mpp");
            reveal_strlit("allow_trampoline_routing");
            reveal_strlit("hash_algorithm");
            assert forall|j: int| 0 <= j < 12 && j != 8 implies step_key(#[trigger] steps[j]) != Some("udt_type_script"@) by {
                if j == 0 {
                    assert("udt_type_script"@.len() != "amount"@.len());
                }
                if j == 1 {
                    assert("udt_type_script"@.len() != "description"@.len());
                }
                if j == 2 {
                    assert("udt_type_script"@.len() != "currency"@.len());
                }
                if j == 3 {
                    assert("udt_type_script"@.len() != "payment_preimage"@.len());
                }
                if j == 4 {
                    assert("udt_type_script"@.len() != "payment_hash"@.len());
                }
                if j == 5 {
                    assert("udt_type_script"@.len() != "expiry"@.len());
                }
                if j == 6 {
                    assert("udt_type_script"@.len() != "fallback_address"@.len());
                }
                if j == 7 {
                    assert("udt_type_script"@.len() != "final_expiry_delta"@.len());
                }
                if j == 9 {
                    assert("udt_type_script"@.len() != "hash_algorithm"@.len());
                }
                if j == 10 {
                    assert("udt_type_script"@.len() != "allow_mpp"@.len());
                }
                if j == 11 {
                    assert("udt_type_script"@.len() != "allow_trampoline_routing"@.len());
                }
            }
            if run_steps(steps) is Ok {
                assert(step_outcome(steps[8]) is Ok);
                lemma_named_field_unique(steps, 8, "udt_type_script"@);
            }
        }
        lemma_run_steps_field(steps, "hash_algorithm"@);
        lemma_named_field(steps, "hash_algorithm"@);
        assert(named_field(steps, "hash_algorithm"@) == if o.hash_algorithm == 1 { Some(ParamView::Text("ckb_hash"@)) } else if o.hash_algorithm == 2 { Some(ParamView::Text("sha256"@)) } else { None }) by {
            reveal_strlit("amount");
            reveal_strlit("description");
            reveal_strlit("currency");
            reveal_strlit("payment_preimage");
            reveal_strlit("payment_hash");
            reveal_strlit("expiry");
            reveal_strlit("fallback_address");
            reveal_strlit("final_expiry_delta");
            reveal_strlit("udt_type_script");
            reveal_strlit("allow_mpp");
            reveal_strlit("allow_trampoline_routing");
            reveal_strlit("hash_algorithm");
            assert forall|j: int| 0 <= j < 12 && j != 9 implies step_key(#[trigger] steps[j]) != Some("hash_algorithm"@) by {
                if j == 0 {
                    assert("hash_algorithm"@.len() != "amount"@.len());
                }
                if j == 1 {
                    assert("hash_algorithm"@.len() != "description"@.len());
                }
                if j == 2 {
                    assert("hash_algorithm"@.len() != "currency"@.len());
                }
                if j == 3 {
                    assert("hash_algorithm"@.len() != "payment_preimage"@.len());
                }
                if j == 4 {
                    assert("hash_algorithm"@.len() != "payment_hash"@.len());
                }
                if j == 5 {
                    assert("hash_algorithm"@.len() != "expiry"@.len());
                }
                if j == 6 {
                    assert("hash_algorithm"@.len() != "fallback_address"@.len());
                }
                if j == 7 {
                    assert("hash_algorithm"@.len() != "final_expiry_delta"@.len());
                }
                if j == 8 {
                    assert("hash_algorithm"@.len() != "udt_type_script"@.len());
                }
                if j == 10 {
                    assert("hash_algorithm"@.len() != "allow_mpp"@.len());
                }
                if j == 11 {
                    assert("hash_algorithm"@.len() != "allow_trampoline_routing"@.len());
                }
            }
            lemma_named_field_unique(steps, 9, "hash_algorithm"@);
        }
        lemma_run_steps_field(steps, "allow_mpp"@);
        lemma_named_field(steps, "allow_mpp"@);
        assert(named_field(steps, "allow_mpp"@) == given_flag(o.has_allow_mpp, o.allow_mpp)) by {
            reveal_strlit("amount");
            reveal_strlit("description");
            reveal_strlit("currency");
            reveal_strlit("payment_preimage");
            reveal_strlit("payment_hash");
            reveal_strlit("expiry");
            reveal_strlit("fallback_address");
            reveal_strlit("final_expiry_delta");
            reveal_strlit("udt_type_script");
            reveal_strlit("allow_mpp");
            reveal_strlit("allow_trampoline_routing");
            reveal_strlit("hash_algorithm");
            assert forall|j: int| 0 <= j < 12 && j != 10 implies step_key(#[trigger] steps[j]) != Some("allow_mpp"@) by {
                if j == 0 {
                    assert("allow_mpp"@.len() != "amount"@.len());
                }
                if j == 1 {
                    assert("allow_mpp"@.len() != "description"@.len());
                }
                if j == 2 {
                    assert("allow_mpp"@.len() != "currency"@.len());
                }
                if j == 3 {
                    assert("allow_mpp"@.len() != "payment_preimage"@.len());
                }
                if j == 4 {
                    assert("allow_mpp"@.len() != "payment_hash"@.len());
                }
                if j == 5 {
                    assert("allow_mpp"@.len() != "expiry"@.len());
                }
                if j == 6 {
                    assert("allow_mpp"@.len() != "fallback_address"@.len());
                }
                if j == 7 {
                    assert("allow_mpp"@.len() != "final_expiry_delta"@.len());
                }
                if j == 8 {
                    assert("allow_mpp"@.len() != "udt_type_script"@.len());
                }
                if j == 9 {
                    assert("allow_mpp"@.len() != "hash_algorithm"@.len());
                }
                if j == 11 {
                    assert("allow_mpp"@.len() != "allow_trampoline_routing"@.len());
                }
            }
            lemma_named_field_unique(steps, 10, "allow_mpp"@);
        }
        lemma_run_steps_field(steps, "allow_trampoline_routing"@);
        lemma_named_field(steps, "allow_trampoline_routing"@);
        assert(named_field(steps, "allow_trampoline_routing"@) == given_flag(o.has_allow_trampoline_routing, o.allow_trampoline_routing)) by {
            reveal_strlit("amount");
            reveal_strlit("description");
            reveal_strlit("currency");
            reveal_strlit("payment_preimage");
            reveal_strlit("payment_hash");
            reveal_strlit("expiry");
            reveal_strlit("fallback_address");
            reveal_strlit("final_expiry_delta");
            reveal_strlit("udt_type_script");
            reveal_strlit("allow_mpp");
            reveal_strlit("allow_trampoline_routing");
            reveal_strlit("hash_algorithm");
            assert forall|j: int| 0 <= j < 12 && j != 11 implies step_key(#[trigger] steps[j]) != Some("allow_trampoline_routing"@) by {
                if j == 0 {
                    assert("allow_trampoline_routing"@.len() != "amount"@.len());
                }
                if j == 1 {
                    assert("allow_trampoline_routing"@.len() != "description"@.len());
                }
                if j == 2 {
                    assert("allow_trampoline_routing"@.len() != "currency"@.len());
                }
                if j == 3 {
                    assert("allow_trampoline_routing"@.len() != "payment_preimage"@.len());
                }
                if j == 4 {
                    assert("allow_trampoline_routing"@.len() != "payment_hash"@.len());
                }
                if j == 5 {
                    assert("allow_trampoline_routing"@.len() != "expiry"@.len());
                }
                if j == 6 {
                    assert("allow_trampoline_routing"@.len() != "fallback_address"@.len());
                }
                if j == 7 {
                    assert("allow_trampoline_routing"@.len() != "final_expiry_delta"@.len());
                }
                if j == 8 {
                    assert("allow_trampoline_routing"@.len() != "udt_type_script"@.len());
                }
                if j == 9 {
                    assert("allow_trampoline_routing"@.len() != "hash_algorithm"@.len());
                }
                if j == 10 {
                    assert("allow_trampoline_routing"@.len() != "allow_mpp"@.len());
                }
            }
            lemma_named_field_unique(steps, 11, "allow_trampoline_routing"@);
        }

}

} // verus!
