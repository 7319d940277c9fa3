//! The arguments of a tool call and the reading of each field.
use vstd::prelude::*;

use crate::reply::{ErrorView, ToolError};
use crate::text::{byte_len, decimal, same_text};

verus! {

/// The value of one argument field, as far as the tools read it.
#[derive(Debug, PartialEq, Eq)]
pub enum ArgValue {
    /// A JSON string.
    Text(String),
    /// A JSON number that is an integer within `i64`.
    Int(i64),
    /// Any other JSON value.
    Other,
}

/// The mathematical meaning of an [`ArgValue`].
pub enum ArgView {
    Text(Seq<char>),
    Int(i64),
    Other,
}

impl View for ArgValue {
    type V = ArgView;

    open spec fn view(&self) -> ArgView {
        match self {
            ArgValue::Text(s) => ArgView::Text(s@),
            ArgValue::Int(i) => ArgView::Int(*i),
            ArgValue::Other => ArgView::Other,
        }
    }
}

/// The arguments of a tool call: the fields of its JSON object, in order. A call whose
/// arguments are not an object has no fields.
#[derive(Debug, PartialEq, Eq)]
pub struct ToolArgs {
    pub fields: Vec<(String, ArgValue)>,
}

impl View for ToolArgs {
    type V = Seq<(Seq<char>, ArgView)>;

    open spec fn view(&self) -> Seq<(Seq<char>, ArgView)> {
        self.fields@.map_values(|f: (String, ArgValue)| (f.0@, f.1@))
    }
}

/// The value of the first field named `key`, if any.
pub open spec fn arg_of(fields: Seq<(Seq<char>, ArgView)>, key: Seq<char>) -> Option<ArgView>
    decreases fields.len(),
{
    if fields.len() == 0 {
        None
    } else if fields[0].0 == key {
        Some(fields[0].1)
    } else {
        arg_of(fields.subrange(1, fields.len() as int), key)
    }
}

/// The field `key` when it is a string.
pub open spec fn text_arg(fields: Seq<(Seq<char>, ArgView)>, key: Seq<char>) -> Option<Seq<char>> {
    match arg_of(fields, key) {
        Some(ArgView::Text(s)) => Some(s),
        _ => None,
    }
}

/// The field `key` when it is an integer within `i64`.
pub open spec fn int_arg(fields: Seq<(Seq<char>, ArgView)>, key: Seq<char>) -> Option<i64> {
    match arg_of(fields, key) {
        Some(ArgView::Int(i)) => Some(i),
        _ => None,
    }
}

/// The view of an optional string.
pub open spec fn opt_view(o: Option<String>) -> Option<Seq<char>> {
    match o {
        Some(s) => Some(s@),
        None => None,
    }
}

/// The message for a required field that is missing or not a string.
pub open spec fn missing_field_message(field: Seq<char>) -> Seq<char> {
    "missing required field: "@ + field
}

impl ToolArgs {
    /// The position of the first field named `field`, if any.
    fn position(&self, field: &str) -> (r: Option<usize>)
        ensures
            r is None ==> arg_of(self@, field@) is None,
            r matches Some(i) ==> i < self.fields@.len() && arg_of(self@, field@) == Some(
                self.fields@[i as int].1@,
            ),
    {
        let ghost all = self@;
        let n = self.fields.len();
        let mut i: usize = 0;
        assert(all.subrange(0, n as int) =~= all);
        while i < n
            invariant
                n == self.fields.len(),
                i <= n,
                all == self@,
                arg_of(all, field@) == arg_of(all.subrange(i as int, n as int), field@),
            decreases n - i,
        {
            let ghost rest = all.subrange(i as int, n as int);
            assert(rest[0] == all[i as int]);
            assert(all[i as int].0 == self.fields@[i as int].0@);
            if same_text(self.fields[i].0.as_str(), field) {
                return Some(i);
            }
            assert(rest.subrange(1, rest.len() as int) =~= all.subrange(i + 1, n as int));
            i = i + 1;
        }
        None
    }

    /// The string field `field`, or a refusal when it is missing or not a string.
    pub fn require_string(&self, field: &str) -> (r: Result<String, ToolError>)
        ensures
            match r {
                Ok(s) => text_arg(self@, field@) == Some(s@),
                Err(e) => text_arg(self@, field@) is None && e@ == ErrorView::Input(
                    missing_field_message(field@),
                ),
            },
    {
        match self.optional_string(field) {
            Some(s) => Ok(s),
            None => {
                let mut m = String::from_str("missing required field: ");
                m.append(field);
                Err(ToolError::InputValidation(m))
            },
        }
    }

    /// The string field `field`, if it is present and a string.
    pub fn optional_string(&self, field: &str) -> (r: Option<String>)
        ensures
            opt_view(r) == text_arg(self@, field@),
    {
        match self.position(field) {
            Some(i) => match &self.fields[i].1 {
                ArgValue::Text(s) => Some(s.clone()),
                _ => None,
            },
            None => None,
        }
    }

    /// The integer field `field`, if it is present and an integer within `i64`.
    pub fn optional_i64(&self, field: &str) -> (r: Option<i64>)
        ensures
            r == int_arg(self@, field@),
    {
        match self.position(field) {
            Some(i) => match &self.fields[i].1 {
                ArgValue::Int(v) => Some(*v),
                _ => None,
            },
            None => None,
        }
    }
}

/// The most bytes a string argument may hold: the framework's input limit.
pub const MAX_ARG_BYTES: usize = 512000;

/// A free-text value within `max` bytes that holds no NUL character.
pub open spec fn freetext_ok(s: Seq<char>, max: usize) -> bool {
    byte_len(s) <= max && !s.contains('\u{0}')
}

/// Why the free-text value `s`, called `label`, is refused.
pub open spec fn freetext_message(s: Seq<char>, label: Seq<char>, max: usize) -> Seq<char> {
    if byte_len(s) > max {
        label + " size "@ + decimal(byte_len(s)) + "B exceeds maximum "@ + decimal(max as nat)
            + "B"@
    } else {
        label + " contains a null byte"@
    }
}

/// Calls `psm_mcp_core::input::validate_freetext`, which refuses a value longer than
/// `max_bytes` bytes ("{label} size {n}B exceeds maximum {max}B") and then one holding a NUL
/// character ("{label} contains a null byte"), always as an input validation error; the
/// message of the refusal is returned.
#[verifier::external_body]
fn freetext_problem(value: &str, label: &str, max_bytes: usize) -> (r: Option<String>)
    ensures
        r is None <==> freetext_ok(value@, max_bytes),
        r matches Some(m) ==> m@ == freetext_message(value@, label@, max_bytes),
{
    match psm_mcp_core::input::validate_freetext(value, label, max_bytes) {
        Ok(_) => None,
        Err(psm_mcp_core::error::PsmMcpError::InputValidation(m)) => Some(m),
        Err(other) => Some(other.to_string()),
    }
}

/// The refusal of the first string field that is too long or holds a NUL character, if any.
pub open spec fn first_bad_string(fields: Seq<(Seq<char>, ArgView)>) -> Option<Seq<char>>
    decreases fields.len(),
{
    if fields.len() == 0 {
        None
    } else {
        match fields[0].1 {
            ArgView::Text(s) => if !freetext_ok(s, MAX_ARG_BYTES) {
                Some(freetext_message(s, fields[0].0, MAX_ARG_BYTES))
            } else {
                first_bad_string(fields.subrange(1, fields.len() as int))
            },
            _ => first_bad_string(fields.subrange(1, fields.len() as int)),
        }
    }
}

impl ToolArgs {
    /// Checks every string field, in order, for length and NUL characters; refuses the call
    /// with the first one found.
    pub fn check_strings(&self) -> (r: Result<(), ToolError>)
        ensures
            match r {
                Ok(()) => first_bad_string(self@) is None,
                Err(e) => first_bad_string(self@) matches Some(m) && e@ == ErrorView::Input(m),
            },
    {
        let ghost all = self@;
        let n = self.fields.len();
        let mut i: usize = 0;
        assert(all.subrange(0, n as int) =~= all);
        while i < n
            invariant
                n == self.fields.len(),
                i <= n,
                all == self@,
                first_bad_string(all) == first_bad_string(all.subrange(i as int, n as int)),
            decreases n - i,
        {
            let ghost rest = all.subrange(i as int, n as int);
            assert(rest[0] == all[i as int]);
            assert(rest.subrange(1, rest.len() as int) =~= all.subrange(i + 1, n as int));
            match &self.fields[i].1 {
                ArgValue::Text(s) => {
                    match freetext_problem(s.as_str(), self.fields[i].0.as_str(), MAX_ARG_BYTES) {
                        Some(m) => return Err(ToolError::InputValidation(m)),
                        None => {},
                    }
                },
                _ => {},
            }
            i = i + 1;
        }
        Ok(())
    }
}

/// `v` brought into `lo..=hi`.
pub open spec fn clamp(v: int, lo: int, hi: int) -> int {
    if v < lo {
        lo
    } else if v > hi {
        hi
    } else {
        v
    }
}

/// `v` brought into `lo..=hi`.
pub fn clamp_i64(v: i64, lo: i64, hi: i64) -> (r: i64)
    requires
        lo <= hi,
    ensures
        r == clamp(v as int, lo as int, hi as int),
{
    if v < lo {
        lo
    } else if v > hi {
        hi
    } else {
        v
    }
}

/// The MusicGen model size asked for: the input when it names a known size, else `small`.
pub open spec fn spec_model_size(input: Option<Seq<char>>) -> Seq<char> {
    match input {
        Some(s) => if s == "small"@ || s == "medium"@ || s == "large"@ {
            s
        } else {
            "small"@
        },
        None => "small"@,
    }
}

/// The MusicGen model size asked for, always one of the known sizes.
pub fn validate_model_size(input: Option<String>) -> (r: &'static str)
    ensures
        r@ == spec_model_size(opt_view(input)),
{
    match &input {
        Some(s) => if same_text(s.as_str(), "small") {
            "small"
        } else if same_text(s.as_str(), "medium") {
            "medium"
        } else if same_text(s.as_str(), "large") {
            "large"
        } else {
            "small"
        },
        None => "small",
    }
}

/// The Demucs model asked for: the input when it names a known model, else `htdemucs`.
pub open spec fn spec_demucs_model(input: Option<Seq<char>>) -> Seq<char> {
    match input {
        Some(s) => if s == "htdemucs"@ || s == "htdemucs_ft"@ {
            s
        } else {
            "htdemucs"@
        },
        None => "htdemucs"@,
    }
}

/// The Demucs model asked for, always one of the known models.
pub fn validate_demucs_model(input: Option<String>) -> (r: &'static str)
    ensures
        r@ == spec_demucs_model(opt_view(input)),
{
    match &input {
        Some(s) => if same_text(s.as_str(), "htdemucs") {
            "htdemucs"
        } else if same_text(s.as_str(), "htdemucs_ft") {
            "htdemucs_ft"
        } else {
            "htdemucs"
        },
        None => "htdemucs",
    }
}

/// The stems asked for: the input when it names a known selection, else `all`.
pub open spec fn spec_stem_type(input: Option<Seq<char>>) -> Seq<char> {
    match input {
        Some(s) => if s == "all"@ || s == "vocals"@ || s == "drums"@ || s == "bass"@ || s
            == "other"@ {
            s
        } else {
            "all"@
        },
        None => "all"@,
    }
}

/// The stems asked for, always one of the known selections.
pub fn validate_stem_type(input: Option<String>) -> (r: &'static str)
    ensures
        r@ == spec_stem_type(opt_view(input)),
{
    match &input {
        Some(s) => if same_text(s.as_str(), "all") {
            "all"
        } else if same_text(s.as_str(), "vocals") {
            "vocals"
        } else if same_text(s.as_str(), "drums") {
            "drums"
        } else if same_text(s.as_str(), "bass") {
            "bass"
        } else if same_text(s.as_str(), "other") {
            "other"
        } else {
            "all"
        },
        None => "all",
    }
}

/// The pitch estimation method asked for, when it names one RVC knows.
pub open spec fn spec_f0_method(input: Option<Seq<char>>) -> Option<Seq<char>> {
    match input {
        Some(s) => if s == "pm"@ || s == "harvest"@ || s == "crepe"@ || s == "rmvpe"@ {
            Some(s)
        } else {
            None
        },
        None => None,
    }
}

/// The pitch estimation method asked for, when it names one RVC knows.
pub fn validate_f0_method(input: Option<String>) -> (r: Option<&'static str>)
    ensures
        match r {
            Some(m) => spec_f0_method(opt_view(input)) == Some(m@),
            None => spec_f0_method(opt_view(input)) is None,
        },
{
    match &input {
        Some(s) => if same_text(s.as_str(), "pm") {
            Some("pm")
        } else if same_text(s.as_str(), "harvest") {
            Some("harvest")
        } else if same_text(s.as_str(), "crepe") {
            Some("crepe")
        } else if same_text(s.as_str(), "rmvpe") {
            Some("rmvpe")
        } else {
            None
        },
        None => None,
    }
}

} // verus!
