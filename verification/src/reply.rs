//! What a tool answers: its error type, its JSON fields, and the replies built from outcomes.
use vstd::prelude::*;

use crate::text::{
    byte_len, utf8_len_up_to, ascii_only, ascii_only_text, decimal, decimal_text, ends_with_text, is_suffix, join_lines,
    join_lines_text, join_text, join_with,
};

verus! {

/// The error a tool reports to its caller.
#[derive(Debug, PartialEq, Eq)]
pub enum ToolError {
    /// The arguments of the call were refused; the message says why.
    InputValidation(String),
    /// The server is not configured for what the call asks; the message says what is missing.
    Config(String),
}

/// The mathematical meaning of a [`ToolError`].
pub enum ErrorView {
    Input(Seq<char>),
    Config(Seq<char>),
}

impl View for ToolError {
    type V = ErrorView;

    open spec fn view(&self) -> ErrorView {
        match self {
            ToolError::InputValidation(m) => ErrorView::Input(m@),
            ToolError::Config(m) => ErrorView::Config(m@),
        }
    }
}

/// The message of a call to a voice conversion while no RVC directory is configured.
pub open spec fn rvc_missing_message() -> Seq<char> {
    "RVC_DIR is not set; voice conversion is unavailable"@
}

/// The refusal of a call to a voice conversion while no RVC directory is configured.
pub fn rvc_missing() -> (e: ToolError)
    ensures
        e@ == ErrorView::Config(rvc_missing_message()),
{
    ToolError::Config(String::from_str("RVC_DIR is not set; voice conversion is unavailable"))
}

/// A value of a JSON reply field.
#[derive(Debug, PartialEq, Eq)]
pub enum JsonValue {
    /// A JSON string.
    Str(String),
    /// A JSON number.
    Num(u64),
}

/// The mathematical meaning of a [`JsonValue`].
pub enum JsonView {
    Str(Seq<char>),
    Num(u64),
}

impl View for JsonValue {
    type V = JsonView;

    open spec fn view(&self) -> JsonView {
        match self {
            JsonValue::Str(s) => JsonView::Str(s@),
            JsonValue::Num(n) => JsonView::Num(*n),
        }
    }
}

/// The fields of a JSON object, by their views, in the order they were set.
pub open spec fn fields_view(fields: Seq<(String, JsonValue)>) -> Seq<(Seq<char>, JsonView)> {
    fields.map_values(|f: (String, JsonValue)| (f.0@, f.1@))
}

/// The answer of a tool.
#[derive(Debug, PartialEq, Eq)]
pub enum ToolReply {
    /// Plain text.
    Text(String),
    /// A JSON object with these fields.
    Json(Vec<(String, JsonValue)>),
    /// An error the tool reports as its answer.
    Error(String),
}

/// The mathematical meaning of a [`ToolReply`].
pub enum ReplyView {
    Text(Seq<char>),
    Json(Seq<(Seq<char>, JsonView)>),
    Error(Seq<char>),
}

impl View for ToolReply {
    type V = ReplyView;

    open spec fn view(&self) -> ReplyView {
        match self {
            ToolReply::Text(t) => ReplyView::Text(t@),
            ToolReply::Json(f) => ReplyView::Json(fields_view(f@)),
            ToolReply::Error(e) => ReplyView::Error(e@),
        }
    }
}

/// The views of a sequence of strings.
pub open spec fn texts(v: Seq<String>) -> Seq<Seq<char>> {
    v.map_values(|s: String| s@)
}

/// The view of a result that carries text either way.
pub open spec fn outcome_view(r: Result<String, String>) -> Result<Seq<char>, Seq<char>> {
    match r {
        Ok(s) => Ok(s@),
        Err(e) => Err(e@),
    }
}

/// The field that holds `value` as a JSON string under `key`.
pub fn text_field(key: &str, value: String) -> (f: (String, JsonValue))
    ensures
        f.0@ == key@,
        f.1@ == JsonView::Str(value@),
{
    (String::from_str(key), JsonValue::Str(value))
}

/// The longest error text a reply carries, as the framework's error replies do.
pub const ERROR_TEXT_LIMIT: usize = 300;

/// What `psm_mcp_core::error::sanitize_error` makes of `msg` with the limit `max_len`.
pub uninterp spec fn sanitized(msg: Seq<char>, max_len: usize) -> Seq<char>;

/// A character that may follow a `/` in a file path as the redaction recognises one.
pub open spec fn is_path_char(c: char) -> bool {
    ||| ('a' as u32 <= c as u32 <= 'z' as u32)
    ||| ('A' as u32 <= c as u32 <= 'Z' as u32)
    ||| ('0' as u32 <= c as u32 <= '9' as u32)
    ||| c == '.'
    ||| c == '_'
    ||| c == '-'
}

/// `t` is a file path of three or more components: `/` followed by path characters, three
/// times or more.
pub open spec fn is_long_path(t: Seq<char>) -> bool {
    &&& t.len() > 0
    &&& t[0] == '/'
    &&& t[t.len() - 1] != '/'
    &&& forall|k: int| 0 <= k < t.len() ==> (t[k] == '/' || is_path_char(#[trigger] t[k]))
    &&& forall|k: int| 0 <= k < t.len() - 1 ==> !(#[trigger] t[k] == '/' && t[k + 1] == '/')
    &&& t.filter(|c: char| c == '/').len() >= 3
}

/// No part of `s` is a file path of three or more components.
pub open spec fn shows_no_path(s: Seq<char>) -> bool {
    forall|i: int, j: int| 0 <= i <= j <= s.len() ==> !is_long_path(#[trigger] s.subrange(i, j))
}

/// `s` shows no file path of three or more components, except where the `...` that marks a
/// cut text completes one.
pub open spec fn hides_paths(s: Seq<char>) -> bool {
    ||| shows_no_path(s)
    ||| (is_suffix("..."@, s) && shows_no_path(s.subrange(0, s.len() - 3)))
}

/// Calls `psm_mcp_core::error::sanitize_error`, which replaces every file path of three or
/// more components by `[PATH]`, words longer than forty bytes by `[REDACTED]`, joins the
/// words with single spaces, and, once the text reaches `max_len` bytes, cuts it there and
/// appends `...`. The contract names its result and states that no such path is left in it,
/// but where the appended `...` completes one; it states no more of the result. The cut is a
/// `String::truncate`, which panics off a character boundary; it happens only when the text
/// plus one byte reaches `max_len`, and on an ASCII text every position is a boundary.
#[verifier::external_body]
fn sanitize_error_text(msg: &str, max_len: usize) -> (r: String)
    requires
        crate::text::ascii_only(msg@) == msg@ || byte_len(msg@) + 1 < max_len,
    ensures
        r@ == sanitized(msg@, max_len),
        hides_paths(r@),
{
    psm_mcp_core::error::sanitize_error(msg, max_len)
}

/// An error text as a reply shows it: file paths and long tokens are redacted and the text is
/// cut to [`ERROR_TEXT_LIMIT`] bytes. A text long enough to be cut has its characters outside
/// ASCII replaced by `?` first, so that the cut falls between characters.
pub open spec fn redacted(msg: Seq<char>) -> Seq<char> {
    if byte_len(msg) + 1 < ERROR_TEXT_LIMIT {
        sanitized(msg, ERROR_TEXT_LIMIT)
    } else {
        sanitized(ascii_only(msg), ERROR_TEXT_LIMIT)
    }
}

/// An error text as a reply shows it; it shows no file path of three or more components.
pub fn redact(msg: &str) -> (r: String)
    ensures
        r@ == redacted(msg@),
        hides_paths(r@),
{
    if utf8_len_up_to(msg, ERROR_TEXT_LIMIT - 1) < ERROR_TEXT_LIMIT - 1 {
        sanitize_error_text(msg, ERROR_TEXT_LIMIT)
    } else {
        let ascii = ascii_only_text(msg);
        assert(ascii_only(ascii@) =~= ascii@);
        sanitize_error_text(ascii.as_str(), ERROR_TEXT_LIMIT)
    }
}

/// `prefix` followed by `detail`, as a reply shows it.
pub fn redacted_join(prefix: &str, detail: &str) -> (r: String)
    ensures
        r@ == redacted(prefix@ + detail@),
        hides_paths(r@),
{
    let mut m = String::from_str(prefix);
    m.append(detail);
    redact(m.as_str())
}

/// The reply to a finished script run: its output under `"status": "success"`, or the
/// failure as an error reply.
pub open spec fn spec_run_reply(outcome: Result<Seq<char>, Seq<char>>) -> ReplyView {
    match outcome {
        Ok(out) => ReplyView::Json(
            seq![("status"@, JsonView::Str("success"@)), ("output"@, JsonView::Str(out))],
        ),
        Err(e) => ReplyView::Error(redacted("Error: "@ + e)),
    }
}

/// The reply to a finished script run.
pub fn run_reply(outcome: Result<String, String>) -> (r: ToolReply)
    ensures
        r@ == spec_run_reply(outcome_view(outcome)),
        r@ matches ReplyView::Error(e) ==> hides_paths(e),
{
    match outcome {
        Ok(out) => {
            let mut fields: Vec<(String, JsonValue)> = Vec::new();
            fields.push(text_field("status", String::from_str("success")));
            fields.push(text_field("output", out));
            assert(fields_view(fields@) =~= seq![
                ("status"@, JsonView::Str("success"@)),
                ("output"@, JsonView::Str(outcome_view(outcome)->Ok_0)),
            ]);
            ToolReply::Json(fields)
        },
        Err(e) => ToolReply::Error(redacted_join("Error: ", e.as_str())),
    }
}

/// The text that describes the entries of the directory `dir`, or why it could not be read.
pub open spec fn spec_listing(dir: Seq<char>, entries: Result<Seq<Seq<char>>, Seq<char>>) -> Seq<
    char,
> {
    match entries {
        Ok(names) => if names.len() == 0 {
            "No files in "@ + dir
        } else {
            "Files in "@ + dir + " ("@ + decimal(names.len()) + "):\n"@ + join_lines(names)
        },
        Err(e) => redacted("Cannot read "@ + dir + ": "@ + e),
    }
}

/// The view of the entries read from a directory, or of the reason they could not be.
pub open spec fn entries_view(entries: Result<Vec<String>, String>) -> Result<
    Seq<Seq<char>>,
    Seq<char>,
> {
    match entries {
        Ok(names) => Ok(texts(names@)),
        Err(e) => Err(e@),
    }
}

/// The text that describes the entries of the directory `dir`, or why it could not be read.
pub fn listing_text(dir: &str, entries: Result<Vec<String>, String>) -> (s: String)
    ensures
        s@ == spec_listing(dir@, entries_view(entries)),
        entries is Err ==> hides_paths(s@),
{
    match entries {
        Ok(names) => {
            if names.len() == 0 {
                let mut s = String::from_str("No files in ");
                s.append(dir);
                s
            } else {
                let mut s = String::from_str("Files in ");
                s.append(dir);
                s.append(" (");
                let count = decimal_text(names.len() as u64);
                s.append(count.as_str());
                s.append("):\n");
                let joined = join_lines_text(&names);
                s.append(joined.as_str());
                s
            }
        },
        Err(e) => {
            let mut s = String::from_str("Cannot read ");
            s.append(dir);
            s.append(": ");
            s.append(e.as_str());
            redact(s.as_str())
        },
    }
}

/// The reply that lists the directory `dir`.
pub fn listing_reply(dir: &str, entries: Result<Vec<String>, String>) -> (r: ToolReply)
    ensures
        r@ == ReplyView::Text(spec_listing(dir@, entries_view(entries))),
        entries is Err ==> hides_paths(spec_listing(dir@, entries_view(entries))),
{
    ToolReply::Text(listing_text(dir, entries))
}

/// A file name that names a voice model.
pub open spec fn is_model_file(name: Seq<char>) -> bool {
    is_suffix(".pth"@, name)
}

/// A file name that names a feature index.
pub open spec fn is_index_file(name: Seq<char>) -> bool {
    is_suffix(".index"@, name)
}

/// The entries that name voice models, in their order.
pub open spec fn model_files_of(names: Seq<Seq<char>>) -> Seq<Seq<char>> {
    names.filter(|n: Seq<char>| is_model_file(n))
}

/// The entries that name feature indexes, in their order.
pub open spec fn index_files_of(names: Seq<Seq<char>>) -> Seq<Seq<char>> {
    names.filter(|n: Seq<char>| is_index_file(n))
}

/// The line that lists the voice model `model`, whose index folder holds `folder`: the model
/// name, followed by its index files when it has any.
pub open spec fn model_line(model: Seq<char>, folder: Seq<Seq<char>>) -> Seq<char> {
    let indexes = index_files_of(folder);
    if indexes.len() == 0 {
        model
    } else {
        model + " (index: "@ + join_with(indexes, ", "@) + ")"@
    }
}

/// The view of a voice model with the entries of its index folder.
pub open spec fn model_entry_view(e: (String, Vec<String>)) -> (Seq<char>, Seq<Seq<char>>) {
    (e.0@, texts(e.1@))
}

/// The view of the models found, each with the entries of its index folder, or of the reason
/// the models directory could not be read.
pub open spec fn models_found_view(found: Result<Vec<(String, Vec<String>)>, String>) -> Result<
    Seq<(Seq<char>, Seq<Seq<char>>)>,
    Seq<char>,
> {
    match found {
        Ok(v) => Ok(v@.map_values(|e: (String, Vec<String>)| model_entry_view(e))),
        Err(e) => Err(e@),
    }
}

/// The reply that lists the voice models, each with its index files: `found` holds the
/// entries of the models directory that the listing covers, each with the entries of its
/// index folder; entries that are not model files are left out.
pub open spec fn spec_voice_models_reply(found: Result<Seq<(Seq<char>, Seq<Seq<char>>)>, Seq<char>>) -> ReplyView {
    match found {
        Ok(entries) => {
            let models = entries.filter(|e: (Seq<char>, Seq<Seq<char>>)| is_model_file(e.0));
            if models.len() == 0 {
                ReplyView::Text("No voice models found"@)
            } else {
                ReplyView::Text(
                    "Voice models ("@ + decimal(models.len()) + "):\n"@ + join_lines(
                        models.map_values(|e: (Seq<char>, Seq<Seq<char>>)| model_line(e.0, e.1)),
                    ),
                )
            }
        },
        Err(e) => ReplyView::Error(redacted("Cannot read models dir: "@ + e)),
    }
}

/// The entries that name voice models, in their order.
pub fn model_files(names: &Vec<String>) -> (models: Vec<String>)
    ensures
        texts(models@) == model_files_of(texts(names@)),
{
    let ghost all = texts(names@);
    let mut models: Vec<String> = Vec::new();
    let n = names.len();
    let mut i: usize = 0;
    while i < n
        invariant
            n == names.len(),
            i <= n,
            all == texts(names@),
            texts(models@) == all.subrange(0, i as int).filter(|n: Seq<char>| is_model_file(n)),
        decreases n - i,
    {
        proof {
            reveal_with_fuel(Seq::<_>::filter, 1);
        }
        assert(all.subrange(0, i + 1).drop_last() =~= all.subrange(0, i as int));
        if ends_with_text(names[i].as_str(), ".pth") {
            models.push(names[i].clone());
            assert(texts(models@) =~= texts(models@).drop_last().push(all[i as int]));
        }
        i = i + 1;
    }
    assert(all.subrange(0, n as int) =~= all);
    models
}

/// The entries that name feature indexes, in their order.
fn index_files(names: &Vec<String>) -> (found: Vec<String>)
    ensures
        texts(found@) == index_files_of(texts(names@)),
{
    let ghost all = texts(names@);
    let mut found: Vec<String> = Vec::new();
    let n = names.len();
    let mut i: usize = 0;
    while i < n
        invariant
            n == names.len(),
            i <= n,
            all == texts(names@),
            texts(found@) == all.subrange(0, i as int).filter(|n: Seq<char>| is_index_file(n)),
        decreases n - i,
    {
        proof {
            reveal_with_fuel(Seq::<_>::filter, 1);
        }
        assert(all.subrange(0, i + 1).drop_last() =~= all.subrange(0, i as int));
        if ends_with_text(names[i].as_str(), ".index") {
            found.push(names[i].clone());
            assert(texts(found@) =~= texts(found@).drop_last().push(all[i as int]));
        }
        i = i + 1;
    }
    assert(all.subrange(0, n as int) =~= all);
    found
}

/// The line that lists the voice model `model`, whose index folder holds `folder`.
pub fn model_line_text(model: &str, folder: &Vec<String>) -> (s: String)
    ensures
        s@ == model_line(model@, texts(folder@)),
{
    let indexes = index_files(folder);
    if indexes.len() == 0 {
        String::from_str(model)
    } else {
        let mut s = String::from_str(model);
        s.append(" (index: ");
        let joined = join_text(&indexes, ", ");
        s.append(joined.as_str());
        s.append(")");
        s
    }
}

/// The reply that lists the voice models, each with its index files.
pub fn voice_models_reply(found: Result<Vec<(String, Vec<String>)>, String>) -> (r: ToolReply)
    ensures
        r@ == spec_voice_models_reply(models_found_view(found)),
        r@ matches ReplyView::Error(e) ==> hides_paths(e),
{
    match found {
        Ok(entries) => {
            let ghost all = entries@.map_values(|e: (String, Vec<String>)| model_entry_view(e));
            let ghost pred = |e: (Seq<char>, Seq<Seq<char>>)| is_model_file(e.0);
            let ghost line = |e: (Seq<char>, Seq<Seq<char>>)| model_line(e.0, e.1);
            let mut lines: Vec<String> = Vec::new();
            let n = entries.len();
            let mut i: usize = 0;
            while i < n
                invariant
                    n == entries.len(),
                    i <= n,
                    all == entries@.map_values(|e: (String, Vec<String>)| model_entry_view(e)),
                    pred == (|e: (Seq<char>, Seq<Seq<char>>)| is_model_file(e.0)),
                    line == (|e: (Seq<char>, Seq<Seq<char>>)| model_line(e.0, e.1)),
                    texts(lines@) == all.subrange(0, i as int).filter(pred).map_values(line),
                decreases n - i,
            {
                proof {
                    reveal_with_fuel(Seq::<_>::filter, 1);
                }
                assert(all.subrange(0, i + 1).drop_last() =~= all.subrange(0, i as int));
                assert(all[i as int] == model_entry_view(entries@[i as int]));
                if ends_with_text(entries[i].0.as_str(), ".pth") {
                    let l = model_line_text(entries[i].0.as_str(), &entries[i].1);
                    let ghost prev = all.subrange(0, i as int).filter(pred);
                    let ghost before = texts(lines@);
                    assert(line(all[i as int]) == l@);
                    lines.push(l);
                    assert(texts(lines@) =~= before.push(line(all[i as int])));
                    assert(prev.push(all[i as int]).map_values(line) =~= prev.map_values(line).push(
                        line(all[i as int]),
                    ));
                    assert(all.subrange(0, i + 1).filter(pred) =~= all.subrange(0, i as int).filter(
                        pred,
                    ).push(all[i as int]));
                    assert(texts(lines@) =~= all.subrange(0, i + 1).filter(pred).map_values(line));
                } else {
                    assert(all.subrange(0, i + 1).filter(pred) =~= all.subrange(0, i as int).filter(
                        pred,
                    ));
                }
                i = i + 1;
            }
            assert(all.subrange(0, n as int) =~= all);
            if lines.len() == 0 {
                ToolReply::Text(String::from_str("No voice models found"))
            } else {
                let mut s = String::from_str("Voice models (");
                let count = decimal_text(lines.len() as u64);
                s.append(count.as_str());
                s.append("):\n");
                let joined = join_lines_text(&lines);
                s.append(joined.as_str());
                ToolReply::Text(s)
            }
        },
        Err(e) => ToolReply::Error(redacted_join("Cannot read models dir: ", e.as_str())),
    }
}

} // verus!
