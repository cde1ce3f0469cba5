//! The wire format of the analysis exchange: JSON encoding of a request and
//! verified extraction of a result from a parsed response tree.
//!
//! The generic JSON parse itself is done by `serde_json`; everything the
//! schema means — which fields must exist, with which types, what is
//! optional — is decided here in verified code over the library's own tree.

use vstd::prelude::*;

use crate::model::{
    AnalysisRequest, AnalysisResult, FlagMatch, LogEntry, SpecFlag, SpecLog, SpecResult, views_of,
};
use crate::text::digit_char;
use crate::text::digit_str;

verus! {

/// Relies on `String::push`: appends exactly the given character.
pub assume_specification[ String::push ](s: &mut String, ch: char)
    ensures
        final(s)@ == old(s)@.push(ch),
;

// ---------------------------------------------------------------------------
// Sequence stepping lemmas shared by the loops of this crate.
// ---------------------------------------------------------------------------
pub proof fn lemma_take_step<T>(s: Seq<T>, i: int)
    requires
        0 <= i < s.len(),
    ensures
        s.take(i + 1).drop_last() =~= s.take(i),
        s.take(i + 1).last() == s[i],
{
}

pub proof fn lemma_skip_step<T>(s: Seq<T>, i: int)
    requires
        0 <= i < s.len(),
    ensures
        s.skip(i).drop_first() =~= s.skip(i + 1),
        s.skip(i)[0] == s[i],
        s.skip(i).len() == s.len() - i,
{
}

// ---------------------------------------------------------------------------
// The library's own JSON tree.
// ---------------------------------------------------------------------------
/// A parsed JSON document. Numbers keep their decimal text: nothing in this
/// layer interprets them. Object fields keep the order and uniqueness the
/// parser produced.
#[derive(Debug, PartialEq, Eq)]
pub enum JsonValue {
    Null,
    Bool(bool),
    Num(String),
    Str(String),
    Arr(Vec<JsonValue>),
    Obj(Vec<(String, JsonValue)>),
}

/// The parse tree that `serde_json` produces for this text, or `None` when
/// the text is not JSON. Deterministic in the text alone.
pub uninterp spec fn parsed_json(s: Seq<char>) -> Option<JsonValue>;

#[verifier::external_type_specification]
#[verifier::external_body]
pub struct ExValue(serde_json::Value);

/// Relies on `serde_json::from_str::<serde_json::Value>`: the parse is a
/// function of the input text alone; `parsed_json` names its outcome, with
/// `json_tree` carrying the tree across.
#[verifier::external_body]
fn parse_json(s: &str) -> (r: Option<JsonValue>)
    ensures
        r == parsed_json(s@),
{
    match serde_json::from_str::<serde_json::Value>(s) {
        Ok(v) => Some(json_tree(&v)),
        Err(_) => None,
    }
}

/// The conversion half of `parse_json`, never called on its own: relies on
/// the public variants of `serde_json::Value`, moving each across into the
/// library's tree, one arm per variant; a number becomes its decimal text.
#[verifier::external_body]
fn json_tree(v: &serde_json::Value) -> JsonValue {
    match v {
        serde_json::Value::Null => JsonValue::Null,
        serde_json::Value::Bool(b) => JsonValue::Bool(*b),
        serde_json::Value::Number(n) => JsonValue::Num(n.to_string()),
        serde_json::Value::String(s) => JsonValue::Str(s.clone()),
        serde_json::Value::Array(a) => JsonValue::Arr(a.iter().map(json_tree).collect()),
        serde_json::Value::Object(m) => JsonValue::Obj(
            m.iter().map(|(k, val)| (k.clone(), json_tree(val))).collect(),
        ),
    }
}

// ---------------------------------------------------------------------------
// Encoding a request.
// ---------------------------------------------------------------------------
/// How one character is written inside a JSON string literal.
pub open spec fn esc(c: char) -> Seq<char> {
    if c == '"' {
        seq!['\\', '"']
    } else if c == '\\' {
        seq!['\\', '\\']
    } else if c == '\u{8}' {
        seq!['\\', 'b']
    } else if c == '\u{c}' {
        seq!['\\', 'f']
    } else if c == '\n' {
        seq!['\\', 'n']
    } else if c == '\r' {
        seq!['\\', 'r']
    } else if c == '\t' {
        seq!['\\', 't']
    } else if (c as int) < 0x20 {
        seq!['\\', 'u', '0', '0', digit_char((c as int) / 16), digit_char((c as int) % 16)]
    } else {
        seq![c]
    }
}

/// The body of a JSON string literal for this text.
pub open spec fn json_escape(s: Seq<char>) -> Seq<char>
    decreases s.len(),
{
    if s.len() == 0 {
        Seq::empty()
    } else {
        json_escape(s.drop_last()) + esc(s.last())
    }
}

/// A whole JSON string literal, quotes included.
pub open spec fn spec_json_string(s: Seq<char>) -> Seq<char> {
    "\""@ + json_escape(s) + "\""@
}

fn push_escaped_char(out: &mut String, c: char)
    ensures
        final(out)@ == old(out)@ + esc(c),
{
    if c == '"' {
        out.append("\\\"");
        proof {
            reveal_strlit("\\\"");
            assert(final(out)@ =~= old(out)@ + esc(c));
        }
    } else if c == '\\' {
        out.append("\\\\");
        proof {
            reveal_strlit("\\\\");
            assert(final(out)@ =~= old(out)@ + esc(c));
        }
    } else if c == '\u{8}' {
        out.append("\\b");
        proof {
            reveal_strlit("\\b");
            assert(final(out)@ =~= old(out)@ + esc(c));
        }
    } else if c == '\u{c}' {
        out.append("\\f");
        proof {
            reveal_strlit("\\f");
            assert(final(out)@ =~= old(out)@ + esc(c));
        }
    } else if c == '\n' {
        out.append("\\n");
        proof {
            reveal_strlit("\\n");
            assert(final(out)@ =~= old(out)@ + esc(c));
        }
    } else if c == '\r' {
        out.append("\\r");
        proof {
            reveal_strlit("\\r");
            assert(final(out)@ =~= old(out)@ + esc(c));
        }
    } else if c == '\t' {
        out.append("\\t");
        proof {
            reveal_strlit("\\t");
            assert(final(out)@ =~= old(out)@ + esc(c));
        }
    } else if (c as u32) < 0x20 {
        let v = c as u32;
        out.append("\\u00");
        out.append(digit_str((v / 16) as u64));
        out.append(digit_str((v % 16) as u64));
        proof {
            reveal_strlit("\\u00");
            assert(final(out)@ =~= old(out)@ + esc(c));
        }
    } else {
        out.push(c);
        proof {
            assert(final(out)@ =~= old(out)@ + esc(c));
        }
    }
}

fn push_escaped(out: &mut String, s: &str)
    ensures
        final(out)@ == old(out)@ + json_escape(s@),
{
    let n = s.unicode_len();
    proof {
        assert(s@.take(0) =~= Seq::<char>::empty());
        assert(out@ =~= old(out)@ + json_escape(s@.take(0)));
    }
    let mut i: usize = 0;
    while i < n
        invariant
            i <= n,
            n == s@.len(),
            out@ == old(out)@ + json_escape(s@.take(i as int)),
        decreases n - i,
    {
        let c = s.get_char(i);
        push_escaped_char(out, c);
        i = i + 1;
        proof {
            lemma_take_step(s@, i - 1);
            assert(out@ =~= old(out)@ + json_escape(s@.take(i as int)));
        }
    }
    proof {
        assert(s@.take(n as int) =~= s@);
    }
}

/// Append the JSON string literal for `s`, quotes included.
fn push_json_string(out: &mut String, s: &str)
    ensures
        final(out)@ == old(out)@ + spec_json_string(s@),
{
    out.append("\"");
    push_escaped(out, s);
    out.append("\"");
    proof {
        assert(final(out)@ =~= old(out)@ + spec_json_string(s@));
    }
}

/// The request body on the wire: a JSON object carrying the text under
/// `content` and the optional mode under `mode` (`null` when absent).
pub open spec fn spec_encoded_request(q: crate::model::SpecRequest) -> Seq<char> {
    "{\"content\":"@ + spec_json_string(q.content) + ",\"mode\":"@ + (match q.mode {
        None => "null"@,
        Some(m) => spec_json_string(m),
    }) + "}"@
}

/// Serialize a request to its wire body.
pub fn encode_request(req: &AnalysisRequest) -> (r: String)
    ensures
        r@ == spec_encoded_request(req@),
{
    let mut out = String::from_str("{\"content\":");
    push_json_string(&mut out, req.content.as_str());
    out.append(",\"mode\":");
    match &req.mode {
        None => out.append("null"),
        Some(m) => push_json_string(&mut out, m.as_str()),
    }
    out.append("}");
    proof {
        assert(out@ =~= spec_encoded_request(req@));
    }
    out
}

// ---------------------------------------------------------------------------
// Reading the response tree.
// ---------------------------------------------------------------------------
/// The value under the first field of this name, if any.
pub open spec fn obj_lookup(fields: Seq<(String, JsonValue)>, key: Seq<char>) -> Option<JsonValue>
    decreases fields.len(),
{
    if fields.len() == 0 {
        None
    } else if fields[0].0@ == key {
        Some(fields[0].1)
    } else {
        obj_lookup(fields.drop_first(), key)
    }
}

fn lookup<'a>(fields: &'a Vec<(String, JsonValue)>, key: &String) -> (r: Option<&'a JsonValue>)
    ensures
        match r {
            Some(v) => obj_lookup(fields@, key@) == Some(*v),
            None => obj_lookup(fields@, key@) is None,
        },
{
    let n = fields.len();
    proof {
        assert(fields@.skip(0) =~= fields@);
    }
    let mut i: usize = 0;
    while i < n
        invariant
            i <= n,
            n == fields@.len(),
            obj_lookup(fields@, key@) == obj_lookup(fields@.skip(i as int), key@),
        decreases n - i,
    {
        let entry = &fields[i];
        proof {
            lemma_skip_step(fields@, i as int);
        }
        if entry.0 == *key {
            return Some(&entry.1);
        }
        i = i + 1;
    }
    proof {
        assert(fields@.skip(n as int) =~= Seq::<(String, JsonValue)>::empty());
    }
    None
}

/// A required string field.
pub open spec fn str_field(fields: Seq<(String, JsonValue)>, key: Seq<char>) -> Option<Seq<char>> {
    match obj_lookup(fields, key) {
        Some(JsonValue::Str(s)) => Some(s@),
        _ => None,
    }
}

/// A required number field, kept as its decimal text.
pub open spec fn num_field(fields: Seq<(String, JsonValue)>, key: Seq<char>) -> Option<Seq<char>> {
    match obj_lookup(fields, key) {
        Some(JsonValue::Num(s)) => Some(s@),
        _ => None,
    }
}

/// A required boolean field.
pub open spec fn bool_field(fields: Seq<(String, JsonValue)>, key: Seq<char>) -> Option<bool> {
    match obj_lookup(fields, key) {
        Some(JsonValue::Bool(b)) => Some(b),
        _ => None,
    }
}

/// A required array field.
pub open spec fn arr_field(fields: Seq<(String, JsonValue)>, key: Seq<char>) -> Option<
    Seq<JsonValue>,
> {
    match obj_lookup(fields, key) {
        Some(JsonValue::Arr(a)) => Some(a@),
        _ => None,
    }
}

/// An optional string field: absent or `null` is an accepted absence,
/// a string is its presence, anything else a schema mismatch.
pub open spec fn opt_str_field(fields: Seq<(String, JsonValue)>, key: Seq<char>) -> Option<
    Option<Seq<char>>,
> {
    match obj_lookup(fields, key) {
        None => Some(None),
        Some(JsonValue::Null) => Some(None),
        Some(JsonValue::Str(s)) => Some(Some(s@)),
        Some(_) => None,
    }
}

/// The flag this tree describes, if it has the expected shape.
pub open spec fn spec_flag_of(v: JsonValue) -> Option<SpecFlag> {
    match v {
        JsonValue::Obj(fields) => match (
            str_field(fields@, "content"@),
            num_field(fields@, "confidence"@),
            str_field(fields@, "source"@),
            opt_str_field(fields@, "encoding"@),
        ) {
            (Some(content), Some(confidence), Some(source), Some(encoding)) => Some(
                SpecFlag { content, confidence, source, encoding },
            ),
            _ => None,
        },
        _ => None,
    }
}

/// The log entry this tree describes, if it has the expected shape.
pub open spec fn spec_log_of(v: JsonValue) -> Option<SpecLog> {
    match v {
        JsonValue::Obj(fields) => match (
            str_field(fields@, "timestamp"@),
            str_field(fields@, "level"@),
            str_field(fields@, "module"@),
            str_field(fields@, "action"@),
        ) {
            (Some(timestamp), Some(level), Some(module), Some(action)) => Some(
                SpecLog { timestamp, level, module, action },
            ),
            _ => None,
        },
        _ => None,
    }
}

/// All flags of an array, in order, or nothing if any element is malformed.
pub open spec fn spec_flags_of(s: Seq<JsonValue>) -> Option<Seq<SpecFlag>> {
    if forall|i: int| 0 <= i < s.len() ==> spec_flag_of(s[i]) is Some {
        Some(Seq::new(s.len(), |i: int| spec_flag_of(s[i])->0))
    } else {
        None
    }
}

/// All log entries of an array, in order, or nothing if any is malformed.
pub open spec fn spec_logs_of(s: Seq<JsonValue>) -> Option<Seq<SpecLog>> {
    if forall|i: int| 0 <= i < s.len() ==> spec_log_of(s[i]) is Some {
        Some(Seq::new(s.len(), |i: int| spec_log_of(s[i])->0))
    } else {
        None
    }
}

/// The analysis result this tree describes: an object with a boolean
/// `success`, an array `flags` of flag objects and an array `logs` of log
/// objects. Unknown fields are ignored.
pub open spec fn spec_result_of(v: JsonValue) -> Option<SpecResult> {
    match v {
        JsonValue::Obj(fields) => match (
            bool_field(fields@, "success"@),
            arr_field(fields@, "flags"@),
            arr_field(fields@, "logs"@),
        ) {
            (Some(success), Some(fl), Some(lg)) => match (spec_flags_of(fl), spec_logs_of(lg)) {
                (Some(flags), Some(logs)) => Some(SpecResult { success, flags, logs }),
                _ => None,
            },
            _ => None,
        },
        _ => None,
    }
}

fn flag_of(v: &JsonValue) -> (r: Option<FlagMatch>)
    ensures
        match r {
            Some(f) => spec_flag_of(*v) == Some(f@),
            None => spec_flag_of(*v) is None,
        },
{
    let fields = match v {
        JsonValue::Obj(fields) => fields,
        _ => { return None; },
    };
    let content: String = match lookup(fields, &String::from_str("content")) {
        Some(JsonValue::Str(s)) => s.clone(),
        _ => { return None; },
    };
    let confidence: String = match lookup(fields, &String::from_str("confidence")) {
        Some(JsonValue::Num(s)) => s.clone(),
        _ => { return None; },
    };
    let source: String = match lookup(fields, &String::from_str("source")) {
        Some(JsonValue::Str(s)) => s.clone(),
        _ => { return None; },
    };
    let encoding: Option<String> = match lookup(fields, &String::from_str("encoding")) {
        None => None,
        Some(JsonValue::Null) => None,
        Some(JsonValue::Str(s)) => Some(s.clone()),
        Some(_) => { return None; },
    };
    Some(FlagMatch { content, confidence, source, encoding })
}

fn log_of(v: &JsonValue) -> (r: Option<LogEntry>)
    ensures
        match r {
            Some(l) => spec_log_of(*v) == Some(l@),
            None => spec_log_of(*v) is None,
        },
{
    let fields = match v {
        JsonValue::Obj(fields) => fields,
        _ => { return None; },
    };
    let timestamp: String = match lookup(fields, &String::from_str("timestamp")) {
        Some(JsonValue::Str(s)) => s.clone(),
        _ => { return None; },
    };
    let level: String = match lookup(fields, &String::from_str("level")) {
        Some(JsonValue::Str(s)) => s.clone(),
        _ => { return None; },
    };
    let module: String = match lookup(fields, &String::from_str("module")) {
        Some(JsonValue::Str(s)) => s.clone(),
        _ => { return None; },
    };
    let action: String = match lookup(fields, &String::from_str("action")) {
        Some(JsonValue::Str(s)) => s.clone(),
        _ => { return None; },
    };
    Some(LogEntry { timestamp, level, module, action })
}

fn extract_flags(arr: &Vec<JsonValue>) -> (r: Option<Vec<FlagMatch>>)
    ensures
        match r {
            Some(v) => spec_flags_of(arr@) == Some(views_of(v@)),
            None => spec_flags_of(arr@) is None,
        },
{
    let mut out: Vec<FlagMatch> = Vec::new();
    let n = arr.len();
    let mut i: usize = 0;
    while i < n
        invariant
            i <= n,
            n == arr@.len(),
            out@.len() == i,
            forall|j: int| 0 <= j < i ==> spec_flag_of(arr@[j]) is Some,
            forall|j: int| 0 <= j < i ==> #[trigger] out@[j]@ == spec_flag_of(arr@[j])->0,
        decreases n - i,
    {
        match flag_of(&arr[i]) {
            Some(f) => out.push(f),
            None => { return None; },
        }
        i = i + 1;
    }
    proof {
        assert(views_of(out@) =~= Seq::new(arr@.len(), |j: int| spec_flag_of(arr@[j])->0));
    }
    Some(out)
}

fn extract_logs(arr: &Vec<JsonValue>) -> (r: Option<Vec<LogEntry>>)
    ensures
        match r {
            Some(v) => spec_logs_of(arr@) == Some(views_of(v@)),
            None => spec_logs_of(arr@) is None,
        },
{
    let mut out: Vec<LogEntry> = Vec::new();
    let n = arr.len();
    let mut i: usize = 0;
    while i < n
        invariant
            i <= n,
            n == arr@.len(),
            out@.len() == i,
            forall|j: int| 0 <= j < i ==> spec_log_of(arr@[j]) is Some,
            forall|j: int| 0 <= j < i ==> #[trigger] out@[j]@ == spec_log_of(arr@[j])->0,
        decreases n - i,
    {
        match log_of(&arr[i]) {
            Some(l) => out.push(l),
            None => { return None; },
        }
        i = i + 1;
    }
    proof {
        assert(views_of(out@) =~= Seq::new(arr@.len(), |j: int| spec_log_of(arr@[j])->0));
    }
    Some(out)
}

/// Read an `AnalysisResult` out of a parsed tree; nothing when the tree
/// does not carry the expected schema.
pub fn extract_result(v: &JsonValue) -> (r: Option<AnalysisResult>)
    ensures
        match r {
            Some(a) => spec_result_of(*v) == Some(a@),
            None => spec_result_of(*v) is None,
        },
{
    let fields = match v {
        JsonValue::Obj(fields) => fields,
        _ => { return None; },
    };
    let success: bool = match lookup(fields, &String::from_str("success")) {
        Some(JsonValue::Bool(b)) => *b,
        _ => { return None; },
    };
    let flags: Vec<FlagMatch> = match lookup(fields, &String::from_str("flags")) {
        Some(JsonValue::Arr(a)) => match extract_flags(a) {
            Some(f) => f,
            None => { return None; },
        },
        _ => { return None; },
    };
    let logs: Vec<LogEntry> = match lookup(fields, &String::from_str("logs")) {
        Some(JsonValue::Arr(a)) => match extract_logs(a) {
            Some(l) => l,
            None => { return None; },
        },
        _ => { return None; },
    };
    Some(AnalysisResult { success, flags, logs })
}

/// What decoding a response body yields: the tree `serde_json` parses,
/// read under the schema, or nothing at either step.
pub open spec fn spec_decoded(body: Seq<char>) -> Option<SpecResult> {
    match parsed_json(body) {
        Some(v) => spec_result_of(v),
        None => None,
    }
}

/// Why a response body failed to decode.
#[derive(Debug, PartialEq, Eq)]
pub enum DecodeFailure {
    /// The body was not JSON at all.
    NotJson,
    /// The JSON did not carry the expected schema.
    WrongShape,
}

/// Parse a response body and read the result out of it.
pub fn decode_body(body: &str) -> (r: Result<AnalysisResult, DecodeFailure>)
    ensures
        match r {
            Ok(a) => spec_decoded(body@) == Some(a@),
            Err(f) => {
                &&& spec_decoded(body@) is None
                &&& (f is NotJson <==> parsed_json(body@) is None)
            },
        },
{
    match parse_json(body) {
        None => Err(DecodeFailure::NotJson),
        Some(v) => match extract_result(&v) {
            Some(a) => Ok(a),
            None => Err(DecodeFailure::WrongShape),
        },
    }
}

} // verus!
