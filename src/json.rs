use vstd::prelude::*;

verus! {

/// The members of the JSON object written in `text`, each as (key, compact JSON text of
/// its value), in the order in which the text first lists each key; `None` when `text` is
/// not a JSON object.
pub uninterp spec fn json_object_members(text: Seq<char>) -> Option<Seq<(Seq<char>, Seq<char>)>>;

/// A lower-case hexadecimal digit.
pub open spec fn hex_digit(d: int) -> char {
    seq!['0', '1', '2', '3', '4', '5', '6', '7', '8', '9', 'a', 'b', 'c', 'd', 'e', 'f'][d]
}

/// How a character is written inside a JSON string: quote and backslash escaped, the
/// control characters with a short escape or as `\u00xx`, every other one as it is.
pub open spec fn escaped_char(c: char) -> Seq<char> {
    if c == '"' {
        seq!['\\', '"']
    } else if c == '\\' {
        seq!['\\', '\\']
    } else if c == '\x08' {
        seq!['\\', 'b']
    } else if c == '\t' {
        seq!['\\', 't']
    } else if c == '\n' {
        seq!['\\', 'n']
    } else if c == '\x0C' {
        seq!['\\', 'f']
    } else if c == '\r' {
        seq!['\\', 'r']
    } else if (c as u32) < 0x20 {
        seq!['\\', 'u', '0', '0', hex_digit((c as u32) as int / 16), hex_digit((c as u32) as int % 16)]
    } else {
        seq![c]
    }
}

/// The characters of `s`, each escaped.
pub open spec fn escaped(s: Seq<char>) -> Seq<char>
    decreases s.len(),
{
    if s.len() == 0 {
        Seq::empty()
    } else {
        escaped(s.drop_last()) + escaped_char(s.last())
    }
}

/// The JSON string literal that denotes `s`, quotes and escapes included.
pub open spec fn json_quoted(s: Seq<char>) -> Seq<char> {
    seq!['"'] + escaped(s) + seq!['"']
}

/// The views of a list of (key, value) string pairs.
pub open spec fn pairs_view(v: Seq<(String, String)>) -> Seq<(Seq<char>, Seq<char>)> {
    v.map_values(|e: (String, String)| (e.0@, e.1@))
}

/// Whether no two members share a key.
pub open spec fn distinct_keys(s: Seq<(Seq<char>, Seq<char>)>) -> bool {
    forall|i: int, j: int| 0 <= i < j < s.len() ==> s[i].0 != s[j].0
}

/// Relies on serde_json::from_str into a serde_json::Map, which with the preserve_order
/// feature is an IndexMap filled in the order of the text (so keys are unique and keep
/// the file's order), and on the Display of serde_json::Value, which writes compact JSON.
#[verifier::external_body]
pub(crate) fn parse_object_members(text: &str) -> (r: Option<Vec<(String, String)>>)
    ensures
        r is Some <==> json_object_members(text@) is Some,
        r matches Some(v) ==> pairs_view(v@) == json_object_members(text@)->Some_0,
        r matches Some(v) ==> distinct_keys(pairs_view(v@)),
{
    match serde_json::from_str::<serde_json::Map<String, serde_json::Value>>(text) {
        Ok(map) => {
            let mut out = Vec::new();
            for (k, v) in map {
                out.push((k, v.to_string()));
            }
            Some(out)
        },
        Err(_) => None,
    }
}

/// Relies on the Display of serde_json::Value::String, which writes the string between
/// quotes with serde_json's escape table (format_escaped_str_contents).
#[verifier::external_body]
pub(crate) fn quote_json(s: &str) -> (r: String)
    ensures
        r@ == json_quoted(s@),
{
    serde_json::Value::String(s.to_string()).to_string()
}

} // verus!
