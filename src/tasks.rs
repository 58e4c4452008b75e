use vstd::prelude::*;

verus! {

/// Views of a list of strings.
pub open spec fn strings_view(v: Seq<String>) -> Seq<Seq<char>> {
    v.map_values(|s: String| s@)
}

/// What `serde_json::to_string` gives for a list of strings, when it succeeds.
pub uninterp spec fn json_array_text(items: Seq<Seq<char>>) -> Option<Seq<char>>;

/// What `serde_json::from_str` reads from a text as a list of strings, when
/// the text is one.
pub uninterp spec fn json_string_array(text: Seq<char>) -> Option<Seq<Seq<char>>>;

/// Relies on `serde_json::to_string`: encodes the list as a JSON array of
/// strings; the outcome depends on the items alone.
#[verifier::external_body]
fn encode_strings(items: &Vec<String>) -> (r: Option<String>)
    ensures
        match r {
            Some(t) => json_array_text(strings_view(items@)) == Some(t@),
            None => json_array_text(strings_view(items@)).is_none(),
        },
{
    serde_json::to_string(items).ok()
}

/// Relies on `serde_json::from_str`: decodes a JSON array of strings; the
/// outcome depends on the text alone.
#[verifier::external_body]
fn decode_strings(text: &str) -> (r: Option<Vec<String>>)
    ensures
        match r {
            Some(v) => json_string_array(text@) == Some(strings_view(v@)),
            None => json_string_array(text@).is_none(),
        },
{
    serde_json::from_str::<Vec<String>>(text).ok()
}

/// Stored form of a task list when encoding fails.
pub open spec fn empty_list_text() -> Seq<char> {
    "[]"@
}

/// The stored text of a task list, given what the encoder produced.
pub fn tasks_text_or_default(encoded: Option<String>) -> (r: String)
    ensures
        r@ == match encoded {
            Some(t) => t@,
            None => empty_list_text(),
        },
{
    match encoded {
        Some(t) => t,
        None => "[]".to_owned(),
    }
}

/// The task list read from storage, given what the decoder produced.
pub fn tasks_or_empty(decoded: Option<Vec<String>>) -> (r: Vec<String>)
    ensures
        r@ == match decoded {
            Some(v) => v@,
            None => Seq::<String>::empty(),
        },
{
    match decoded {
        Some(v) => v,
        None => Vec::new(),
    }
}

/// Encodes a task list for storage.
pub fn serialize_tasks(tasks: &Vec<String>) -> (r: String)
    ensures
        r@ == match json_array_text(strings_view(tasks@)) {
            Some(t) => t,
            None => empty_list_text(),
        },
{
    tasks_text_or_default(encode_strings(tasks))
}

/// Decodes a stored task list; text that is not a JSON list of strings gives
/// the empty list.
pub fn deserialize_tasks(value: &str) -> (r: Vec<String>)
    ensures
        match json_string_array(value@) {
            Some(items) => strings_view(r@) == items,
            None => r@.len() == 0,
        },
{
    tasks_or_empty(decode_strings(value))
}

} // verus!
