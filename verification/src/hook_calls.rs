//! What a hook gets back from a tool of an MCP server.
use crate::ids::ProcessId;
use crate::{ids, json, text};
use vstd::prelude::*;

verus! {

/// A part of a tool's result: its type and its text, where it has them.
#[derive(Debug, PartialEq, Eq)]
pub struct ContentPart {
    pub content_type: Option<String>,
    pub text: Option<String>,
}

/// Whether a part is a text.
pub open spec fn is_text(part: ContentPart) -> bool {
    text::opt_text(part.content_type) == Some("text"@) && part.text is Some
}

/// The texts of a result, in order.
pub open spec fn text_parts(parts: Seq<ContentPart>) -> Seq<Seq<char>>
    decreases parts.len(),
{
    if parts.len() == 0 {
        Seq::empty()
    } else {
        let before = text_parts(parts.drop_last());
        if is_text(parts.last()) {
            before.push(parts.last().text.unwrap()@)
        } else {
            before
        }
    }
}

/// The text of a result: its texts on lines of their own.
pub open spec fn result_text(parts: Seq<ContentPart>) -> Seq<char> {
    text::joined(text_parts(parts), "\n"@)
}

/// Makes the answer for a hook of a tool's result. A result that the tool marks as an error is one.
pub fn hook_answer(content: &Vec<ContentPart>, is_error: Option<bool>) -> (r: Result<String, String>)
    ensures
        match is_error {
            Some(true) => r is Err && r->Err_0@ == "MCP tool returned an error: "@ + result_text(
                content@,
            ),
            _ => r is Ok && r->Ok_0@ == result_text(content@),
        },
{
    let mut found: Vec<String> = Vec::new();
    let mut i: usize = 0;
    assert(text::texts(found@) =~= text_parts(content@.take(0)));
    while i < content.len()
        invariant
            i <= content@.len(),
            text::texts(found@) == text_parts(content@.take(i as int)),
        decreases content@.len() - i,
    {
        let ghost before = found@;
        assert(content@.take(i + 1).drop_last() =~= content@.take(i as int));
        if let (Some(content_type), Some(value)) = (&content[i].content_type, &content[i].text) {
            if text::text_eq(content_type.as_str(), "text") {
                found.push(value.clone());
                assert(text::texts(found@) =~= text::texts(before).push(value@));
            }
        }
        i = i + 1;
    }
    assert(content@.take(content@.len() as int) =~= content@);
    let joined = text::join(&found, "\n");
    match is_error {
        Some(true) => Err("MCP tool returned an error: ".to_owned().concat(joined.as_str())),
        _ => Ok(joined),
    }
}

/// The metadata of a hook's call: the thread that it belongs to.
pub fn call_metadata(thread_id: ProcessId) -> (r: serde_json::Value)
    ensures
        json::json_text(r) == json::json_object_text(
            seq![("threadId"@, json::json_quoted(ids::id_text(thread_id)))],
        ),
{
    let mut fields: Vec<(String, serde_json::Value)> = Vec::new();
    fields.push(("threadId".to_owned(), json::json_string(ids::id_to_text(thread_id).as_str())));
    json::json_object(fields)
}

/// A part adds its text, on a line of its own, if it is of the type `text` and has one. Any other part
/// adds nothing.
pub proof fn law_result_is_its_texts_in_order(parts: Seq<ContentPart>, part: ContentPart)
    ensures
        text_parts(Seq::empty()).len() == 0,
        part.text is Some && part.content_type is Some && part.content_type.unwrap()@ == "text"@
            ==> text_parts(parts.push(part)) == text_parts(parts).push(part.text.unwrap()@),
        part.text is None || part.content_type is None || part.content_type.unwrap()@ != "text"@
            ==> text_parts(parts.push(part)) == text_parts(parts),
        text_parts(parts).len() > 0 && text_parts(parts.push(part)) != text_parts(parts)
            ==> result_text(parts.push(part)) == result_text(parts) + "\n"@ + part.text.unwrap()@,
{
    assert(parts.push(part).drop_last() =~= parts);
    if text_parts(parts).len() > 0 && text_parts(parts.push(part)) != text_parts(parts) {
        let all = text_parts(parts).push(part.text.unwrap()@);
        assert(all.drop_last() =~= text_parts(parts));
    }
}

} // verus!
