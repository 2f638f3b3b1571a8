//! Parameters of tool calls.
use vstd::prelude::*;
use crate::json::{text_at, Json, JsonModel};
use crate::text::cat2;

verus! {

/// What a text that is missing, or there, says.
pub open spec fn text_result(text: Result<String, String>) -> Result<Seq<char>, Seq<char>> {
    match text {
        Ok(t) => Ok(t@),
        Err(e) => Err(e@),
    }
}

/// A text parameter that has to be there.
pub open spec fn required_text(args: JsonModel, key: Seq<char>) -> Result<Seq<char>, Seq<char>> {
    match text_at(args, key) {
        Some(text) => Ok(text),
        None => Err("missing required parameter: "@ + key),
    }
}

/// A text parameter that has to be there.
pub fn require_str(args: &Json, key: &str) -> (text: Result<String, String>)
    ensures
        text_result(text) == required_text(args@, key@),
{
    match args.str_at(key) {
        Some(text) => Ok(text.to_string()),
        None => Err(cat2("missing required parameter: ", key)),
    }
}

} // verus!
