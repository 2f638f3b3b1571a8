//! The result of a tool call, and the kind of operation that a call is.
use vstd::prelude::*;
use crate::http::json_result;
use crate::json::{Json, JsonModel};
use crate::json_text::{pretty, pretty_json};
use crate::text::{can_cut, can_truncate, cut, opt_string, same, texts, truncate};

verus! {

/// Whether an operation only reads, or acts on something.
#[derive(Debug, Clone, Copy, PartialEq, Eq, Structural)]
pub enum ToolOperation {
    Read,
    Act,
}

/// The result of a tool call.
#[derive(Debug, Clone)]
pub struct ToolResult {
    pub success: bool,
    pub output: String,
    pub error: Option<String>,
}

/// What the result of a tool call says.
pub struct ResultModel {
    pub success: bool,
    pub output: Seq<char>,
    pub error: Option<Seq<char>>,
}

impl View for ToolResult {
    type V = ResultModel;

    open spec fn view(&self) -> ResultModel {
        ResultModel {
            success: self.success,
            output: self.output@,
            error: opt_string(self.error),
        }
    }
}

/// A call that went well.
pub open spec fn success_model(output: Seq<char>) -> ResultModel {
    ResultModel { success: true, output, error: None }
}

/// A call that failed.
pub open spec fn error_model(message: Seq<char>) -> ResultModel {
    ResultModel { success: false, output: Seq::empty(), error: Some(message) }
}

/// A call that went well and printed a value.
pub open spec fn value_result(value: JsonModel) -> ResultModel {
    success_model(pretty(value))
}

/// What came of a call that prints a value or reports an error.
pub open spec fn printed_result(result: Result<JsonModel, Seq<char>>) -> ResultModel {
    match result {
        Ok(value) => value_result(value),
        Err(message) => error_model(message),
    }
}

impl ToolResult {
    /// A call that went well, with its output.
    pub fn success(output: String) -> (result: ToolResult)
        ensures
            result@ == success_model(output@),
    {
        ToolResult { success: true, output, error: None }
    }

    /// A call that failed, with a message.
    pub fn error(msg: String) -> (result: ToolResult)
        ensures
            result@ == error_model(msg@),
    {
        ToolResult { success: false, output: String::new(), error: Some(msg) }
    }

    /// A call that failed, with a message.
    pub fn refusal(msg: &str) -> (result: ToolResult)
        ensures
            result@ == error_model(msg@),
    {
        ToolResult::error(msg.to_string())
    }
}

/// A call that went well, with the value that it printed.
pub fn success_result(data: &Json) -> (result: ToolResult)
    ensures
        result@ == value_result(data@),
{
    ToolResult::success(pretty_json(data))
}

/// The result of a call that prints a value or reports an error.
pub fn print_result(result: Result<Json, String>) -> (printed: ToolResult)
    ensures
        printed@ == printed_result(json_result(result)),
{
    match result {
        Ok(value) => success_result(&value),
        Err(message) => ToolResult::error(message),
    }
}

/// How much of the text of an error is kept, in bytes.
pub const MAX_ERROR_TEXT_BYTES: usize = 500;

/// What a call that a provider performed comes to: the printed value, or the
/// beginning of the error.
pub open spec fn provider_result(result: Result<JsonModel, Seq<char>>) -> ResultModel {
    match result {
        Ok(value) => value_result(value),
        Err(message) => error_model(cut(message, MAX_ERROR_TEXT_BYTES as int, "..."@)),
    }
}

/// Whether the error of a provider, if there is one, can be cut.
pub open spec fn error_cuttable(result: Result<JsonModel, Seq<char>>) -> bool {
    match result {
        Ok(_) => true,
        Err(message) => can_cut(message, MAX_ERROR_TEXT_BYTES as int),
    }
}

/// Whether the error of a provider, if there is one, can be cut: false where
/// that would be inside a character.
pub fn is_error_cuttable(result: &Result<Json, String>) -> (possible: bool)
    ensures
        possible == error_cuttable(json_result(*result)),
{
    match result {
        Ok(_) => true,
        Err(message) => can_truncate(message.as_str(), MAX_ERROR_TEXT_BYTES),
    }
}

/// What a call that a provider performed comes to.
pub fn finish_call(result: Result<Json, String>) -> (finished: ToolResult)
    requires
        error_cuttable(json_result(result)),
    ensures
        finished@ == provider_result(json_result(result)),
{
    match result {
        Ok(value) => success_result(&value),
        Err(message) => ToolResult::error(truncate(message.as_str(), MAX_ERROR_TEXT_BYTES)),
    }
}

/// Whether `text` is among `items`.
pub fn is_listed(items: &Vec<String>, text: &str) -> (found: bool)
    ensures
        found == texts(items@).contains(text@),
{
    let mut i: usize = 0;
    while i < items.len()
        invariant
            i <= items.len(),
            forall|k: int| 0 <= k < i ==> (#[trigger] texts(items@)[k]) != text@,
        decreases items.len() - i,
    {
        assert(texts(items@)[i as int] == items@[i as int]@);
        if same(items[i].as_str(), text) {
            return true;
        }
        i = i + 1;
    }
    false
}

/// Whether a call is refused, or what kind of operation it is.
#[derive(Debug)]
pub enum Admission {
    Refused(ToolResult),
    Granted(ToolOperation),
}

/// Whether a call is refused, or what kind of operation it is.
pub enum AdmissionModel {
    Refused(ResultModel),
    Granted(ToolOperation),
}

impl View for Admission {
    type V = AdmissionModel;

    open spec fn view(&self) -> AdmissionModel {
        match *self {
            Admission::Refused(result) => AdmissionModel::Refused(result@),
            Admission::Granted(operation) => AdmissionModel::Granted(operation),
        }
    }
}

/// What the policy said of an operation: nothing against it, or a refusal.
pub open spec fn verdict_model(verdict: Result<(), String>) -> Option<Seq<char>> {
    match verdict {
        Ok(_) => None,
        Err(refusal) => Some(refusal@),
    }
}

/// A call succeeds exactly when it has no error, and a call that failed has no
/// output.
pub proof fn law_result_is_success_or_error(output: Seq<char>, message: Seq<char>)
    ensures
        success_model(output).success && success_model(output).error is None,
        !error_model(message).success && error_model(message).error == Some(message),
        error_model(message).output.len() == 0,
{
}

} // verus!
