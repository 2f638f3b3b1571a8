//! Clearance for a tool call: the action has to be enabled, and the security
//! policy is asked in turn about the rate limit, the action budget and the
//! operation.
use vstd::prelude::*;
use crate::text::{cat3, cat5, opt_str, texts};
use crate::tools::result::{
    error_model, is_listed, verdict_model, ResultModel, ToolOperation, ToolResult,
};

verus! {

/// What the security policy has answered so far.
#[derive(Debug)]
pub struct PolicyAnswers {
    /// Whether the rate limit is exceeded.
    pub rate_limited: Option<bool>,
    /// Whether the action could be recorded against the action budget.
    pub recorded: Option<bool>,
    /// Whether the operation is allowed.
    pub verdict: Option<Result<(), String>>,
}

/// What the security policy has answered so far. Of the operation it is told
/// whether there is an answer, and then the refusal, if it is one.
pub struct AnswersModel {
    pub rate_limited: Option<bool>,
    pub recorded: Option<bool>,
    pub verdict: Option<Option<Seq<char>>>,
}

impl View for PolicyAnswers {
    type V = AnswersModel;

    open spec fn view(&self) -> AnswersModel {
        AnswersModel {
            rate_limited: self.rate_limited,
            recorded: self.recorded,
            verdict: match self.verdict {
                Some(verdict) => Some(verdict_model(verdict)),
                None => None,
            },
        }
    }
}

impl PolicyAnswers {
    /// No answer yet.
    pub fn none() -> (answers: PolicyAnswers)
        ensures
            answers@ == (AnswersModel { rate_limited: None, recorded: None, verdict: None }),
    {
        PolicyAnswers { rate_limited: None, recorded: None, verdict: None }
    }
}

/// A question to the security policy.
#[derive(Debug, Clone, Copy, PartialEq, Eq, Structural)]
pub enum Question {
    /// Is the rate limit exceeded?
    RateLimited,
    /// Record an action: is there budget left for it?
    Record,
    /// Is the operation allowed?
    Enforce(ToolOperation),
}

/// How far the clearance of a call is.
#[derive(Debug)]
pub enum Clearance {
    /// The call is malformed.
    Failed(String),
    /// The call is refused.
    Refused(ToolResult),
    /// The policy has to be asked first.
    Ask(Question),
    /// The call may go on.
    Open,
}

/// How far the clearance of a call is.
pub enum ClearanceModel {
    Failed(Seq<char>),
    Refused(ResultModel),
    Ask(Question),
    Open,
}

impl View for Clearance {
    type V = ClearanceModel;

    open spec fn view(&self) -> ClearanceModel {
        match *self {
            Clearance::Failed(error) => ClearanceModel::Failed(error@),
            Clearance::Refused(result) => ClearanceModel::Refused(result@),
            Clearance::Ask(question) => ClearanceModel::Ask(question),
            Clearance::Open => ClearanceModel::Open,
        }
    }
}

/// Where a call of an action stands, given what the policy has answered so far.
pub open spec fn clearance(
    tool: Seq<char>,
    allowed_actions: Seq<Seq<char>>,
    action: Option<Seq<char>>,
    operation: ToolOperation,
    answers: AnswersModel,
) -> ClearanceModel {
    match action {
        None => ClearanceModel::Failed("missing required parameter: action"@),
        Some(action) => if !allowed_actions.contains(action) {
            ClearanceModel::Refused(
                error_model(
                    "action '"@ + action + "' is not in the allowed_actions list. Update ["@ + tool
                        + "].allowed_actions in config to enable it."@,
                ),
            )
        } else if answers.rate_limited is None {
            ClearanceModel::Ask(Question::RateLimited)
        } else if answers.rate_limited->0 {
            ClearanceModel::Refused(error_model("Rate limit exceeded for "@ + tool + " tool."@))
        } else if answers.recorded is None {
            ClearanceModel::Ask(Question::Record)
        } else if !answers.recorded->0 {
            ClearanceModel::Refused(error_model("Action budget exhausted."@))
        } else {
            match answers.verdict {
                None => ClearanceModel::Ask(Question::Enforce(operation)),
                Some(Some(refusal)) => ClearanceModel::Refused(error_model(refusal)),
                Some(None) => ClearanceModel::Open,
            }
        },
    }
}

/// Where a call stands, given what the policy has answered so far.
pub fn check_clearance(
    tool: &str,
    allowed_actions: &Vec<String>,
    action: Option<&str>,
    operation: ToolOperation,
    answers: &PolicyAnswers,
) -> (state: Clearance)
    ensures
        state@ == clearance(
            tool@,
            texts(allowed_actions@),
            opt_str(action),
            operation,
            answers@,
        ),
{
    let action = match action {
        Some(action) => action,
        None => {
            return Clearance::Failed("missing required parameter: action".to_string());
        },
    };
    if !is_listed(allowed_actions, action) {
        return Clearance::Refused(
            ToolResult::error(
                cat5(
                    "action '",
                    action,
                    "' is not in the allowed_actions list. Update [",
                    tool,
                    "].allowed_actions in config to enable it.",
                ),
            ),
        );
    }
    match answers.rate_limited {
        None => {
            return Clearance::Ask(Question::RateLimited);
        },
        Some(limited) => {
            if limited {
                return Clearance::Refused(
                    ToolResult::error(cat3("Rate limit exceeded for ", tool, " tool.")),
                );
            }
        },
    }
    match answers.recorded {
        None => {
            return Clearance::Ask(Question::Record);
        },
        Some(recorded) => {
            if !recorded {
                return Clearance::Refused(ToolResult::refusal("Action budget exhausted."));
            }
        },
    }
    match &answers.verdict {
        None => Clearance::Ask(Question::Enforce(operation)),
        Some(verdict) => match verdict {
            Err(refusal) => Clearance::Refused(ToolResult::refusal(refusal.as_str())),
            Ok(_) => Clearance::Open,
        },
    }
}

/// A call is cleared exactly for an action that is enabled, within the rate limit,
/// recorded, and allowed as an operation; the policy is asked nothing about an
/// action that is not enabled, and nothing is recorded beyond the rate limit.
pub proof fn law_calls_are_cleared_only_on_permission(
    tool: Seq<char>,
    allowed_actions: Seq<Seq<char>>,
    action: Seq<char>,
    operation: ToolOperation,
    answers: AnswersModel,
)
    ensures
        clearance(tool, allowed_actions, Some(action), operation, answers) is Open <==> {
            &&& allowed_actions.contains(action)
            &&& answers.rate_limited == Some(false)
            &&& answers.recorded == Some(true)
            &&& answers.verdict == Some(None::<Seq<char>>)
        },
        clearance(tool, allowed_actions, Some(action), operation, answers) is Ask
            ==> allowed_actions.contains(action),
        clearance(tool, allowed_actions, Some(action), operation, answers) == ClearanceModel::Ask(
            Question::Record,
        ) ==> answers.rate_limited == Some(false),
        match clearance(tool, allowed_actions, Some(action), operation, answers) {
            ClearanceModel::Refused(result) => {
                &&& !result.success
                &&& result.output.len() == 0
                &&& result.error is Some
            },
            _ => true,
        },
        clearance(tool, allowed_actions, None, operation, answers) is Failed,
{
}

/// The policy is only asked what it has not answered yet.
pub proof fn law_no_question_is_asked_twice(
    tool: Seq<char>,
    allowed_actions: Seq<Seq<char>>,
    action: Option<Seq<char>>,
    operation: ToolOperation,
    answers: AnswersModel,
)
    ensures
        match clearance(tool, allowed_actions, action, operation, answers) {
            ClearanceModel::Ask(Question::RateLimited) => answers.rate_limited is None,
            ClearanceModel::Ask(Question::Record) => answers.recorded is None,
            ClearanceModel::Ask(Question::Enforce(asked)) => answers.verdict is None && asked
                == operation,
            _ => true,
        },
{
}

} // verus!
