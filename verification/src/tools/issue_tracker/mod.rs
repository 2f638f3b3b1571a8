//! The issue-tracker tool: epics, issues, dependencies and sync, by way of a
//! provider.
pub mod beads;
pub mod laws;
pub mod types;

use vstd::prelude::*;
use crate::http::json_result;
use crate::json::{str_texts, text_at, unsigned_at, Json, JsonModel, JsonObject};
use crate::text::{cat2, opt_string, owned, same, texts};
use crate::tools::args::{require_str, required_text};
use crate::tools::issue_tracker::types::{
    DepAddInput, DepAddInputModel, EpicCreateInput, EpicCreateInputModel, EpicUpdateInput,
    EpicUpdateInputModel, IssueCreateInput, IssueCreateInputModel, IssueListParams,
    IssueListParamsModel, IssueUpdateInput, IssueUpdateInputModel,
};
use crate::tools::policy::{
    check_clearance, clearance, AnswersModel, Clearance, ClearanceModel, PolicyAnswers, Question,
};
use crate::tools::result::{
    error_cuttable, error_model, finish_call, is_listed, provider_result, ResultModel,
    ToolOperation, ToolResult,
};
use crate::tools::schema::{
    choice_model, choice_property, parameter_schema, range_model, range_property, schema_model,
    string_model, string_property,
};

verus! {

/// Tool for issue-tracking operations (epics, issues, dependencies, sync).
///
/// Supports 17 actions gated by `[issue_tracker].allowed_actions` in config:
/// - `epic.create`: create a new epic
/// - `epic.get`: get epic details
/// - `epic.update`: update an epic
/// - `epic.delete`: close/delete an epic
/// - `issue.create`: create an issue
/// - `issue.get`: get issue details
/// - `issue.update`: update an issue
/// - `issue.delete`: close/delete an issue
/// - `issue.next`: get the next unblocked issue
/// - `issue.assign`: assign an issue to a team member
/// - `issue.list`: list/filter issues
/// - `dep.add`: add a dependency between issues
/// - `dep.remove`: remove a dependency
/// - `dep.tree`: show dependency tree
/// - `sync.push`: push changes to remote
/// - `sync.pull`: pull changes from remote
/// - `sync.status`: show sync status
pub struct IssueTrackerTool {
    allowed_actions: Vec<String>,
}

/// How the tool is set up.
pub struct IssueToolModel {
    pub allowed_actions: Seq<Seq<char>>,
}

impl View for IssueTrackerTool {
    type V = IssueToolModel;

    closed spec fn view(&self) -> IssueToolModel {
        IssueToolModel { allowed_actions: texts(self.allowed_actions@) }
    }
}

/// What an issue-tracker provider is asked to do.
#[derive(Debug)]
pub enum IssueCall {
    EpicCreate { input: EpicCreateInput },
    EpicGet { epic_id: String },
    EpicUpdate { epic_id: String, input: EpicUpdateInput },
    EpicDelete { epic_id: String, reason: Option<String> },
    IssueCreate { input: IssueCreateInput },
    IssueGet { issue_id: String },
    IssueUpdate { issue_id: String, input: IssueUpdateInput },
    IssueDelete { issue_id: String, reason: Option<String> },
    IssueNext,
    IssueAssign { issue_id: String, assignee: String },
    IssueList { params: IssueListParams },
    DepAdd { input: DepAddInput },
    DepRemove { from_id: String, to_id: String },
    DepTree { issue_id: String },
    SyncPush,
    SyncPull,
    SyncStatus,
}

/// What an issue-tracker provider is asked to do.
pub enum IssueCallModel {
    EpicCreate { input: EpicCreateInputModel },
    EpicGet { epic_id: Seq<char> },
    EpicUpdate { epic_id: Seq<char>, input: EpicUpdateInputModel },
    EpicDelete { epic_id: Seq<char>, reason: Option<Seq<char>> },
    IssueCreate { input: IssueCreateInputModel },
    IssueGet { issue_id: Seq<char> },
    IssueUpdate { issue_id: Seq<char>, input: IssueUpdateInputModel },
    IssueDelete { issue_id: Seq<char>, reason: Option<Seq<char>> },
    IssueNext,
    IssueAssign { issue_id: Seq<char>, assignee: Seq<char> },
    IssueList { params: IssueListParamsModel },
    DepAdd { input: DepAddInputModel },
    DepRemove { from_id: Seq<char>, to_id: Seq<char> },
    DepTree { issue_id: Seq<char> },
    SyncPush,
    SyncPull,
    SyncStatus,
}

impl View for IssueCall {
    type V = IssueCallModel;

    open spec fn view(&self) -> IssueCallModel {
        match *self {
            IssueCall::EpicCreate { input } => IssueCallModel::EpicCreate {
                input: input@,
            },
            IssueCall::EpicGet { epic_id } => IssueCallModel::EpicGet {
                epic_id: epic_id@,
            },
            IssueCall::EpicUpdate { epic_id, input } => IssueCallModel::EpicUpdate {
                epic_id: epic_id@,
                input: input@,
            },
            IssueCall::EpicDelete { epic_id, reason } => IssueCallModel::EpicDelete {
                epic_id: epic_id@,
                reason: opt_string(reason),
            },
            IssueCall::IssueCreate { input } => IssueCallModel::IssueCreate {
                input: input@,
            },
            IssueCall::IssueGet { issue_id } => IssueCallModel::IssueGet {
                issue_id: issue_id@,
            },
            IssueCall::IssueUpdate { issue_id, input } => IssueCallModel::IssueUpdate {
                issue_id: issue_id@,
                input: input@,
            },
            IssueCall::IssueDelete { issue_id, reason } => IssueCallModel::IssueDelete {
                issue_id: issue_id@,
                reason: opt_string(reason),
            },
            IssueCall::IssueNext => IssueCallModel::IssueNext,
            IssueCall::IssueAssign { issue_id, assignee } => IssueCallModel::IssueAssign {
                issue_id: issue_id@,
                assignee: assignee@,
            },
            IssueCall::IssueList { params } => IssueCallModel::IssueList {
                params: params@,
            },
            IssueCall::DepAdd { input } => IssueCallModel::DepAdd {
                input: input@,
            },
            IssueCall::DepRemove { from_id, to_id } => IssueCallModel::DepRemove {
                from_id: from_id@,
                to_id: to_id@,
            },
            IssueCall::DepTree { issue_id } => IssueCallModel::DepTree {
                issue_id: issue_id@,
            },
            IssueCall::SyncPush => IssueCallModel::SyncPush,
            IssueCall::SyncPull => IssueCallModel::SyncPull,
            IssueCall::SyncStatus => IssueCallModel::SyncStatus,
        }
    }
}

/// What a call that could not be made, or was made, says.
pub open spec fn call_result(call: Result<IssueCall, String>) -> Result<
    IssueCallModel,
    Seq<char>,
> {
    match call {
        Ok(c) => Ok(c@),
        Err(e) => Err(e@),
    }
}

/// What to do next.
#[derive(Debug)]
pub enum IssueStep {
    /// The call is malformed.
    Failed(String),
    /// Nothing: this is what the call came to.
    Done(ToolResult),
    /// Ask the security policy.
    Ask(Question),
    /// Have the provider perform a call.
    Call(IssueCall),
}

/// What to do next.
pub enum IssueStepModel {
    Failed(Seq<char>),
    Done(ResultModel),
    Ask(Question),
    Call(IssueCallModel),
}

impl View for IssueStep {
    type V = IssueStepModel;

    open spec fn view(&self) -> IssueStepModel {
        match *self {
            IssueStep::Failed(error) => IssueStepModel::Failed(error@),
            IssueStep::Done(result) => IssueStepModel::Done(result@),
            IssueStep::Ask(question) => IssueStepModel::Ask(question),
            IssueStep::Call(call) => IssueStepModel::Call(call@),
        }
    }
}

/// The actions of the tool.
pub open spec fn issue_actions() -> Seq<Seq<char>> {
    seq![
        "epic.create"@,
        "epic.get"@,
        "epic.update"@,
        "epic.delete"@,
        "issue.create"@,
        "issue.get"@,
        "issue.update"@,
        "issue.delete"@,
        "issue.next"@,
        "issue.assign"@,
        "issue.list"@,
        "dep.add"@,
        "dep.remove"@,
        "dep.tree"@,
        "sync.push"@,
        "sync.pull"@,
        "sync.status"@,
    ]
}

/// What kind of operation an action is.
pub open spec fn issue_operation(action: Seq<char>) -> ToolOperation {
    if action == "epic.get"@ || action == "issue.get"@ || action == "issue.next"@ || action
        == "issue.list"@ || action == "dep.tree"@ || action == "sync.status"@ {
        ToolOperation::Read
    } else {
        ToolOperation::Act
    }
}

/// What kind of operation an action is.
pub fn operation_of(action: &str) -> (operation: ToolOperation)
    ensures
        operation == issue_operation(action@),
{
    if same(action, "epic.get") || same(action, "issue.get") || same(action, "issue.next")
        || same(action, "issue.list") || same(action, "dep.tree") || same(action, "sync.status") {
        ToolOperation::Read
    } else {
        ToolOperation::Act
    }
}

/// A priority: the number, or the greatest that fits.
pub open spec fn priority_of(v: u64) -> u8 {
    if v <= 255 {
        v as u8
    } else {
        255
    }
}

/// Reads a priority.
pub fn parse_priority(v: u64) -> (priority: u8)
    ensures
        priority == priority_of(v),
{
    if v <= 255 {
        v as u8
    } else {
        255
    }
}

/// The priority among the arguments.
pub open spec fn priority_at(args: JsonModel) -> Option<u8> {
    match unsigned_at(args, "priority"@) {
        Some(v) => Some(priority_of(v)),
        None => None,
    }
}

fn priority_arg(args: &Json) -> (priority: Option<u8>)
    ensures
        priority == priority_at(args@),
{
    match args.u64_at("priority") {
        Some(v) => Some(parse_priority(v)),
        None => None,
    }
}

/// `epic.create`
pub open spec fn epic_create_call(args: JsonModel) -> Result<IssueCallModel, Seq<char>> {
    match required_text(args, "title"@) {
        Err(error) => Err(error),
        Ok(title) => Ok(
            IssueCallModel::EpicCreate {
                input: EpicCreateInputModel {
                    title,
                    body: text_at(args, "body"@),
                    priority: priority_at(args),
                    label: text_at(args, "label"@),
                },
            },
        ),
    }
}

/// `epic.get`
pub open spec fn epic_get_call(args: JsonModel) -> Result<IssueCallModel, Seq<char>> {
    match required_text(args, "epic_id"@) {
        Err(error) => Err(error),
        Ok(epic_id) => Ok(
            IssueCallModel::EpicGet {
                epic_id,
            },
        ),
    }
}

/// `epic.update`
pub open spec fn epic_update_call(args: JsonModel) -> Result<IssueCallModel, Seq<char>> {
    match required_text(args, "epic_id"@) {
        Err(error) => Err(error),
        Ok(epic_id) => Ok(
            IssueCallModel::EpicUpdate {
                epic_id,
                input: EpicUpdateInputModel {
                    title: text_at(args, "title"@),
                    body: text_at(args, "body"@),
                    priority: priority_at(args),
                    status: text_at(args, "status"@),
                    label: text_at(args, "label"@),
                },
            },
        ),
    }
}

/// `epic.delete`
pub open spec fn epic_delete_call(args: JsonModel) -> Result<IssueCallModel, Seq<char>> {
    match required_text(args, "epic_id"@) {
        Err(error) => Err(error),
        Ok(epic_id) => Ok(
            IssueCallModel::EpicDelete {
                epic_id,
                reason: text_at(args, "reason"@),
            },
        ),
    }
}

/// `issue.create`
pub open spec fn issue_create_call(args: JsonModel) -> Result<IssueCallModel, Seq<char>> {
    match required_text(args, "title"@) {
        Err(error) => Err(error),
        Ok(title) => Ok(
            IssueCallModel::IssueCreate {
                input: IssueCreateInputModel {
                    title,
                    parent: text_at(args, "parent"@),
                    body: text_at(args, "body"@),
                    priority: priority_at(args),
                    label: text_at(args, "label"@),
                    assignee: text_at(args, "assignee"@),
                    deps: text_at(args, "deps"@),
                },
            },
        ),
    }
}

/// `issue.get`
pub open spec fn issue_get_call(args: JsonModel) -> Result<IssueCallModel, Seq<char>> {
    match required_text(args, "issue_id"@) {
        Err(error) => Err(error),
        Ok(issue_id) => Ok(
            IssueCallModel::IssueGet {
                issue_id,
            },
        ),
    }
}

/// `issue.update`
pub open spec fn issue_update_call(args: JsonModel) -> Result<IssueCallModel, Seq<char>> {
    match required_text(args, "issue_id"@) {
        Err(error) => Err(error),
        Ok(issue_id) => Ok(
            IssueCallModel::IssueUpdate {
                issue_id,
                input: IssueUpdateInputModel {
                    title: text_at(args, "title"@),
                    body: text_at(args, "body"@),
                    priority: priority_at(args),
                    status: text_at(args, "status"@),
                    label: text_at(args, "label"@),
                    assignee: text_at(args, "assignee"@),
                },
            },
        ),
    }
}

/// `issue.delete`
pub open spec fn issue_delete_call(args: JsonModel) -> Result<IssueCallModel, Seq<char>> {
    match required_text(args, "issue_id"@) {
        Err(error) => Err(error),
        Ok(issue_id) => Ok(
            IssueCallModel::IssueDelete {
                issue_id,
                reason: text_at(args, "reason"@),
            },
        ),
    }
}

/// `issue.assign`
pub open spec fn issue_assign_call(args: JsonModel) -> Result<IssueCallModel, Seq<char>> {
    match required_text(args, "issue_id"@) {
        Err(error) => Err(error),
        Ok(issue_id) => match required_text(args, "assignee"@) {
            Err(error) => Err(error),
            Ok(assignee) => Ok(
                IssueCallModel::IssueAssign {
                    issue_id,
                    assignee,
                },
            ),
        },
    }
}

/// `issue.list`
pub open spec fn issue_list_call(args: JsonModel) -> Result<IssueCallModel, Seq<char>> {
    Ok(
        IssueCallModel::IssueList {
            params: IssueListParamsModel {
                status: text_at(args, "status"@),
                priority: priority_at(args),
                assignee: text_at(args, "assignee"@),
                parent: text_at(args, "parent"@),
            },
        },
    )
}

/// `dep.add`
pub open spec fn dep_add_call(args: JsonModel) -> Result<IssueCallModel, Seq<char>> {
    match required_text(args, "from_id"@) {
        Err(error) => Err(error),
        Ok(from_id) => match required_text(args, "to_id"@) {
            Err(error) => Err(error),
            Ok(to_id) => Ok(
                IssueCallModel::DepAdd {
                    input: DepAddInputModel {
                        from_id,
                        to_id,
                        dep_type: text_at(args, "dep_type"@),
                    },
                },
            ),
        },
    }
}

/// `dep.remove`
pub open spec fn dep_remove_call(args: JsonModel) -> Result<IssueCallModel, Seq<char>> {
    match required_text(args, "from_id"@) {
        Err(error) => Err(error),
        Ok(from_id) => match required_text(args, "to_id"@) {
            Err(error) => Err(error),
            Ok(to_id) => Ok(
                IssueCallModel::DepRemove {
                    from_id,
                    to_id,
                },
            ),
        },
    }
}

/// `dep.tree`
pub open spec fn dep_tree_call(args: JsonModel) -> Result<IssueCallModel, Seq<char>> {
    match required_text(args, "issue_id"@) {
        Err(error) => Err(error),
        Ok(issue_id) => Ok(
            IssueCallModel::DepTree {
                issue_id,
            },
        ),
    }
}

/// The call that an action makes, where there is such an action.
pub open spec fn issue_call(action: Seq<char>, args: JsonModel) -> Option<
    Result<IssueCallModel, Seq<char>>,
> {
    if action == "epic.create"@ {
        Some(epic_create_call(args))
    } else if action == "epic.get"@ {
        Some(epic_get_call(args))
    } else if action == "epic.update"@ {
        Some(epic_update_call(args))
    } else if action == "epic.delete"@ {
        Some(epic_delete_call(args))
    } else if action == "issue.create"@ {
        Some(issue_create_call(args))
    } else if action == "issue.get"@ {
        Some(issue_get_call(args))
    } else if action == "issue.update"@ {
        Some(issue_update_call(args))
    } else if action == "issue.delete"@ {
        Some(issue_delete_call(args))
    } else if action == "issue.next"@ {
        Some(Ok(IssueCallModel::IssueNext))
    } else if action == "issue.assign"@ {
        Some(issue_assign_call(args))
    } else if action == "issue.list"@ {
        Some(issue_list_call(args))
    } else if action == "dep.add"@ {
        Some(dep_add_call(args))
    } else if action == "dep.remove"@ {
        Some(dep_remove_call(args))
    } else if action == "dep.tree"@ {
        Some(dep_tree_call(args))
    } else if action == "sync.push"@ {
        Some(Ok(IssueCallModel::SyncPush))
    } else if action == "sync.pull"@ {
        Some(Ok(IssueCallModel::SyncPull))
    } else if action == "sync.status"@ {
        Some(Ok(IssueCallModel::SyncStatus))
    } else {
        None
    }
}

impl IssueToolModel {
    /// What a call does, given what the policy has answered so far.
    pub open spec fn step(self, args: JsonModel, answers: AnswersModel) -> IssueStepModel {
        let action = text_at(args, "action"@);
        let operation = match action {
            Some(action) => issue_operation(action),
            None => ToolOperation::Act,
        };
        match clearance("issue_tracker"@, self.allowed_actions, action, operation, answers) {
            ClearanceModel::Failed(error) => IssueStepModel::Failed(error),
            ClearanceModel::Refused(result) => IssueStepModel::Done(result),
            ClearanceModel::Ask(question) => IssueStepModel::Ask(question),
            ClearanceModel::Open => match issue_call(action->0, args) {
                Some(Ok(call)) => IssueStepModel::Call(call),
                Some(Err(error)) => IssueStepModel::Done(error_model(error)),
                None => IssueStepModel::Done(error_model("unknown action: "@ + action->0)),
            },
        }
    }
}

/// The parameters of the tool.
pub open spec fn issue_properties() -> Map<Seq<char>, JsonModel> {
    Map::empty().insert("action"@, choice_model(issue_actions(), "The issue-tracker action to perform."@)).insert(
        "issue_id"@,
        string_model("Issue ID (e.g. 'bd-a3f8' or 'bd-a3f8.1')."@),
    ).insert(
        "epic_id"@,
        string_model("Epic ID (e.g. 'bd-a3f8')."@),
    ).insert(
        "title"@,
        string_model("Title for epic/issue create or update."@),
    ).insert(
        "body"@,
        string_model("Description body for epic/issue create or update."@),
    ).insert(
        "priority"@,
        range_model(1, 5, "Priority level (1 = highest, 5 = lowest)."@),
    ).insert(
        "status"@,
        choice_model(seq!["open"@, "in_progress"@, "closed"@, "blocked"@], "Issue status for update or list filtering."@),
    ).insert(
        "label"@,
        string_model("Label for epic/issue create or update."@),
    ).insert(
        "assignee"@,
        string_model("Assignee name for issue.assign, issue.create, or issue.update."@),
    ).insert(
        "parent"@,
        string_model("Parent epic ID for issue.create or issue.list filtering."@),
    ).insert(
        "deps"@,
        string_model("Comma-separated dependency IDs for issue.create."@),
    ).insert(
        "reason"@,
        string_model("Reason for closing/deleting an epic or issue."@),
    ).insert(
        "from_id"@,
        string_model("Source issue ID for dep.add/dep.remove (the issue that depends)."@),
    ).insert(
        "to_id"@,
        string_model("Target issue ID for dep.add/dep.remove (the issue being depended on)."@),
    ).insert(
        "dep_type"@,
        choice_model(seq!["blocks"@, "relates_to"@, "duplicates"@, "supersedes"@], "Dependency type for dep.add. Default: 'blocks'."@),
    )
}

impl IssueTrackerTool {
    /// Create a tool with the actions that it allows.
    pub fn new(allowed_actions: Vec<String>) -> (tool: Self)
        ensures
            tool@ == (IssueToolModel { allowed_actions: texts(allowed_actions@) }),
    {
        IssueTrackerTool { allowed_actions }
    }

    /// Whether an action may be called.
    pub fn is_action_allowed(&self, action: &str) -> (allowed: bool)
        ensures
            allowed == self@.allowed_actions.contains(action@),
    {
        is_listed(&self.allowed_actions, action)
    }

    /// `epic.create`
    pub fn handle_epic_create(&self, args: &Json) -> (call: Result<IssueCall, String>)
        ensures
            call_result(call) == epic_create_call(args@),
    {
        let title = match require_str(args, "title") {
            Ok(title) => title,
            Err(error) => {
                return Err(error);
            },
        };
        Ok(
            IssueCall::EpicCreate {
                input: EpicCreateInput {
                    title,
                    body: owned(args.str_at("body")),
                    priority: priority_arg(args),
                    label: owned(args.str_at("label")),
                },
            },
        )
    }

    /// `epic.get`
    pub fn handle_epic_get(&self, args: &Json) -> (call: Result<IssueCall, String>)
        ensures
            call_result(call) == epic_get_call(args@),
    {
        let epic_id = match require_str(args, "epic_id") {
            Ok(epic_id) => epic_id,
            Err(error) => {
                return Err(error);
            },
        };
        Ok(
            IssueCall::EpicGet {
                epic_id,
            },
        )
    }

    /// `epic.update`
    pub fn handle_epic_update(&self, args: &Json) -> (call: Result<IssueCall, String>)
        ensures
            call_result(call) == epic_update_call(args@),
    {
        let epic_id = match require_str(args, "epic_id") {
            Ok(epic_id) => epic_id,
            Err(error) => {
                return Err(error);
            },
        };
        Ok(
            IssueCall::EpicUpdate {
                epic_id,
                input: EpicUpdateInput {
                    title: owned(args.str_at("title")),
                    body: owned(args.str_at("body")),
                    priority: priority_arg(args),
                    status: owned(args.str_at("status")),
                    label: owned(args.str_at("label")),
                },
            },
        )
    }

    /// `epic.delete`
    pub fn handle_epic_delete(&self, args: &Json) -> (call: Result<IssueCall, String>)
        ensures
            call_result(call) == epic_delete_call(args@),
    {
        let epic_id = match require_str(args, "epic_id") {
            Ok(epic_id) => epic_id,
            Err(error) => {
                return Err(error);
            },
        };
        Ok(
            IssueCall::EpicDelete {
                epic_id,
                reason: owned(args.str_at("reason")),
            },
        )
    }

    /// `issue.create`
    pub fn handle_issue_create(&self, args: &Json) -> (call: Result<IssueCall, String>)
        ensures
            call_result(call) == issue_create_call(args@),
    {
        let title = match require_str(args, "title") {
            Ok(title) => title,
            Err(error) => {
                return Err(error);
            },
        };
        Ok(
            IssueCall::IssueCreate {
                input: IssueCreateInput {
                    title,
                    parent: owned(args.str_at("parent")),
                    body: owned(args.str_at("body")),
                    priority: priority_arg(args),
                    label: owned(args.str_at("label")),
                    assignee: owned(args.str_at("assignee")),
                    deps: owned(args.str_at("deps")),
                },
            },
        )
    }

    /// `issue.get`
    pub fn handle_issue_get(&self, args: &Json) -> (call: Result<IssueCall, String>)
        ensures
            call_result(call) == issue_get_call(args@),
    {
        let issue_id = match require_str(args, "issue_id") {
            Ok(issue_id) => issue_id,
            Err(error) => {
                return Err(error);
            },
        };
        Ok(
            IssueCall::IssueGet {
                issue_id,
            },
        )
    }

    /// `issue.update`
    pub fn handle_issue_update(&self, args: &Json) -> (call: Result<IssueCall, String>)
        ensures
            call_result(call) == issue_update_call(args@),
    {
        let issue_id = match require_str(args, "issue_id") {
            Ok(issue_id) => issue_id,
            Err(error) => {
                return Err(error);
            },
        };
        Ok(
            IssueCall::IssueUpdate {
                issue_id,
                input: IssueUpdateInput {
                    title: owned(args.str_at("title")),
                    body: owned(args.str_at("body")),
                    priority: priority_arg(args),
                    status: owned(args.str_at("status")),
                    label: owned(args.str_at("label")),
                    assignee: owned(args.str_at("assignee")),
                },
            },
        )
    }

    /// `issue.delete`
    pub fn handle_issue_delete(&self, args: &Json) -> (call: Result<IssueCall, String>)
        ensures
            call_result(call) == issue_delete_call(args@),
    {
        let issue_id = match require_str(args, "issue_id") {
            Ok(issue_id) => issue_id,
            Err(error) => {
                return Err(error);
            },
        };
        Ok(
            IssueCall::IssueDelete {
                issue_id,
                reason: owned(args.str_at("reason")),
            },
        )
    }

    /// `issue.next`
    pub fn handle_issue_next(&self) -> (call: Result<IssueCall, String>)
        ensures
            call_result(call) == Ok::<_, Seq<char>>(IssueCallModel::IssueNext),
    {
        Ok(IssueCall::IssueNext)
    }

    /// `issue.assign`
    pub fn handle_issue_assign(&self, args: &Json) -> (call: Result<IssueCall, String>)
        ensures
            call_result(call) == issue_assign_call(args@),
    {
        let issue_id = match require_str(args, "issue_id") {
            Ok(issue_id) => issue_id,
            Err(error) => {
                return Err(error);
            },
        };
        let assignee = match require_str(args, "assignee") {
            Ok(assignee) => assignee,
            Err(error) => {
                return Err(error);
            },
        };
        Ok(
            IssueCall::IssueAssign {
                issue_id,
                assignee,
            },
        )
    }

    /// `issue.list`
    pub fn handle_issue_list(&self, args: &Json) -> (call: Result<IssueCall, String>)
        ensures
            call_result(call) == issue_list_call(args@),
    {
        Ok(
            IssueCall::IssueList {
                params: IssueListParams {
                    status: owned(args.str_at("status")),
                    priority: priority_arg(args),
                    assignee: owned(args.str_at("assignee")),
                    parent: owned(args.str_at("parent")),
                },
            },
        )
    }

    /// `dep.add`
    pub fn handle_dep_add(&self, args: &Json) -> (call: Result<IssueCall, String>)
        ensures
            call_result(call) == dep_add_call(args@),
    {
        let from_id = match require_str(args, "from_id") {
            Ok(from_id) => from_id,
            Err(error) => {
                return Err(error);
            },
        };
        let to_id = match require_str(args, "to_id") {
            Ok(to_id) => to_id,
            Err(error) => {
                return Err(error);
            },
        };
        Ok(
            IssueCall::DepAdd {
                input: DepAddInput {
                    from_id,
                    to_id,
                    dep_type: owned(args.str_at("dep_type")),
                },
            },
        )
    }

    /// `dep.remove`
    pub fn handle_dep_remove(&self, args: &Json) -> (call: Result<IssueCall, String>)
        ensures
            call_result(call) == dep_remove_call(args@),
    {
        let from_id = match require_str(args, "from_id") {
            Ok(from_id) => from_id,
            Err(error) => {
                return Err(error);
            },
        };
        let to_id = match require_str(args, "to_id") {
            Ok(to_id) => to_id,
            Err(error) => {
                return Err(error);
            },
        };
        Ok(
            IssueCall::DepRemove {
                from_id,
                to_id,
            },
        )
    }

    /// `dep.tree`
    pub fn handle_dep_tree(&self, args: &Json) -> (call: Result<IssueCall, String>)
        ensures
            call_result(call) == dep_tree_call(args@),
    {
        let issue_id = match require_str(args, "issue_id") {
            Ok(issue_id) => issue_id,
            Err(error) => {
                return Err(error);
            },
        };
        Ok(
            IssueCall::DepTree {
                issue_id,
            },
        )
    }

    /// `sync.push`
    pub fn handle_sync_push(&self) -> (call: Result<IssueCall, String>)
        ensures
            call_result(call) == Ok::<_, Seq<char>>(IssueCallModel::SyncPush),
    {
        Ok(IssueCall::SyncPush)
    }

    /// `sync.pull`
    pub fn handle_sync_pull(&self) -> (call: Result<IssueCall, String>)
        ensures
            call_result(call) == Ok::<_, Seq<char>>(IssueCallModel::SyncPull),
    {
        Ok(IssueCall::SyncPull)
    }

    /// `sync.status`
    pub fn handle_sync_status(&self) -> (call: Result<IssueCall, String>)
        ensures
            call_result(call) == Ok::<_, Seq<char>>(IssueCallModel::SyncStatus),
    {
        Ok(IssueCall::SyncStatus)
    }

    fn handle(&self, action: &str, args: &Json) -> (call: Option<Result<IssueCall, String>>)
        ensures
            match call {
                Some(c) => issue_call(action@, args@) == Some(call_result(c)),
                None => issue_call(action@, args@) is None,
            },
    {
        if same(action, "epic.create") {
            Some(self.handle_epic_create(args))
        } else if same(action, "epic.get") {
            Some(self.handle_epic_get(args))
        } else if same(action, "epic.update") {
            Some(self.handle_epic_update(args))
        } else if same(action, "epic.delete") {
            Some(self.handle_epic_delete(args))
        } else if same(action, "issue.create") {
            Some(self.handle_issue_create(args))
        } else if same(action, "issue.get") {
            Some(self.handle_issue_get(args))
        } else if same(action, "issue.update") {
            Some(self.handle_issue_update(args))
        } else if same(action, "issue.delete") {
            Some(self.handle_issue_delete(args))
        } else if same(action, "issue.next") {
            Some(self.handle_issue_next())
        } else if same(action, "issue.assign") {
            Some(self.handle_issue_assign(args))
        } else if same(action, "issue.list") {
            Some(self.handle_issue_list(args))
        } else if same(action, "dep.add") {
            Some(self.handle_dep_add(args))
        } else if same(action, "dep.remove") {
            Some(self.handle_dep_remove(args))
        } else if same(action, "dep.tree") {
            Some(self.handle_dep_tree(args))
        } else if same(action, "sync.push") {
            Some(self.handle_sync_push())
        } else if same(action, "sync.pull") {
            Some(self.handle_sync_pull())
        } else if same(action, "sync.status") {
            Some(self.handle_sync_status())
        } else {
            None
        }
    }

    /// The name of the tool.
    pub fn name(&self) -> (name: &str)
        ensures
            name@ == "issue_tracker"@,
    {
        "issue_tracker"
    }

    /// What the tool is for.
    pub fn description(&self) -> (description: &str)
        ensures
            description@
                == "Manage epics, issues, dependencies, and team sync via an issue-tracking service. Supports creating, updating, assigning, and closing work items, dependency management, and distributed sync."@,
    {
        "Manage epics, issues, dependencies, and team sync via an issue-tracking service. Supports creating, updating, assigning, and closing work items, dependency management, and distributed sync."
    }

    /// What a call does, given what the policy has answered so far: ask it the
    /// next question, end, or have the provider perform a call.
    pub fn execute(&self, args: &Json, answers: &PolicyAnswers) -> (step: IssueStep)
        ensures
            step@ == self@.step(args@, answers@),
    {
        let action = args.str_at("action");
        let operation = match action {
            Some(action) => operation_of(action),
            None => ToolOperation::Act,
        };
        match check_clearance("issue_tracker", &self.allowed_actions, action, operation, answers) {
            Clearance::Failed(error) => IssueStep::Failed(error),
            Clearance::Refused(result) => IssueStep::Done(result),
            Clearance::Ask(question) => IssueStep::Ask(question),
            Clearance::Open => match action {
                Some(action) => match self.handle(action, args) {
                    Some(Ok(call)) => IssueStep::Call(call),
                    Some(Err(error)) => IssueStep::Done(ToolResult::error(error)),
                    None => IssueStep::Done(ToolResult::error(cat2("unknown action: ", action))),
                },
                None => IssueStep::Failed("missing required parameter: action".to_string()),
            },
        }
    }

    /// What a call came to, by what the provider made of it.
    pub fn execute_finished(&self, result: Result<Json, String>) -> (finished: ToolResult)
        requires
            error_cuttable(json_result(result)),
        ensures
            finished@ == provider_result(json_result(result)),
    {
        finish_call(result)
    }

    /// The parameters of the tool, as a JSON schema.
    pub fn parameters_schema(&self) -> (schema: Json)
        ensures
            schema@ == schema_model(issue_properties()),
    {
        let actions: Vec<&str> = vec![
            "epic.create",
            "epic.get",
            "epic.update",
            "epic.delete",
            "issue.create",
            "issue.get",
            "issue.update",
            "issue.delete",
            "issue.next",
            "issue.assign",
            "issue.list",
            "dep.add",
            "dep.remove",
            "dep.tree",
            "sync.push",
            "sync.pull",
            "sync.status",
        ];
        assert(str_texts(actions@) =~= issue_actions());
        let status_choices: Vec<&str> = vec!["open", "in_progress", "closed", "blocked"];
        assert(str_texts(status_choices@) =~= seq!["open"@, "in_progress"@, "closed"@, "blocked"@]);
        let dep_type_choices: Vec<&str> = vec!["blocks", "relates_to", "duplicates", "supersedes"];
        assert(str_texts(dep_type_choices@) =~= seq!["blocks"@, "relates_to"@, "duplicates"@, "supersedes"@]);
        let mut properties = JsonObject::new();
        properties.set("action", choice_property(&actions, "The issue-tracker action to perform."));
        properties.set(
            "issue_id",
            string_property("Issue ID (e.g. 'bd-a3f8' or 'bd-a3f8.1')."),
        );
        properties.set(
            "epic_id",
            string_property("Epic ID (e.g. 'bd-a3f8')."),
        );
        properties.set(
            "title",
            string_property("Title for epic/issue create or update."),
        );
        properties.set(
            "body",
            string_property("Description body for epic/issue create or update."),
        );
        properties.set(
            "priority",
            range_property(1, 5, "Priority level (1 = highest, 5 = lowest)."),
        );
        properties.set(
            "status",
            choice_property(&status_choices, "Issue status for update or list filtering."),
        );
        properties.set(
            "label",
            string_property("Label for epic/issue create or update."),
        );
        properties.set(
            "assignee",
            string_property("Assignee name for issue.assign, issue.create, or issue.update."),
        );
        properties.set(
            "parent",
            string_property("Parent epic ID for issue.create or issue.list filtering."),
        );
        properties.set(
            "deps",
            string_property("Comma-separated dependency IDs for issue.create."),
        );
        properties.set(
            "reason",
            string_property("Reason for closing/deleting an epic or issue."),
        );
        properties.set(
            "from_id",
            string_property("Source issue ID for dep.add/dep.remove (the issue that depends)."),
        );
        properties.set(
            "to_id",
            string_property("Target issue ID for dep.add/dep.remove (the issue being depended on)."),
        );
        properties.set(
            "dep_type",
            choice_property(&dep_type_choices, "Dependency type for dep.add. Default: 'blocks'."),
        );
        parameter_schema(properties)
    }
}

/// The actions that the schema lists are exactly those that the tool knows.
pub proof fn law_schema_lists_the_known_actions(action: Seq<char>, args: JsonModel)
    ensures
        issue_actions().contains(action) <==> issue_call(action, args) is Some,
        issue_actions().len() == 17,
{
    let all = issue_actions();
    assert(all[0] == "epic.create"@);
    assert(all[1] == "epic.get"@);
    assert(all[2] == "epic.update"@);
    assert(all[3] == "epic.delete"@);
    assert(all[4] == "issue.create"@);
    assert(all[5] == "issue.get"@);
    assert(all[6] == "issue.update"@);
    assert(all[7] == "issue.delete"@);
    assert(all[8] == "issue.next"@);
    assert(all[9] == "issue.assign"@);
    assert(all[10] == "issue.list"@);
    assert(all[11] == "dep.add"@);
    assert(all[12] == "dep.remove"@);
    assert(all[13] == "dep.tree"@);
    assert(all[14] == "sync.push"@);
    assert(all[15] == "sync.pull"@);
    assert(all[16] == "sync.status"@);
}

/// The provider performs nothing unless the action is known and enabled, the
/// rate limit is not exceeded, the action was recorded and the policy allows
/// the operation; a call that is not performed has failed.
pub proof fn law_issue_calls_are_gated(
    tool: IssueToolModel,
    args: JsonModel,
    answers: AnswersModel,
)
    ensures
        match tool.step(args, answers) {
            IssueStepModel::Call(call) => {
                let action = text_at(args, "action"@);
                &&& action is Some
                &&& tool.allowed_actions.contains(action->0)
                &&& issue_call(action->0, args) == Some(Ok::<_, Seq<char>>(call))
                &&& answers.rate_limited == Some(false)
                &&& answers.recorded == Some(true)
                &&& answers.verdict == Some(None::<Seq<char>>)
            },
            IssueStepModel::Done(result) => {
                &&& !result.success
                &&& result.output.len() == 0
                &&& result.error is Some
            },
            IssueStepModel::Failed(_) => text_at(args, "action"@) is None,
            IssueStepModel::Ask(_) => text_at(args, "action"@) is Some
                && tool.allowed_actions.contains(text_at(args, "action"@)->0),
        },
{
}

/// A priority that fits is kept, and a greater one becomes the greatest.
pub proof fn law_priority_saturates(v: u64)
    ensures
        v <= 255 ==> priority_of(v) == v,
        v > 255 ==> priority_of(v) == 255,
{
}

/// An action that looks something up is an operation that reads, and any other
/// is one that acts.
pub proof fn law_only_lookups_read(action: Seq<char>, args: JsonModel)
    ensures
        match issue_call(action, args) {
            Some(Ok(call)) => {
                issue_operation(action) == ToolOperation::Read <==> {
                    ||| call is EpicGet
                    ||| call is IssueGet
                    ||| call is IssueNext
                    ||| call is IssueList
                    ||| call is DepTree
                    ||| call is SyncStatus
                }
            },
            _ => true,
        },
{
    lemma_issue_actions_differ();
}

proof fn lemma_issue_actions_differ()
    ensures
        "epic.get"@ != "epic.create"@,
        "epic.get"@ != "epic.update"@,
        "epic.get"@ != "epic.delete"@,
        "epic.get"@ != "issue.create"@,
        "epic.get"@ != "issue.get"@,
        "epic.get"@ != "issue.update"@,
        "epic.get"@ != "issue.delete"@,
        "epic.get"@ != "issue.next"@,
        "epic.get"@ != "issue.assign"@,
        "epic.get"@ != "issue.list"@,
        "epic.get"@ != "dep.add"@,
        "epic.get"@ != "dep.remove"@,
        "epic.get"@ != "dep.tree"@,
        "epic.get"@ != "sync.push"@,
        "epic.get"@ != "sync.pull"@,
        "epic.get"@ != "sync.status"@,
        "issue.get"@ != "epic.create"@,
        "issue.get"@ != "epic.update"@,
        "issue.get"@ != "epic.delete"@,
        "issue.get"@ != "issue.create"@,
        "issue.get"@ != "issue.update"@,
        "issue.get"@ != "issue.delete"@,
        "issue.get"@ != "issue.next"@,
        "issue.get"@ != "issue.assign"@,
        "issue.get"@ != "issue.list"@,
        "issue.get"@ != "dep.add"@,
        "issue.get"@ != "dep.remove"@,
        "issue.get"@ != "dep.tree"@,
        "issue.get"@ != "sync.push"@,
        "issue.get"@ != "sync.pull"@,
        "issue.get"@ != "sync.status"@,
        "issue.next"@ != "epic.create"@,
        "issue.next"@ != "epic.update"@,
        "issue.next"@ != "epic.delete"@,
        "issue.next"@ != "issue.create"@,
        "issue.next"@ != "issue.update"@,
        "issue.next"@ != "issue.delete"@,
        "issue.next"@ != "issue.assign"@,
        "issue.next"@ != "issue.list"@,
        "issue.next"@ != "dep.add"@,
        "issue.next"@ != "dep.remove"@,
        "issue.next"@ != "dep.tree"@,
        "issue.next"@ != "sync.push"@,
        "issue.next"@ != "sync.pull"@,
        "issue.next"@ != "sync.status"@,
        "issue.list"@ != "epic.create"@,
        "issue.list"@ != "epic.update"@,
        "issue.list"@ != "epic.delete"@,
        "issue.list"@ != "issue.create"@,
        "issue.list"@ != "issue.update"@,
        "issue.list"@ != "issue.delete"@,
        "issue.list"@ != "issue.assign"@,
        "issue.list"@ != "dep.add"@,
        "issue.list"@ != "dep.remove"@,
        "issue.list"@ != "dep.tree"@,
        "issue.list"@ != "sync.push"@,
        "issue.list"@ != "sync.pull"@,
        "issue.list"@ != "sync.status"@,
        "dep.tree"@ != "epic.create"@,
        "dep.tree"@ != "epic.update"@,
        "dep.tree"@ != "epic.delete"@,
        "dep.tree"@ != "issue.create"@,
        "dep.tree"@ != "issue.update"@,
        "dep.tree"@ != "issue.delete"@,
        "dep.tree"@ != "issue.assign"@,
        "dep.tree"@ != "dep.add"@,
        "dep.tree"@ != "dep.remove"@,
        "dep.tree"@ != "sync.push"@,
        "dep.tree"@ != "sync.pull"@,
        "dep.tree"@ != "sync.status"@,
        "sync.status"@ != "epic.create"@,
        "sync.status"@ != "epic.update"@,
        "sync.status"@ != "epic.delete"@,
        "sync.status"@ != "issue.create"@,
        "sync.status"@ != "issue.update"@,
        "sync.status"@ != "issue.delete"@,
        "sync.status"@ != "issue.assign"@,
        "sync.status"@ != "dep.add"@,
        "sync.status"@ != "dep.remove"@,
        "sync.status"@ != "sync.push"@,
        "sync.status"@ != "sync.pull"@,
{
    reveal_strlit("epic.create");
    reveal_strlit("epic.get");
    reveal_strlit("epic.update");
    reveal_strlit("epic.delete");
    reveal_strlit("issue.create");
    reveal_strlit("issue.get");
    reveal_strlit("issue.update");
    reveal_strlit("issue.delete");
    reveal_strlit("issue.next");
    reveal_strlit("issue.assign");
    reveal_strlit("issue.list");
    reveal_strlit("dep.add");
    reveal_strlit("dep.remove");
    reveal_strlit("dep.tree");
    reveal_strlit("sync.push");
    reveal_strlit("sync.pull");
    reveal_strlit("sync.status");
    assert("epic.get"@.len() != "epic.create"@.len());
    assert("epic.get"@.len() != "epic.update"@.len());
    assert("epic.get"@.len() != "epic.delete"@.len());
    assert("epic.get"@.len() != "issue.create"@.len());
    assert("epic.get"@.len() != "issue.get"@.len());
    assert("epic.get"@.len() != "issue.update"@.len());
    assert("epic.get"@.len() != "issue.delete"@.len());
    assert("epic.get"@.len() != "issue.next"@.len());
    assert("epic.get"@.len() != "issue.assign"@.len());
    assert("epic.get"@.len() != "issue.list"@.len());
    assert("epic.get"@.len() != "dep.add"@.len());
    assert("epic.get"@.len() != "dep.remove"@.len());
    assert("epic.get"@[0] != "dep.tree"@[0]);
    assert("epic.get"@.len() != "sync.push"@.len());
    assert("epic.get"@.len() != "sync.pull"@.len());
    assert("epic.get"@.len() != "sync.status"@.len());
    assert("issue.get"@.len() != "epic.create"@.len());
    assert("issue.get"@.len() != "epic.update"@.len());
    assert("issue.get"@.len() != "epic.delete"@.len());
    assert("issue.get"@.len() != "issue.create"@.len());
    assert("issue.get"@.len() != "issue.update"@.len());
    assert("issue.get"@.len() != "issue.delete"@.len());
    assert("issue.get"@.len() != "issue.next"@.len());
    assert("issue.get"@.len() != "issue.assign"@.len());
    assert("issue.get"@.len() != "issue.list"@.len());
    assert("issue.get"@.len() != "dep.add"@.len());
    assert("issue.get"@.len() != "dep.remove"@.len());
    assert("issue.get"@.len() != "dep.tree"@.len());
    assert("issue.get"@[0] != "sync.push"@[0]);
    assert("issue.get"@[0] != "sync.pull"@[0]);
    assert("issue.get"@.len() != "sync.status"@.len());
    assert("issue.next"@.len() != "epic.create"@.len());
    assert("issue.next"@.len() != "epic.update"@.len());
    assert("issue.next"@.len() != "epic.delete"@.len());
    assert("issue.next"@.len() != "issue.create"@.len());
    assert("issue.next"@.len() != "issue.update"@.len());
    assert("issue.next"@.len() != "issue.delete"@.len());
    assert("issue.next"@.len() != "issue.assign"@.len());
    assert("issue.next"@[6] != "issue.list"@[6]);
    assert("issue.next"@.len() != "dep.add"@.len());
    assert("issue.next"@[0] != "dep.remove"@[0]);
    assert("issue.next"@.len() != "dep.tree"@.len());
    assert("issue.next"@.len() != "sync.push"@.len());
    assert("issue.next"@.len() != "sync.pull"@.len());
    assert("issue.next"@.len() != "sync.status"@.len());
    assert("issue.list"@.len() != "epic.create"@.len());
    assert("issue.list"@.len() != "epic.update"@.len());
    assert("issue.list"@.len() != "epic.delete"@.len());
    assert("issue.list"@.len() != "issue.create"@.len());
    assert("issue.list"@.len() != "issue.update"@.len());
    assert("issue.list"@.len() != "issue.delete"@.len());
    assert("issue.list"@.len() != "issue.assign"@.len());
    assert("issue.list"@.len() != "dep.add"@.len());
    assert("issue.list"@[0] != "dep.remove"@[0]);
    assert("issue.list"@.len() != "dep.tree"@.len());
    assert("issue.list"@.len() != "sync.push"@.len());
    assert("issue.list"@.len() != "sync.pull"@.len());
    assert("issue.list"@.len() != "sync.status"@.len());
    assert("dep.tree"@.len() != "epic.create"@.len());
    assert("dep.tree"@.len() != "epic.update"@.len());
    assert("dep.tree"@.len() != "epic.delete"@.len());
    assert("dep.tree"@.len() != "issue.create"@.len());
    assert("dep.tree"@.len() != "issue.update"@.len());
    assert("dep.tree"@.len() != "issue.delete"@.len());
    assert("dep.tree"@.len() != "issue.assign"@.len());
    assert("dep.tree"@.len() != "dep.add"@.len());
    assert("dep.tree"@.len() != "dep.remove"@.len());
    assert("dep.tree"@.len() != "sync.push"@.len());
    assert("dep.tree"@.len() != "sync.pull"@.len());
    assert("dep.tree"@.len() != "sync.status"@.len());
    assert("sync.status"@[0] != "epic.create"@[0]);
    assert("sync.status"@[0] != "epic.update"@[0]);
    assert("sync.status"@[0] != "epic.delete"@[0]);
    assert("sync.status"@.len() != "issue.create"@.len());
    assert("sync.status"@.len() != "issue.update"@.len());
    assert("sync.status"@.len() != "issue.delete"@.len());
    assert("sync.status"@.len() != "issue.assign"@.len());
    assert("sync.status"@.len() != "dep.add"@.len());
    assert("sync.status"@.len() != "dep.remove"@.len());
    assert("sync.status"@.len() != "sync.push"@.len());
    assert("sync.status"@.len() != "sync.pull"@.len());
}

} // verus!
