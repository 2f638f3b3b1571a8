//! What holds of the issue-tracker tool and its provider together: for each action,
//! which command is run for the arguments that are given, and what becomes of what
//! it prints.
use vstd::prelude::*;
use vstd::utf8::encode_utf8;
use crate::json::{bool_at, field, text_at, unsigned_at, JsonModel};
use crate::json_text::json_parsed;
use crate::text::{blank, cut, decimal, law_where_a_text_can_be_cut, lossy_text};
use crate::tools::issue_tracker::beads::{
    bd_answer, bd_reportable, create_args, list_args, priority_text, update_args, with_flag, BdEndModel,
    BeadsModel,
};
use crate::tools::issue_tracker::types::{IssueCommentInputModel, IssueListParamsModel};
use crate::tools::issue_tracker::{
    issue_properties, IssueCallModel, IssueStepModel, IssueToolModel,
};
use crate::tools::policy::{AnswersModel, Question};
use crate::tools::result::ToolOperation;
use crate::tools::schema::schema_model;

verus! {

/// A number by which the texts below are told apart.
spec fn mark(s: Seq<char>) -> int {
    let n: int = s.len() as int;
    n + 64 * (s[0] as int) + 16384 * (s[n / 2] as int) + 4194304 * (s[n - 1] as int) + 1073741824 * (
    s[n / 3] as int) + 274877906944 * (s[(2 * n) / 3] as int)
        + 70368744177664 * (s[(3 * n) / 4] as int)
}

proof fn lemma_actions_differ()
    ensures
        mark("dep.add"@) == 7063658254014727,
        mark("dep.remove"@) == 7840942112987402,
        mark("dep.tree"@) == 7138699927951624,
        mark("epic.create"@) == 6853637579528523,
        mark("epic.delete"@) == 7137036701604171,
        mark("epic.get"@) == 7135668816550216,
        mark("epic.update"@) == 6853362701916491,
        mark("issue.assign"@) == 7420438008846924,
        mark("issue.create"@) == 6853639727012428,
        mark("issue.delete"@) == 7137038849088076,
        mark("issue.get"@) == 7276419190708809,
        mark("issue.list"@) == 7418531067697738,
        mark("issue.next"@) == 7137605846800970,
        mark("issue.update"@) == 6853364849400396,
        mark("sync.pull"@) == 8265410538085577,
        mark("sync.push"@) == 8265410521308361,
        mark("sync.status"@) == 8189544266259659,
{
    reveal_strlit("dep.add");
    reveal_strlit("dep.remove");
    reveal_strlit("dep.tree");
    reveal_strlit("epic.create");
    reveal_strlit("epic.delete");
    reveal_strlit("epic.get");
    reveal_strlit("epic.update");
    reveal_strlit("issue.assign");
    reveal_strlit("issue.create");
    reveal_strlit("issue.delete");
    reveal_strlit("issue.get");
    reveal_strlit("issue.list");
    reveal_strlit("issue.next");
    reveal_strlit("issue.update");
    reveal_strlit("sync.pull");
    reveal_strlit("sync.push");
    reveal_strlit("sync.status");
}

/// Whether a call is one of an action that is enabled, and the policy has nothing
/// against it.
pub open spec fn cleared(
    tool: IssueToolModel,
    args: JsonModel,
    answers: AnswersModel,
    action: Seq<char>,
) -> bool {
    &&& text_at(args, "action"@) == Some(action)
    &&& tool.allowed_actions.contains(action)
    &&& answers.rate_limited == Some(false)
    &&& answers.recorded == Some(true)
    &&& answers.verdict == Some(None::<Seq<char>>)
}

/// Whether a step ends a call with an error.
pub open spec fn fails(step: IssueStepModel, message: Seq<char>) -> bool {
    &&& step is Done
    &&& !step->Done_0.success
    &&& step->Done_0.output.len() == 0
    &&& step->Done_0.error == Some(message)
}

/// A flag with its value, where there is one.
pub open spec fn flagged(flag: Seq<char>, value: Option<Seq<char>>) -> Seq<Seq<char>> {
    match value {
        Some(text) => seq![flag, text],
        None => Seq::empty(),
    }
}

/// The priority that is given, in decimal, and at most 255.
pub open spec fn priority_given(args: JsonModel) -> Option<Seq<char>> {
    match unsigned_at(args, "priority"@) {
        Some(n) => Some(
            decimal(
                if n <= 255 {
                    n as nat
                } else {
                    255
                },
            ),
        ),
        None => None,
    }
}

/// Whether a step runs the configured program with the global flags, its own
/// arguments and the flag for JSON, and has it read a text where there is one.
pub open spec fn runs(
    provider: BeadsModel,
    step: IssueStepModel,
    own: Seq<Seq<char>>,
    stdin: Option<Seq<char>>,
) -> bool {
    let command = provider.perform(step->Call_0);
    let globals = flagged("--db"@, provider.db_path) + flagged("--actor"@, provider.actor);
    let closing = match stdin {
        Some(_) => seq!["--json"@, "--stdin"@],
        None => seq!["--json"@],
    };
    &&& step is Call
    &&& command.program == provider.bd_path
    &&& command.timeout_secs == provider.timeout_secs
    &&& command.args == globals + own + closing
    &&& command.stdin == stdin
}

proof fn lemma_flag(args: Seq<Seq<char>>, flag: Seq<char>, value: Option<Seq<char>>)
    ensures
        with_flag(args, flag, value) == args + flagged(flag, value),
        args + flagged(flag, None) == args,
{
    assert(with_flag(args, flag, value) =~= args + flagged(flag, value));
    assert(args + flagged(flag, None) =~= args);
}

proof fn lemma_globals(provider: BeadsModel)
    ensures
        provider.base_args() == flagged("--db"@, provider.db_path) + flagged(
            "--actor"@,
            provider.actor,
        ),
{
    let db = with_flag(Seq::empty(), "--db"@, provider.db_path);
    lemma_flag(Seq::empty(), "--db"@, provider.db_path);
    lemma_flag(db, "--actor"@, provider.actor);
    assert(Seq::<Seq<char>>::empty() + flagged("--db"@, provider.db_path) =~= flagged(
        "--db"@,
        provider.db_path,
    ));
}

proof fn lemma_create(
    title: Seq<char>,
    priority: Option<u8>,
    label: Option<Seq<char>>,
    parent: Option<Seq<char>>,
    assignee: Option<Seq<char>>,
    deps: Option<Seq<char>>,
)
    ensures
        create_args(title, priority, label, parent, assignee, deps) == seq!["create"@, title]
            + flagged("--parent"@, parent) + flagged("--priority"@, priority_text(priority))
            + flagged("--label"@, label) + flagged("--assignee"@, assignee) + flagged(
            "--deps"@,
            deps,
        ),
        create_args(title, priority, label, None, None, None) == seq!["create"@, title] + flagged(
            "--priority"@,
            priority_text(priority),
        ) + flagged("--label"@, label),
{
    let start = seq!["create"@, title];
    let with_parent = with_flag(start, "--parent"@, parent);
    let with_priority = with_flag(with_parent, "--priority"@, priority_text(priority));
    let with_label = with_flag(with_priority, "--label"@, label);
    let with_assignee = with_flag(with_label, "--assignee"@, assignee);
    lemma_flag(start, "--parent"@, parent);
    lemma_flag(with_parent, "--priority"@, priority_text(priority));
    lemma_flag(with_priority, "--label"@, label);
    lemma_flag(with_label, "--assignee"@, assignee);
    lemma_flag(with_assignee, "--deps"@, deps);
    let bare = with_flag(start, "--priority"@, priority_text(priority));
    lemma_flag(start, "--priority"@, priority_text(priority));
    lemma_flag(bare, "--label"@, label);
}

proof fn lemma_update(
    id: Seq<char>,
    title: Option<Seq<char>>,
    priority: Option<u8>,
    status: Option<Seq<char>>,
    label: Option<Seq<char>>,
    assignee: Option<Seq<char>>,
)
    ensures
        update_args(id, title, priority, status, label, assignee) == seq!["update"@, id] + flagged(
            "--title"@,
            title,
        ) + flagged("--priority"@, priority_text(priority)) + flagged("--status"@, status)
            + flagged("--label"@, label) + flagged("--assignee"@, assignee),
        update_args(id, title, priority, status, label, None) == seq!["update"@, id] + flagged(
            "--title"@,
            title,
        ) + flagged("--priority"@, priority_text(priority)) + flagged("--status"@, status)
            + flagged("--label"@, label),
{
    let start = seq!["update"@, id];
    let with_title = with_flag(start, "--title"@, title);
    let with_priority = with_flag(with_title, "--priority"@, priority_text(priority));
    let with_status = with_flag(with_priority, "--status"@, status);
    let with_label = with_flag(with_status, "--label"@, label);
    lemma_flag(start, "--title"@, title);
    lemma_flag(with_title, "--priority"@, priority_text(priority));
    lemma_flag(with_priority, "--status"@, status);
    lemma_flag(with_status, "--label"@, label);
    lemma_flag(with_label, "--assignee"@, assignee);
}

proof fn lemma_list(params: IssueListParamsModel)
    ensures
        list_args(params) == seq!["list"@] + flagged("--status"@, params.status) + flagged(
            "--priority"@,
            priority_text(params.priority),
        ) + flagged("--assignee"@, params.assignee) + flagged("--parent"@, params.parent),
{
    let start = seq!["list"@];
    let with_status = with_flag(start, "--status"@, params.status);
    let with_priority = with_flag(with_status, "--priority"@, priority_text(params.priority));
    let with_assignee = with_flag(with_priority, "--assignee"@, params.assignee);
    lemma_flag(start, "--status"@, params.status);
    lemma_flag(with_status, "--priority"@, priority_text(params.priority));
    lemma_flag(with_priority, "--assignee"@, params.assignee);
    lemma_flag(with_assignee, "--parent"@, params.parent);
}

/// A new epic has the title that is given, and the priority and the label where they
/// are; its body is read by the program.
pub proof fn law_new_epic_is_as_given(
    tool: IssueToolModel,
    provider: BeadsModel,
    args: JsonModel,
    answers: AnswersModel,
)
    requires
        cleared(tool, args, answers, "epic.create"@),
    ensures
        ({
            let step = tool.step(args, answers);
            let title = text_at(args, "title"@);
            &&& title is None ==> fails(
                step,
                "missing required parameter: "@ + "title"@,
            )
            &&& title is Some ==> runs(provider, step, seq!["create"@, title->0] + flagged("--priority"@, priority_given(args)) + flagged("--label"@, text_at(args, "label"@)), text_at(args, "body"@))
        }),
{
    lemma_actions_differ();
    lemma_globals(provider);
    match tool.step(args, answers) {
        IssueStepModel::Call(IssueCallModel::EpicCreate { input }) => {
            lemma_create(input.title, input.priority, input.label, None, None, None);
        },
        _ => {},
    }
}

/// A new issue has the title that is given, and the epic, the priority, the label,
/// the assignee and the dependencies where they are; its body is read by the
/// program.
pub proof fn law_new_issue_is_as_given(
    tool: IssueToolModel,
    provider: BeadsModel,
    args: JsonModel,
    answers: AnswersModel,
)
    requires
        cleared(tool, args, answers, "issue.create"@),
    ensures
        ({
            let step = tool.step(args, answers);
            let title = text_at(args, "title"@);
            &&& title is None ==> fails(
                step,
                "missing required parameter: "@ + "title"@,
            )
            &&& title is Some ==> runs(provider, step, seq!["create"@, title->0] + flagged("--parent"@, text_at(args, "parent"@)) + flagged("--priority"@, priority_given(args)) + flagged("--label"@, text_at(args, "label"@)) + flagged("--assignee"@, text_at(args, "assignee"@)) + flagged("--deps"@, text_at(args, "deps"@)), text_at(args, "body"@))
        }),
{
    lemma_actions_differ();
    lemma_globals(provider);
    match tool.step(args, answers) {
        IssueStepModel::Call(IssueCallModel::IssueCreate { input }) => {
            lemma_create(
                input.title,
                input.priority,
                input.label,
                input.parent,
                input.assignee,
                input.deps,
            );
        },
        _ => {},
    }
}

/// An epic is changed in the title, the priority, the status and the label that are
/// given; a new body is read by the program.
pub proof fn law_changed_epic_is_as_given(
    tool: IssueToolModel,
    provider: BeadsModel,
    args: JsonModel,
    answers: AnswersModel,
)
    requires
        cleared(tool, args, answers, "epic.update"@),
    ensures
        ({
            let step = tool.step(args, answers);
            let epic_id = text_at(args, "epic_id"@);
            &&& epic_id is None ==> fails(
                step,
                "missing required parameter: "@ + "epic_id"@,
            )
            &&& epic_id is Some ==> runs(provider, step, seq!["update"@, epic_id->0] + flagged("--title"@, text_at(args, "title"@)) + flagged("--priority"@, priority_given(args)) + flagged("--status"@, text_at(args, "status"@)) + flagged("--label"@, text_at(args, "label"@)), text_at(args, "body"@))
        }),
{
    lemma_actions_differ();
    lemma_globals(provider);
    match tool.step(args, answers) {
        IssueStepModel::Call(IssueCallModel::EpicUpdate { epic_id, input }) => {
            lemma_update(
                epic_id,
                input.title,
                input.priority,
                input.status,
                input.label,
                None,
            );
        },
        _ => {},
    }
}

/// An issue is changed in the title, the priority, the status, the label and the
/// assignee that are given; a new body is read by the program.
pub proof fn law_changed_issue_is_as_given(
    tool: IssueToolModel,
    provider: BeadsModel,
    args: JsonModel,
    answers: AnswersModel,
)
    requires
        cleared(tool, args, answers, "issue.update"@),
    ensures
        ({
            let step = tool.step(args, answers);
            let issue_id = text_at(args, "issue_id"@);
            &&& issue_id is None ==> fails(
                step,
                "missing required parameter: "@ + "issue_id"@,
            )
            &&& issue_id is Some ==> runs(provider, step, seq!["update"@, issue_id->0] + flagged("--title"@, text_at(args, "title"@)) + flagged("--priority"@, priority_given(args)) + flagged("--status"@, text_at(args, "status"@)) + flagged("--label"@, text_at(args, "label"@)) + flagged("--assignee"@, text_at(args, "assignee"@)), text_at(args, "body"@))
        }),
{
    lemma_actions_differ();
    lemma_globals(provider);
    match tool.step(args, answers) {
        IssueStepModel::Call(IssueCallModel::IssueUpdate { issue_id, input }) => {
            lemma_update(
                issue_id,
                input.title,
                input.priority,
                input.status,
                input.label,
                input.assignee,
            );
        },
        _ => {},
    }
}

/// An epic is shown by its identifier.
pub proof fn law_epic_is_shown(
    tool: IssueToolModel,
    provider: BeadsModel,
    args: JsonModel,
    answers: AnswersModel,
)
    requires
        cleared(tool, args, answers, "epic.get"@),
    ensures
        ({
            let step = tool.step(args, answers);
            let epic_id = text_at(args, "epic_id"@);
            &&& epic_id is None ==> fails(
                step,
                "missing required parameter: "@ + "epic_id"@,
            )
            &&& epic_id is Some ==> runs(provider, step, seq!["show"@, epic_id->0], None::<Seq<char>>)
        }),
{
    lemma_actions_differ();
    lemma_globals(provider);
}

/// An issue is shown by its identifier.
pub proof fn law_issue_is_shown(
    tool: IssueToolModel,
    provider: BeadsModel,
    args: JsonModel,
    answers: AnswersModel,
)
    requires
        cleared(tool, args, answers, "issue.get"@),
    ensures
        ({
            let step = tool.step(args, answers);
            let issue_id = text_at(args, "issue_id"@);
            &&& issue_id is None ==> fails(
                step,
                "missing required parameter: "@ + "issue_id"@,
            )
            &&& issue_id is Some ==> runs(provider, step, seq!["show"@, issue_id->0], None::<Seq<char>>)
        }),
{
    lemma_actions_differ();
    lemma_globals(provider);
}

/// An epic is closed with the reason that is given, or a standing one.
pub proof fn law_epic_is_closed(
    tool: IssueToolModel,
    provider: BeadsModel,
    args: JsonModel,
    answers: AnswersModel,
)
    requires
        cleared(tool, args, answers, "epic.delete"@),
    ensures
        ({
            let step = tool.step(args, answers);
            let epic_id = text_at(args, "epic_id"@);
            let reason = match text_at(args, "reason"@) {
                Some(text) => text,
                None => "deleted via issue_tracker tool"@,
            };
            &&& epic_id is None ==> fails(
                step,
                "missing required parameter: "@ + "epic_id"@,
            )
            &&& epic_id is Some ==> runs(provider, step, seq!["close"@, epic_id->0, "--reason"@, reason], None::<Seq<char>>)
        }),
{
    lemma_actions_differ();
    lemma_globals(provider);
}

/// An issue is closed with the reason that is given, or a standing one.
pub proof fn law_issue_is_closed(
    tool: IssueToolModel,
    provider: BeadsModel,
    args: JsonModel,
    answers: AnswersModel,
)
    requires
        cleared(tool, args, answers, "issue.delete"@),
    ensures
        ({
            let step = tool.step(args, answers);
            let issue_id = text_at(args, "issue_id"@);
            let reason = match text_at(args, "reason"@) {
                Some(text) => text,
                None => "deleted via issue_tracker tool"@,
            };
            &&& issue_id is None ==> fails(
                step,
                "missing required parameter: "@ + "issue_id"@,
            )
            &&& issue_id is Some ==> runs(provider, step, seq!["close"@, issue_id->0, "--reason"@, reason], None::<Seq<char>>)
        }),
{
    lemma_actions_differ();
    lemma_globals(provider);
}

/// The next issue is one that is ready.
pub proof fn law_next_issue_is_ready(
    tool: IssueToolModel,
    provider: BeadsModel,
    args: JsonModel,
    answers: AnswersModel,
)
    requires
        cleared(tool, args, answers, "issue.next"@),
    ensures
        ({
            let step = tool.step(args, answers);
            &&& runs(provider, step, seq!["ready"@], None::<Seq<char>>)
        }),
{
    lemma_actions_differ();
    lemma_globals(provider);
}

/// An issue is assigned to whom is given.
pub proof fn law_issue_is_assigned(
    tool: IssueToolModel,
    provider: BeadsModel,
    args: JsonModel,
    answers: AnswersModel,
)
    requires
        cleared(tool, args, answers, "issue.assign"@),
    ensures
        ({
            let step = tool.step(args, answers);
            let issue_id = text_at(args, "issue_id"@);
            let assignee = text_at(args, "assignee"@);
            &&& issue_id is None ==> fails(
                step,
                "missing required parameter: "@ + "issue_id"@,
            )
            &&& issue_id is Some && assignee is None ==> fails(
                step,
                "missing required parameter: "@ + "assignee"@,
            )
            &&& issue_id is Some && assignee is Some ==> runs(provider, step, seq!["update"@, issue_id->0, "--assignee"@, assignee->0], None::<Seq<char>>)
        }),
{
    lemma_actions_differ();
    lemma_globals(provider);
}

/// Issues are listed by the status, the priority, the assignee and the epic that are
/// given, each where it is.
pub proof fn law_issues_are_filtered(
    tool: IssueToolModel,
    provider: BeadsModel,
    args: JsonModel,
    answers: AnswersModel,
)
    requires
        cleared(tool, args, answers, "issue.list"@),
    ensures
        ({
            let step = tool.step(args, answers);
            &&& runs(provider, step, seq!["list"@] + flagged("--status"@, text_at(args, "status"@)) + flagged("--priority"@, priority_given(args)) + flagged("--assignee"@, text_at(args, "assignee"@)) + flagged("--parent"@, text_at(args, "parent"@)), None::<Seq<char>>)
        }),
{
    lemma_actions_differ();
    lemma_globals(provider);
    match tool.step(args, answers) {
        IssueStepModel::Call(IssueCallModel::IssueList { params }) => {
            lemma_list(params);
        },
        _ => {},
    }
}

/// A dependency goes from the first issue to the second, of the type that is given
/// or blocking.
pub proof fn law_dependency_is_added(
    tool: IssueToolModel,
    provider: BeadsModel,
    args: JsonModel,
    answers: AnswersModel,
)
    requires
        cleared(tool, args, answers, "dep.add"@),
    ensures
        ({
            let step = tool.step(args, answers);
            let from_id = text_at(args, "from_id"@);
            let to_id = text_at(args, "to_id"@);
            let kind = match text_at(args, "dep_type"@) {
                Some(text) => text,
                None => "blocks"@,
            };
            &&& from_id is None ==> fails(
                step,
                "missing required parameter: "@ + "from_id"@,
            )
            &&& from_id is Some && to_id is None ==> fails(
                step,
                "missing required parameter: "@ + "to_id"@,
            )
            &&& from_id is Some && to_id is Some ==> runs(provider, step, seq!["dep"@, "add"@, from_id->0, to_id->0, "--type"@, kind], None::<Seq<char>>)
        }),
{
    lemma_actions_differ();
    lemma_globals(provider);
}

/// A dependency is removed from the first issue to the second.
pub proof fn law_dependency_is_removed(
    tool: IssueToolModel,
    provider: BeadsModel,
    args: JsonModel,
    answers: AnswersModel,
)
    requires
        cleared(tool, args, answers, "dep.remove"@),
    ensures
        ({
            let step = tool.step(args, answers);
            let from_id = text_at(args, "from_id"@);
            let to_id = text_at(args, "to_id"@);
            &&& from_id is None ==> fails(
                step,
                "missing required parameter: "@ + "from_id"@,
            )
            &&& from_id is Some && to_id is None ==> fails(
                step,
                "missing required parameter: "@ + "to_id"@,
            )
            &&& from_id is Some && to_id is Some ==> runs(provider, step, seq!["dep"@, "remove"@, from_id->0, to_id->0], None::<Seq<char>>)
        }),
{
    lemma_actions_differ();
    lemma_globals(provider);
}

/// The dependencies of an issue are shown as a tree.
pub proof fn law_dependencies_are_shown(
    tool: IssueToolModel,
    provider: BeadsModel,
    args: JsonModel,
    answers: AnswersModel,
)
    requires
        cleared(tool, args, answers, "dep.tree"@),
    ensures
        ({
            let step = tool.step(args, answers);
            let issue_id = text_at(args, "issue_id"@);
            &&& issue_id is None ==> fails(
                step,
                "missing required parameter: "@ + "issue_id"@,
            )
            &&& issue_id is Some ==> runs(provider, step, seq!["dep"@, "tree"@, issue_id->0], None::<Seq<char>>)
        }),
{
    lemma_actions_differ();
    lemma_globals(provider);
}

/// Changes are pushed.
pub proof fn law_changes_are_pushed(
    tool: IssueToolModel,
    provider: BeadsModel,
    args: JsonModel,
    answers: AnswersModel,
)
    requires
        cleared(tool, args, answers, "sync.push"@),
    ensures
        ({
            let step = tool.step(args, answers);
            &&& runs(provider, step, seq!["dolt"@, "push"@], None::<Seq<char>>)
        }),
{
    lemma_actions_differ();
    lemma_globals(provider);
}

/// Changes are pulled.
pub proof fn law_changes_are_pulled(
    tool: IssueToolModel,
    provider: BeadsModel,
    args: JsonModel,
    answers: AnswersModel,
)
    requires
        cleared(tool, args, answers, "sync.pull"@),
    ensures
        ({
            let step = tool.step(args, answers);
            &&& runs(provider, step, seq!["dolt"@, "pull"@], None::<Seq<char>>)
        }),
{
    lemma_actions_differ();
    lemma_globals(provider);
}

/// The state of the sync is told.
pub proof fn law_sync_is_told(
    tool: IssueToolModel,
    provider: BeadsModel,
    args: JsonModel,
    answers: AnswersModel,
)
    requires
        cleared(tool, args, answers, "sync.status"@),
    ensures
        ({
            let step = tool.step(args, answers);
            &&& runs(provider, step, seq!["dolt"@, "status"@], None::<Seq<char>>)
        }),
{
    lemma_actions_differ();
    lemma_globals(provider);
}

/// A comment goes to the issue that is named, and its text is read by the program.
pub proof fn law_comment_is_read(provider: BeadsModel, input: IssueCommentInputModel)
    ensures
        ({
            let command = provider.comment(input);
            let globals = flagged("--db"@, provider.db_path) + flagged("--actor"@, provider.actor);
            &&& command.program == provider.bd_path
            &&& command.timeout_secs == provider.timeout_secs
            &&& command.stdin == Some(input.body)
            &&& command.args == globals + seq!["comment"@, input.issue_id] + seq![
                "--json"@,
                "--stdin"@,
            ]
        }),
{
    lemma_globals(provider);
}

/// A call without an action is malformed, and one of an action that is not enabled
/// fails without a question. Otherwise the policy is asked first about the rate
/// limit, and then to record the action; where it says no to either, the call
/// fails and says so.
pub proof fn law_policy_is_asked_in_turn(
    tool: IssueToolModel,
    args: JsonModel,
    answers: AnswersModel,
)
    ensures
        ({
            let step = tool.step(args, answers);
            let action = text_at(args, "action"@);
            let open = action is Some && tool.allowed_actions.contains(action->0);
            &&& action is None ==> step == IssueStepModel::Failed("missing required parameter: action"@)
            &&& action is Some && !open ==> fails(
                step,
                "action '"@ + action->0 + "' is not in the allowed_actions list. Update ["@
                    + "issue_tracker"@ + "].allowed_actions in config to enable it."@,
            )
            &&& open && answers.rate_limited is None ==> step == IssueStepModel::Ask(Question::RateLimited)
            &&& open && answers.rate_limited == Some(true) ==> fails(
                step,
                "Rate limit exceeded for "@ + "issue_tracker"@ + " tool."@,
            )
            &&& open && answers.rate_limited == Some(false) && answers.recorded is None ==> step
                == IssueStepModel::Ask(Question::Record)
            &&& open && answers.rate_limited == Some(false) && answers.recorded == Some(false)
                ==> fails(step, "Action budget exhausted."@)
        }),
{
}

/// Six actions read and the others act, and that is what the policy is asked
/// about; an action that is not known fails.
pub proof fn law_policy_is_asked_what_the_action_is(
    tool: IssueToolModel,
    args: JsonModel,
    answers: AnswersModel,
    action: Seq<char>,
)
    requires
        text_at(args, "action"@) == Some(action),
        tool.allowed_actions.contains(action),
        answers.rate_limited == Some(false),
        answers.recorded == Some(true),
    ensures
        ({
            let step = tool.step(args, answers);
            let reading = action == "epic.get"@ || action == "issue.get"@ || action == "issue.next"@ || action == "issue.list"@ || action == "dep.tree"@ || action == "sync.status"@;
            &&& answers.verdict is None && reading ==> step == IssueStepModel::Ask(
                Question::Enforce(ToolOperation::Read),
            )
            &&& answers.verdict is None && !reading ==> step == IssueStepModel::Ask(
                Question::Enforce(ToolOperation::Act),
            )
            &&& answers.verdict is Some && answers.verdict->0 is Some ==> fails(
                step,
                answers.verdict->0->0,
            )
            &&& answers.verdict == Some(None::<Seq<char>>) && !(action == "epic.create"@ || action == "epic.get"@ || action == "epic.update"@ || action == "epic.delete"@ || action == "issue.create"@ || action == "issue.get"@ || action == "issue.update"@ || action == "issue.delete"@ || action == "issue.next"@ || action == "issue.assign"@ || action == "issue.list"@ || action == "dep.add"@ || action == "dep.remove"@ || action == "dep.tree"@ || action == "sync.push"@ || action == "sync.pull"@ || action == "sync.status"@) ==> fails(
                step,
                "unknown action: "@ + action,
            )
        }),
{
    lemma_actions_differ();
}

/// Every end of a command can be reported but a failure that says something which
/// would be cut, after 500 bytes, inside a character.
pub proof fn law_when_ends_can_be_reported(
    success: bool,
    status: Seq<char>,
    stdout: Seq<u8>,
    stderr: Seq<u8>,
    error: Seq<char>,
)
    ensures
        ({
            let bytes = encode_utf8(lossy_text(stderr));
            &&& bd_reportable(BdEndModel::TimedOut)
            &&& bd_reportable(BdEndModel::Failed(error))
            &&& bd_reportable(BdEndModel::Exited { success, status, stdout, stderr }) <==> success
                || bytes.len() <= 500 || !(0x80 <= bytes[500] <= 0xbf)
        }),
{
    law_where_a_text_can_be_cut(lossy_text(stderr), 500);
}

/// A command that exits well answers the JSON that it prints, and that all is well
/// where it prints nothing; one that fails answers its status and the beginning of
/// what it says, and one that took too long or could not be run answers that.
pub proof fn law_command_is_answered(
    success: bool,
    status: Seq<char>,
    stdout: Seq<u8>,
    stderr: Seq<u8>,
    error: Seq<char>,
)
    ensures
        ({
            let answer = bd_answer(BdEndModel::Exited { success, status, stdout, stderr });
            let printed = lossy_text(stdout);
            let parsed = json_parsed(printed);
            &&& !success ==> answer == Err::<JsonModel, _>(
                "bd error (exit "@ + status + "): "@ + cut(lossy_text(stderr), 500, "..."@),
            )
            &&& success && blank(printed) ==> {
                &&& answer is Ok
                &&& bool_at(answer->Ok_0, "ok"@) == Some(true)
                &&& forall|key: Seq<char>| #[trigger]
                    field(answer->Ok_0, key) is Some ==> key == "ok"@
            }
            &&& success && !blank(printed) && parsed is Ok ==> answer == parsed
            &&& success && !blank(printed) && parsed is Err ==> answer == Err::<JsonModel, _>(
                "failed to parse bd JSON output: "@ + parsed->Err_0,
            )
            &&& bd_answer(BdEndModel::TimedOut) == Err::<JsonModel, _>("bd command timed out"@)
            &&& bd_answer(BdEndModel::Failed(error)) == Err::<JsonModel, _>(error)
        }),
{
}

proof fn lemma_parameters_differ()
    ensures
        mark("action"@) == 7841567068543046,
        mark("assignee"@) == 7137603637336136,
        mark("body"@) == 8542225530689668,
        mark("dep_type"@) == 7914680259254536,
        mark("deps"@) == 8123300838119684,
        mark("description"@) == 7420710739400971,
        mark("enum"@) == 7702472401180996,
        mark("epic_id"@) == 7414944703764807,
        mark("from_id"@) == 7414951146379655,
        mark("issue_id"@) == 7414955441216072,
        mark("label"@) == 7135110438099717,
        mark("maximum"@) == 8263234068568903,
        mark("minimum"@) == 8263223331150663,
        mark("parent"@) == 7770921324076038,
        mark("priority"@) == 8191749757115400,
        mark("properties"@) == 7420724719164426,
        mark("reason"@) == 7841546667613318,
        mark("required"@) == 7138700997319816,
        mark("status"@) == 8265408421108934,
        mark("title"@) == 7629624353561861,
        mark("to_id"@) == 7417699925220613,
        mark("type"@) == 7138159835749636,
{
    reveal_strlit("action");
    reveal_strlit("assignee");
    reveal_strlit("body");
    reveal_strlit("dep_type");
    reveal_strlit("deps");
    reveal_strlit("description");
    reveal_strlit("enum");
    reveal_strlit("epic_id");
    reveal_strlit("from_id");
    reveal_strlit("issue_id");
    reveal_strlit("label");
    reveal_strlit("maximum");
    reveal_strlit("minimum");
    reveal_strlit("parent");
    reveal_strlit("priority");
    reveal_strlit("properties");
    reveal_strlit("reason");
    reveal_strlit("required");
    reveal_strlit("status");
    reveal_strlit("title");
    reveal_strlit("to_id");
    reveal_strlit("type");
}

/// Whether a schema offers a parameter of a type, and says what it is.
pub open spec fn offers(
    properties: JsonModel,
    key: Seq<char>,
    kind: Seq<char>,
    description: Seq<char>,
) -> bool {
    &&& field(properties, key) is Some
    &&& text_at(field(properties, key)->0, "type"@) == Some(kind)
    &&& text_at(field(properties, key)->0, "description"@) == Some(description)
}

/// The schema is an object that requires the action, and offers each parameter
/// that an action reads with its type, its choices and its range, and no other.
pub proof fn law_schema_offers_every_parameter()
    ensures
        ({
            let schema = schema_model(issue_properties());
            let properties = field(schema, "properties"@)->0;
            &&& text_at(schema, "type"@) == Some("object"@)
            &&& field(schema, "required"@) == Some(
                JsonModel::Array(seq![JsonModel::Text("action"@)]),
            )
            &&& field(schema, "properties"@) is Some
            &&& offers(
                properties,
                "action"@,
                "string"@,
                "The issue-tracker action to perform."@,
            )
            &&& offers(
                properties,
                "issue_id"@,
                "string"@,
                "Issue ID (e.g. 'bd-a3f8' or 'bd-a3f8.1')."@,
            )
            &&& offers(
                properties,
                "epic_id"@,
                "string"@,
                "Epic ID (e.g. 'bd-a3f8')."@,
            )
            &&& offers(
                properties,
                "title"@,
                "string"@,
                "Title for epic/issue create or update."@,
            )
            &&& offers(
                properties,
                "body"@,
                "string"@,
                "Description body for epic/issue create or update."@,
            )
            &&& offers(
                properties,
                "priority"@,
                "integer"@,
                "Priority level (1 = highest, 5 = lowest)."@,
            )
            &&& offers(
                properties,
                "status"@,
                "string"@,
                "Issue status for update or list filtering."@,
            )
            &&& offers(
                properties,
                "label"@,
                "string"@,
                "Label for epic/issue create or update."@,
            )
            &&& offers(
                properties,
                "assignee"@,
                "string"@,
                "Assignee name for issue.assign, issue.create, or issue.update."@,
            )
            &&& offers(
                properties,
                "parent"@,
                "string"@,
                "Parent epic ID for issue.create or issue.list filtering."@,
            )
            &&& offers(
                properties,
                "deps"@,
                "string"@,
                "Comma-separated dependency IDs for issue.create."@,
            )
            &&& offers(
                properties,
                "reason"@,
                "string"@,
                "Reason for closing/deleting an epic or issue."@,
            )
            &&& offers(
                properties,
                "from_id"@,
                "string"@,
                "Source issue ID for dep.add/dep.remove (the issue that depends)."@,
            )
            &&& offers(
                properties,
                "to_id"@,
                "string"@,
                "Target issue ID for dep.add/dep.remove (the issue being depended on)."@,
            )
            &&& offers(
                properties,
                "dep_type"@,
                "string"@,
                "Dependency type for dep.add. Default: 'blocks'."@,
            )
            &&& field(field(properties, "priority"@)->0, "minimum"@) == Some(
                JsonModel::Integer(1),
            ) && field(field(properties, "priority"@)->0, "maximum"@) == Some(JsonModel::Integer(5))
            &&& field(field(properties, "action"@)->0, "enum"@) == Some(
                JsonModel::Array(
                    seq![
                        JsonModel::Text("epic.create"@),
                        JsonModel::Text("epic.get"@),
                        JsonModel::Text("epic.update"@),
                        JsonModel::Text("epic.delete"@),
                        JsonModel::Text("issue.create"@),
                        JsonModel::Text("issue.get"@),
                        JsonModel::Text("issue.update"@),
                        JsonModel::Text("issue.delete"@),
                        JsonModel::Text("issue.next"@),
                        JsonModel::Text("issue.assign"@),
                        JsonModel::Text("issue.list"@),
                        JsonModel::Text("dep.add"@),
                        JsonModel::Text("dep.remove"@),
                        JsonModel::Text("dep.tree"@),
                        JsonModel::Text("sync.push"@),
                        JsonModel::Text("sync.pull"@),
                        JsonModel::Text("sync.status"@),
                    ],
                ),
            )
            &&& field(field(properties, "status"@)->0, "enum"@) == Some(
                JsonModel::Array(
                    seq![
                        JsonModel::Text("open"@),
                        JsonModel::Text("in_progress"@),
                        JsonModel::Text("closed"@),
                        JsonModel::Text("blocked"@),
                    ],
                ),
            )
            &&& field(field(properties, "dep_type"@)->0, "enum"@) == Some(
                JsonModel::Array(
                    seq![
                        JsonModel::Text("blocks"@),
                        JsonModel::Text("relates_to"@),
                        JsonModel::Text("duplicates"@),
                        JsonModel::Text("supersedes"@),
                    ],
                ),
            )
            &&& forall|key: Seq<char>| #[trigger]
                field(properties, key) is Some ==> {
                    ||| key == "action"@
                    ||| key == "issue_id"@
                    ||| key == "epic_id"@
                    ||| key == "title"@
                    ||| key == "body"@
                    ||| key == "priority"@
                    ||| key == "status"@
                    ||| key == "label"@
                    ||| key == "assignee"@
                    ||| key == "parent"@
                    ||| key == "deps"@
                    ||| key == "reason"@
                    ||| key == "from_id"@
                    ||| key == "to_id"@
                    ||| key == "dep_type"@
                }
        }),
{
    lemma_parameters_differ();
    let schema = schema_model(issue_properties());
    let properties = field(schema, "properties"@)->0;
    assert(field(schema, "required"@)->0->Array_0 =~= seq![JsonModel::Text("action"@)]);
    assert(field(field(properties, "action"@)->0, "enum"@)->0->Array_0 =~= seq![
        JsonModel::Text("epic.create"@),
        JsonModel::Text("epic.get"@),
        JsonModel::Text("epic.update"@),
        JsonModel::Text("epic.delete"@),
        JsonModel::Text("issue.create"@),
        JsonModel::Text("issue.get"@),
        JsonModel::Text("issue.update"@),
        JsonModel::Text("issue.delete"@),
        JsonModel::Text("issue.next"@),
        JsonModel::Text("issue.assign"@),
        JsonModel::Text("issue.list"@),
        JsonModel::Text("dep.add"@),
        JsonModel::Text("dep.remove"@),
        JsonModel::Text("dep.tree"@),
        JsonModel::Text("sync.push"@),
        JsonModel::Text("sync.pull"@),
        JsonModel::Text("sync.status"@),
    ]);
    assert(field(field(properties, "status"@)->0, "enum"@)->0->Array_0 =~= seq![
        JsonModel::Text("open"@),
        JsonModel::Text("in_progress"@),
        JsonModel::Text("closed"@),
        JsonModel::Text("blocked"@),
    ]);
    assert(field(field(properties, "dep_type"@)->0, "enum"@)->0->Array_0 =~= seq![
        JsonModel::Text("blocks"@),
        JsonModel::Text("relates_to"@),
        JsonModel::Text("duplicates"@),
        JsonModel::Text("supersedes"@),
    ]);
}

} // verus!
