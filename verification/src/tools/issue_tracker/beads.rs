//! The Beads provider of the issue-tracker tool: command lines of the `bd` CLI,
//! and what it prints.
use vstd::prelude::*;
use crate::http::json_result;
use crate::json::{str_texts, Json, JsonModel, JsonObject};
use crate::json_text::{json_parsed, parse_json};
use crate::text::{
    blank, borrowed, can_cut, can_truncate, cat2, cat4, cut, decimal, is_blank, lossy_text, opt_str,
    opt_string, or_text, text_from_bytes, text_or, texts, truncate, u64_text,
};
use crate::tools::issue_tracker::types::{
    DepAddInput, EpicCreateInput, EpicCreateInputModel, EpicUpdateInput, EpicUpdateInputModel,
    IssueCommentInput, IssueCommentInputModel, IssueCreateInput, IssueCreateInputModel,
    IssueListParams, IssueListParamsModel, IssueUpdateInput, IssueUpdateInputModel,
};
use crate::tools::issue_tracker::{IssueCall, IssueCallModel};

verus! {

/// How much of what `bd` writes to its standard error is kept, in bytes.
pub const MAX_STDERR_CHARS: usize = 500;

/// Beads (`bd` CLI) issue-tracker provider.
///
/// Runs the `bd` binary with `--json` for machine-readable output. A command is
/// a program and a list of arguments; no shell reads it.
pub struct BeadsProvider {
    bd_path: String,
    db_path: Option<String>,
    actor: Option<String>,
    timeout_secs: u64,
}

/// How the provider is set up.
pub struct BeadsModel {
    pub bd_path: Seq<char>,
    pub db_path: Option<Seq<char>>,
    pub actor: Option<Seq<char>>,
    pub timeout_secs: u64,
}

impl View for BeadsProvider {
    type V = BeadsModel;

    closed spec fn view(&self) -> BeadsModel {
        BeadsModel {
            bd_path: self.bd_path@,
            db_path: opt_string(self.db_path),
            actor: opt_string(self.actor),
            timeout_secs: self.timeout_secs,
        }
    }
}

/// A command that is to be run.
#[derive(Debug)]
pub struct BdCommand {
    pub program: String,
    pub args: Vec<String>,
    /// What is written to its standard input, if anything.
    pub stdin: Option<String>,
    /// How long it may take.
    pub timeout_secs: u64,
}

/// What a command says.
#[verifier::ext_equal]
pub struct BdCommandModel {
    pub program: Seq<char>,
    pub args: Seq<Seq<char>>,
    pub stdin: Option<Seq<char>>,
    pub timeout_secs: u64,
}

impl View for BdCommand {
    type V = BdCommandModel;

    open spec fn view(&self) -> BdCommandModel {
        BdCommandModel {
            program: self.program@,
            args: texts(self.args@),
            stdin: opt_string(self.stdin),
            timeout_secs: self.timeout_secs,
        }
    }
}

/// How a command ended.
#[derive(Debug)]
pub enum BdEnd {
    /// It took too long.
    TimedOut,
    /// It could not be run.
    Failed(String),
    /// It exited.
    Exited {
        success: bool,
        /// The exit status, as it is displayed.
        status: String,
        stdout: Vec<u8>,
        stderr: Vec<u8>,
    },
}

/// How a command ended.
pub enum BdEndModel {
    TimedOut,
    Failed(Seq<char>),
    Exited { success: bool, status: Seq<char>, stdout: Seq<u8>, stderr: Seq<u8> },
}

impl View for BdEnd {
    type V = BdEndModel;

    open spec fn view(&self) -> BdEndModel {
        match *self {
            BdEnd::TimedOut => BdEndModel::TimedOut,
            BdEnd::Failed(error) => BdEndModel::Failed(error@),
            BdEnd::Exited { success, status, stdout, stderr } => BdEndModel::Exited {
                success,
                status: status@,
                stdout: stdout@,
                stderr: stderr@,
            },
        }
    }
}

/// Arguments with one more flag, where there is a value for it.
pub open spec fn with_flag(
    args: Seq<Seq<char>>,
    flag: Seq<char>,
    value: Option<Seq<char>>,
) -> Seq<Seq<char>> {
    match value {
        Some(text) => args.push(flag).push(text),
        None => args,
    }
}

fn add_flag(args: &mut Vec<String>, flag: &str, value: Option<&str>)
    ensures
        texts(final(args)@) == with_flag(texts(old(args)@), flag@, opt_str(value)),
{
    if let Some(text) = value {
        let ghost before = args@;
        args.push(flag.to_string());
        args.push(text.to_string());
        assert(texts(args@) =~= texts(before).push(flag@).push(text@));
    }
}

/// A priority in decimal digits.
pub open spec fn priority_text(priority: Option<u8>) -> Option<Seq<char>> {
    match priority {
        Some(p) => Some(decimal(p as nat)),
        None => None,
    }
}

fn add_priority(args: &mut Vec<String>, priority: Option<u8>)
    ensures
        texts(final(args)@) == with_flag(
            texts(old(args)@),
            "--priority"@,
            priority_text(priority),
        ),
{
    match priority {
        Some(p) => {
            let text = u64_text(p as u64);
            add_flag(args, "--priority", Some(text.as_str()));
        },
        None => {},
    }
}

fn arg_list(items: &Vec<&str>) -> (args: Vec<String>)
    ensures
        texts(args@) == str_texts(items@),
{
    let mut args: Vec<String> = Vec::new();
    let mut i: usize = 0;
    while i < items.len()
        invariant
            i <= items.len(),
            args@.len() == i,
            forall|k: int| 0 <= k < i ==> (#[trigger] args@[k])@ == items@[k]@,
        decreases items.len() - i,
    {
        args.push(items[i].to_string());
        i = i + 1;
    }
    assert(texts(args@) =~= str_texts(items@));
    args
}

/// The arguments of a command that creates something.
pub open spec fn create_args(
    title: Seq<char>,
    priority: Option<u8>,
    label: Option<Seq<char>>,
    parent: Option<Seq<char>>,
    assignee: Option<Seq<char>>,
    deps: Option<Seq<char>>,
) -> Seq<Seq<char>> {
    let args = with_flag(seq!["create"@, title], "--parent"@, parent);
    let args = with_flag(args, "--priority"@, priority_text(priority));
    let args = with_flag(args, "--label"@, label);
    let args = with_flag(args, "--assignee"@, assignee);
    with_flag(args, "--deps"@, deps)
}

/// The arguments of a command that changes something.
pub open spec fn update_args(
    id: Seq<char>,
    title: Option<Seq<char>>,
    priority: Option<u8>,
    status: Option<Seq<char>>,
    label: Option<Seq<char>>,
    assignee: Option<Seq<char>>,
) -> Seq<Seq<char>> {
    let args = with_flag(seq!["update"@, id], "--title"@, title);
    let args = with_flag(args, "--priority"@, priority_text(priority));
    let args = with_flag(args, "--status"@, status);
    let args = with_flag(args, "--label"@, label);
    with_flag(args, "--assignee"@, assignee)
}

/// The arguments of a command that lists issues.
pub open spec fn list_args(params: IssueListParamsModel) -> Seq<Seq<char>> {
    let args = with_flag(seq!["list"@], "--status"@, params.status);
    let args = with_flag(args, "--priority"@, priority_text(params.priority));
    let args = with_flag(args, "--assignee"@, params.assignee);
    with_flag(args, "--parent"@, params.parent)
}

/// The arguments of a command that closes something.
pub open spec fn close_args(id: Seq<char>, reason: Option<Seq<char>>) -> Seq<Seq<char>> {
    seq!["close"@, id, "--reason"@, text_or(reason, "deleted via issue_tracker tool"@)]
}

/// The value that stands for no output.
pub open spec fn bd_ok() -> JsonModel {
    JsonModel::Object(Map::empty().insert("ok"@, JsonModel::Bool(true)))
}

/// What a command answers that exited, given the texts that it wrote and what
/// its output reads as.
pub open spec fn exit_answer(
    success: bool,
    status: Seq<char>,
    stdout: Seq<char>,
    stderr: Seq<char>,
    output: Result<JsonModel, Seq<char>>,
) -> Result<JsonModel, Seq<char>> {
    if !success {
        Err(
            "bd error (exit "@ + status + "): "@ + cut(stderr, MAX_STDERR_CHARS as int, "..."@),
        )
    } else if blank(stdout) {
        Ok(bd_ok())
    } else {
        match output {
            Ok(value) => Ok(value),
            Err(error) => Err("failed to parse bd JSON output: "@ + error),
        }
    }
}

/// What a command answers.
pub open spec fn bd_answer(end: BdEndModel) -> Result<JsonModel, Seq<char>> {
    match end {
        BdEndModel::TimedOut => Err("bd command timed out"@),
        BdEndModel::Failed(error) => Err(error),
        BdEndModel::Exited { success, status, stdout, stderr } => exit_answer(
            success,
            status,
            lossy_text(stdout),
            lossy_text(stderr),
            json_parsed(lossy_text(stdout)),
        ),
    }
}

/// Whether the end of a command can be reported: where it is an error, what it
/// wrote can be cut.
pub open spec fn bd_reportable(end: BdEndModel) -> bool {
    match end {
        BdEndModel::Exited { success, stderr, .. } => success || can_cut(
            lossy_text(stderr),
            MAX_STDERR_CHARS as int,
        ),
        _ => true,
    }
}

/// What a command answers that exited, given the texts that it wrote and what
/// its output reads as.
pub fn answer_exit(
    success: bool,
    status: &str,
    stdout: &str,
    stderr: &str,
    output: Result<Json, String>,
) -> (answer: Result<Json, String>)
    requires
        success || can_cut(stderr@, MAX_STDERR_CHARS as int),
    ensures
        json_result(answer) == exit_answer(success, status@, stdout@, stderr@, json_result(output)),
{
    if !success {
        let shortened = truncate(stderr, MAX_STDERR_CHARS);
        return Err(cat4("bd error (exit ", status, "): ", shortened.as_str()));
    }
    if is_blank(stdout) {
        let mut object = JsonObject::new();
        object.set("ok", Json::Bool(true));
        return Ok(object.into_json());
    }
    match output {
        Ok(value) => Ok(value),
        Err(error) => Err(cat2("failed to parse bd JSON output: ", error.as_str())),
    }
}

/// What a command answers. There is no answer where what a failed command wrote
/// would be cut inside a character.
pub fn parse_output(end: BdEnd) -> (answer: Option<Result<Json, String>>)
    ensures
        match answer {
            Some(a) => bd_reportable(end@) && json_result(a) == bd_answer(end@),
            None => !bd_reportable(end@),
        },
{
    match end {
        BdEnd::TimedOut => Some(Err("bd command timed out".to_string())),
        BdEnd::Failed(error) => Some(Err(error)),
        BdEnd::Exited { success, status, stdout, stderr } => {
            let error_text = text_from_bytes(stderr.as_slice());
            if !success && !can_truncate(error_text.as_str(), MAX_STDERR_CHARS) {
                return None;
            }
            let text = text_from_bytes(stdout.as_slice());
            let output = parse_json(text.as_str());
            Some(
                answer_exit(success, status.as_str(), text.as_str(), error_text.as_str(), output),
            )
        },
    }
}

impl BeadsModel {
    /// The global flags of every command.
    pub open spec fn base_args(self) -> Seq<Seq<char>> {
        with_flag(with_flag(Seq::empty(), "--db"@, self.db_path), "--actor"@, self.actor)
    }

    /// A command with the global flags, its own arguments, and `--json`; one
    /// that has something to read also has `--stdin`.
    pub open spec fn command(self, args: Seq<Seq<char>>, stdin: Option<Seq<char>>) -> BdCommandModel {
        let closing = match stdin {
            Some(_) => seq!["--json"@, "--stdin"@],
            None => seq!["--json"@],
        };
        BdCommandModel {
            program: self.bd_path,
            args: self.base_args() + args + closing,
            stdin,
            timeout_secs: self.timeout_secs,
        }
    }

    /// The command that adds a comment.
    pub open spec fn comment(self, input: IssueCommentInputModel) -> BdCommandModel {
        self.command(seq!["comment"@, input.issue_id], Some(input.body))
    }

    /// The command that performs a call.
    pub open spec fn perform(self, call: IssueCallModel) -> BdCommandModel {
        match call {
            IssueCallModel::EpicCreate { input } => self.command(
                create_args(input.title, input.priority, input.label, None, None, None),
                input.body,
            ),
            IssueCallModel::EpicGet { epic_id } => self.command(seq!["show"@, epic_id], None),
            IssueCallModel::EpicUpdate { epic_id, input } => self.command(
                update_args(epic_id, input.title, input.priority, input.status, input.label, None),
                input.body,
            ),
            IssueCallModel::EpicDelete { epic_id, reason } => self.command(
                close_args(epic_id, reason),
                None,
            ),
            IssueCallModel::IssueCreate { input } => self.command(
                create_args(
                    input.title,
                    input.priority,
                    input.label,
                    input.parent,
                    input.assignee,
                    input.deps,
                ),
                input.body,
            ),
            IssueCallModel::IssueGet { issue_id } => self.command(seq!["show"@, issue_id], None),
            IssueCallModel::IssueUpdate { issue_id, input } => self.command(
                update_args(
                    issue_id,
                    input.title,
                    input.priority,
                    input.status,
                    input.label,
                    input.assignee,
                ),
                input.body,
            ),
            IssueCallModel::IssueDelete { issue_id, reason } => self.command(
                close_args(issue_id, reason),
                None,
            ),
            IssueCallModel::IssueNext => self.command(seq!["ready"@], None),
            IssueCallModel::IssueAssign { issue_id, assignee } => self.command(
                seq!["update"@, issue_id, "--assignee"@, assignee],
                None,
            ),
            IssueCallModel::IssueList { params } => self.command(list_args(params), None),
            IssueCallModel::DepAdd { input } => self.command(
                seq![
                    "dep"@,
                    "add"@,
                    input.from_id,
                    input.to_id,
                    "--type"@,
                    text_or(input.dep_type, "blocks"@),
                ],
                None,
            ),
            IssueCallModel::DepRemove { from_id, to_id } => self.command(
                seq!["dep"@, "remove"@, from_id, to_id],
                None,
            ),
            IssueCallModel::DepTree { issue_id } => self.command(
                seq!["dep"@, "tree"@, issue_id],
                None,
            ),
            IssueCallModel::SyncPush => self.command(seq!["dolt"@, "push"@], None),
            IssueCallModel::SyncPull => self.command(seq!["dolt"@, "pull"@], None),
            IssueCallModel::SyncStatus => self.command(seq!["dolt"@, "status"@], None),
        }
    }
}

impl BeadsProvider {
    /// Create a provider with the path of the `bd` binary, the database and the
    /// actor that it is told of, and the time that a command may take.
    pub fn new(
        bd_path: String,
        db_path: Option<String>,
        actor: Option<String>,
        timeout_secs: u64,
    ) -> (provider: Self)
        ensures
            provider@ == (BeadsModel {
                bd_path: bd_path@,
                db_path: opt_string(db_path),
                actor: opt_string(actor),
                timeout_secs,
            }),
    {
        BeadsProvider { bd_path, db_path, actor, timeout_secs }
    }

    /// The global flags (`--db`, `--actor`).
    pub fn base_cmd(&self) -> (args: Vec<String>)
        ensures
            texts(args@) == self@.base_args(),
    {
        let mut args: Vec<String> = Vec::new();
        assert(texts(args@) =~= Seq::empty());
        add_flag(&mut args, "--db", borrowed(&self.db_path));
        add_flag(&mut args, "--actor", borrowed(&self.actor));
        args
    }

    fn full_command(&self, args: Vec<String>, stdin: Option<String>) -> (command: BdCommand)
        ensures
            command@ == self@.command(texts(args@), opt_string(stdin)),
    {
        let mut all = self.base_cmd();
        let ghost base = texts(all@);
        let mut i: usize = 0;
        assert(base + texts(args@).take(0) =~= base);
        while i < args.len()
            invariant
                i <= args.len(),
                texts(all@) == base + texts(args@).take(i as int),
            decreases args.len() - i,
        {
            let ghost before = all@;
            all.push(args[i].clone());
            proof {
                assert(texts(all@) =~= texts(before).push(args@[i as int]@));
                assert(texts(args@).take(i + 1) =~= texts(args@).take(i as int).push(
                    args@[i as int]@,
                ));
                assert(texts(all@) =~= base + texts(args@).take(i + 1));
            }
            i = i + 1;
        }
        assert(texts(args@).take(args.len() as int) =~= texts(args@));
        let ghost before = texts(all@);
        all.push("--json".to_string());
        if stdin.is_some() {
            all.push("--stdin".to_string());
            assert(texts(all@) =~= before + seq!["--json"@, "--stdin"@]);
        } else {
            assert(texts(all@) =~= before + seq!["--json"@]);
        }
        let command = BdCommand {
            program: self.bd_path.clone(),
            args: all,
            stdin,
            timeout_secs: self.timeout_secs,
        };
        assert(command@ =~= self@.command(texts(args@), opt_string(stdin)));
        command
    }

    /// A `bd` subcommand with `--json`.
    pub fn run_bd(&self, args: Vec<String>) -> (command: BdCommand)
        ensures
            command@ == self@.command(texts(args@), None),
    {
        self.full_command(args, None)
    }

    /// A `bd` subcommand that accepts body content via stdin.
    pub fn run_bd_with_stdin(&self, args: Vec<String>, stdin_data: &str) -> (command: BdCommand)
        ensures
            command@ == self@.command(texts(args@), Some(stdin_data@)),
    {
        self.full_command(args, Some(stdin_data.to_string()))
    }

    fn run(&self, items: &Vec<&str>) -> (command: BdCommand)
        ensures
            command@ == self@.command(str_texts(items@), None),
    {
        self.run_bd(arg_list(items))
    }

    /// Build create-command args from title and optional flags.
    pub fn build_create_args(
        title: &str,
        priority: Option<u8>,
        label: Option<&str>,
        parent: Option<&str>,
        assignee: Option<&str>,
        deps: Option<&str>,
    ) -> (args: Vec<String>)
        ensures
            texts(args@) == create_args(
                title@,
                priority,
                opt_str(label),
                opt_str(parent),
                opt_str(assignee),
                opt_str(deps),
            ),
    {
        let opening: Vec<&str> = vec!["create", title];
        assert(str_texts(opening@) =~= seq!["create"@, title@]);
        let mut args = arg_list(&opening);
        add_flag(&mut args, "--parent", parent);
        add_priority(&mut args, priority);
        add_flag(&mut args, "--label", label);
        add_flag(&mut args, "--assignee", assignee);
        add_flag(&mut args, "--deps", deps);
        args
    }

    /// Build update-command args from an issue ID and optional fields.
    pub fn build_update_args(
        id: &str,
        title: Option<&str>,
        priority: Option<u8>,
        status: Option<&str>,
        label: Option<&str>,
        assignee: Option<&str>,
    ) -> (args: Vec<String>)
        ensures
            texts(args@) == update_args(
                id@,
                opt_str(title),
                priority,
                opt_str(status),
                opt_str(label),
                opt_str(assignee),
            ),
    {
        let opening: Vec<&str> = vec!["update", id];
        assert(str_texts(opening@) =~= seq!["update"@, id@]);
        let mut args = arg_list(&opening);
        add_flag(&mut args, "--title", title);
        add_priority(&mut args, priority);
        add_flag(&mut args, "--status", status);
        add_flag(&mut args, "--label", label);
        add_flag(&mut args, "--assignee", assignee);
        args
    }

    fn run_with_body(&self, args: Vec<String>, body: &Option<String>) -> (command: BdCommand)
        ensures
            command@ == self@.command(texts(args@), opt_string(*body)),
    {
        match body {
            Some(body) => self.run_bd_with_stdin(args, body.as_str()),
            None => self.run_bd(args),
        }
    }

    fn close(&self, id: &str, reason: Option<&str>) -> (command: BdCommand)
        ensures
            command@ == self@.command(close_args(id@, opt_str(reason)), None),
    {
        let reason = or_text(reason, "deleted via issue_tracker tool");
        let items: Vec<&str> = vec!["close", id, "--reason", reason];
        assert(str_texts(items@) =~= seq!["close"@, id@, "--reason"@, reason@]);
        self.run(&items)
    }

    /// Create an epic. Epics have no parent.
    pub fn epic_create(&self, input: &EpicCreateInput) -> (command: BdCommand)
        ensures
            command@ == self@.perform(IssueCallModel::EpicCreate { input: input@ }),
    {
        let args = Self::build_create_args(
            input.title.as_str(),
            input.priority,
            borrowed(&input.label),
            None,
            None,
            None,
        );
        self.run_with_body(args, &input.body)
    }

    /// Show an epic.
    pub fn epic_get(&self, epic_id: &str) -> (command: BdCommand)
        ensures
            command@ == self@.perform(IssueCallModel::EpicGet { epic_id: epic_id@ }),
    {
        let items: Vec<&str> = vec!["show", epic_id];
        assert(str_texts(items@) =~= seq!["show"@, epic_id@]);
        self.run(&items)
    }

    /// Update an epic. A new body goes through stdin.
    pub fn epic_update(&self, epic_id: &str, input: &EpicUpdateInput) -> (command: BdCommand)
        ensures
            command@ == self@.perform(
                IssueCallModel::EpicUpdate { epic_id: epic_id@, input: input@ },
            ),
    {
        let args = Self::build_update_args(
            epic_id,
            borrowed(&input.title),
            input.priority,
            borrowed(&input.status),
            borrowed(&input.label),
            None,
        );
        self.run_with_body(args, &input.body)
    }

    /// Close an epic.
    pub fn epic_delete(&self, epic_id: &str, reason: Option<&str>) -> (command: BdCommand)
        ensures
            command@ == self@.perform(
                IssueCallModel::EpicDelete { epic_id: epic_id@, reason: opt_str(reason) },
            ),
    {
        self.close(epic_id, reason)
    }

    /// Create an issue.
    pub fn issue_create(&self, input: &IssueCreateInput) -> (command: BdCommand)
        ensures
            command@ == self@.perform(IssueCallModel::IssueCreate { input: input@ }),
    {
        let args = Self::build_create_args(
            input.title.as_str(),
            input.priority,
            borrowed(&input.label),
            borrowed(&input.parent),
            borrowed(&input.assignee),
            borrowed(&input.deps),
        );
        self.run_with_body(args, &input.body)
    }

    /// Show an issue.
    pub fn issue_get(&self, issue_id: &str) -> (command: BdCommand)
        ensures
            command@ == self@.perform(IssueCallModel::IssueGet { issue_id: issue_id@ }),
    {
        let items: Vec<&str> = vec!["show", issue_id];
        assert(str_texts(items@) =~= seq!["show"@, issue_id@]);
        self.run(&items)
    }

    /// Update an issue. A new body goes through stdin.
    pub fn issue_update(&self, issue_id: &str, input: &IssueUpdateInput) -> (command: BdCommand)
        ensures
            command@ == self@.perform(
                IssueCallModel::IssueUpdate { issue_id: issue_id@, input: input@ },
            ),
    {
        let args = Self::build_update_args(
            issue_id,
            borrowed(&input.title),
            input.priority,
            borrowed(&input.status),
            borrowed(&input.label),
            borrowed(&input.assignee),
        );
        self.run_with_body(args, &input.body)
    }

    /// Close an issue.
    pub fn issue_delete(&self, issue_id: &str, reason: Option<&str>) -> (command: BdCommand)
        ensures
            command@ == self@.perform(
                IssueCallModel::IssueDelete { issue_id: issue_id@, reason: opt_str(reason) },
            ),
    {
        self.close(issue_id, reason)
    }

    /// Show the next unblocked issue.
    pub fn issue_next(&self) -> (command: BdCommand)
        ensures
            command@ == self@.perform(IssueCallModel::IssueNext),
    {
        let items: Vec<&str> = vec!["ready"];
        assert(str_texts(items@) =~= seq!["ready"@]);
        self.run(&items)
    }

    /// Assign an issue.
    pub fn issue_assign(&self, issue_id: &str, assignee: &str) -> (command: BdCommand)
        ensures
            command@ == self@.perform(
                IssueCallModel::IssueAssign { issue_id: issue_id@, assignee: assignee@ },
            ),
    {
        let items: Vec<&str> = vec!["update", issue_id, "--assignee", assignee];
        assert(str_texts(items@) =~= seq![
            "update"@,
            issue_id@,
            "--assignee"@,
            assignee@,
        ]);
        self.run(&items)
    }

    /// List issues.
    pub fn issue_list(&self, params: &IssueListParams) -> (command: BdCommand)
        ensures
            command@ == self@.perform(IssueCallModel::IssueList { params: params@ }),
    {
        let opening: Vec<&str> = vec!["list"];
        assert(str_texts(opening@) =~= seq!["list"@]);
        let mut args = arg_list(&opening);
        add_flag(&mut args, "--status", borrowed(&params.status));
        add_priority(&mut args, params.priority);
        add_flag(&mut args, "--assignee", borrowed(&params.assignee));
        add_flag(&mut args, "--parent", borrowed(&params.parent));
        self.run_bd(args)
    }

    /// Comment on an issue or epic.
    pub fn issue_comment(&self, input: &IssueCommentInput) -> (command: BdCommand)
        ensures
            command@ == self@.comment(input@),
    {
        let items: Vec<&str> = vec!["comment", input.issue_id.as_str()];
        assert(str_texts(items@) =~= seq!["comment"@, input.issue_id@]);
        self.run_bd_with_stdin(arg_list(&items), input.body.as_str())
    }

    /// Add a dependency.
    pub fn dep_add(&self, input: &DepAddInput) -> (command: BdCommand)
        ensures
            command@ == self@.perform(IssueCallModel::DepAdd { input: input@ }),
    {
        let dep_type = or_text(borrowed(&input.dep_type), "blocks");
        let items: Vec<&str> = vec![
            "dep",
            "add",
            input.from_id.as_str(),
            input.to_id.as_str(),
            "--type",
            dep_type,
        ];
        assert(str_texts(items@) =~= seq![
            "dep"@,
            "add"@,
            input.from_id@,
            input.to_id@,
            "--type"@,
            dep_type@,
        ]);
        self.run(&items)
    }

    /// Remove a dependency.
    pub fn dep_remove(&self, from_id: &str, to_id: &str) -> (command: BdCommand)
        ensures
            command@ == self@.perform(
                IssueCallModel::DepRemove { from_id: from_id@, to_id: to_id@ },
            ),
    {
        let items: Vec<&str> = vec!["dep", "remove", from_id, to_id];
        assert(str_texts(items@) =~= seq!["dep"@, "remove"@, from_id@, to_id@]);
        self.run(&items)
    }

    /// Show a dependency tree.
    pub fn dep_tree(&self, issue_id: &str) -> (command: BdCommand)
        ensures
            command@ == self@.perform(IssueCallModel::DepTree { issue_id: issue_id@ }),
    {
        let items: Vec<&str> = vec!["dep", "tree", issue_id];
        assert(str_texts(items@) =~= seq!["dep"@, "tree"@, issue_id@]);
        self.run(&items)
    }

    /// Push changes to the remote.
    pub fn sync_push(&self) -> (command: BdCommand)
        ensures
            command@ == self@.perform(IssueCallModel::SyncPush),
    {
        let items: Vec<&str> = vec!["dolt", "push"];
        assert(str_texts(items@) =~= seq!["dolt"@, "push"@]);
        self.run(&items)
    }

    /// Pull changes from the remote.
    pub fn sync_pull(&self) -> (command: BdCommand)
        ensures
            command@ == self@.perform(IssueCallModel::SyncPull),
    {
        let items: Vec<&str> = vec!["dolt", "pull"];
        assert(str_texts(items@) =~= seq!["dolt"@, "pull"@]);
        self.run(&items)
    }

    /// Show the sync status.
    pub fn sync_status(&self) -> (command: BdCommand)
        ensures
            command@ == self@.perform(IssueCallModel::SyncStatus),
    {
        let items: Vec<&str> = vec!["dolt", "status"];
        assert(str_texts(items@) =~= seq!["dolt"@, "status"@]);
        self.run(&items)
    }

    /// The command that performs a call.
    pub fn command(&self, call: &IssueCall) -> (command: BdCommand)
        ensures
            command@ == self@.perform(call@),
    {
        match call {
            IssueCall::EpicCreate { input } => self.epic_create(input),
            IssueCall::EpicGet { epic_id } => self.epic_get(epic_id.as_str()),
            IssueCall::EpicUpdate { epic_id, input } => self.epic_update(epic_id.as_str(), input),
            IssueCall::EpicDelete { epic_id, reason } => self.epic_delete(
                epic_id.as_str(),
                borrowed(reason),
            ),
            IssueCall::IssueCreate { input } => self.issue_create(input),
            IssueCall::IssueGet { issue_id } => self.issue_get(issue_id.as_str()),
            IssueCall::IssueUpdate { issue_id, input } => self.issue_update(
                issue_id.as_str(),
                input,
            ),
            IssueCall::IssueDelete { issue_id, reason } => self.issue_delete(
                issue_id.as_str(),
                borrowed(reason),
            ),
            IssueCall::IssueNext => self.issue_next(),
            IssueCall::IssueAssign { issue_id, assignee } => self.issue_assign(
                issue_id.as_str(),
                assignee.as_str(),
            ),
            IssueCall::IssueList { params } => self.issue_list(params),
            IssueCall::DepAdd { input } => self.dep_add(input),
            IssueCall::DepRemove { from_id, to_id } => self.dep_remove(
                from_id.as_str(),
                to_id.as_str(),
            ),
            IssueCall::DepTree { issue_id } => self.dep_tree(issue_id.as_str()),
            IssueCall::SyncPush => self.sync_push(),
            IssueCall::SyncPull => self.sync_pull(),
            IssueCall::SyncStatus => self.sync_status(),
        }
    }
}

/// Every command runs the configured program, begins with the global flags and
/// asks for JSON; what is written to it never becomes an argument.
pub proof fn law_every_command_asks_for_json(
    provider: BeadsModel,
    args: Seq<Seq<char>>,
    stdin: Option<Seq<char>>,
    other: Option<Seq<char>>,
)
    ensures
        ({
            let command = provider.command(args, stdin);
            let base = provider.base_args();
            &&& command.program == provider.bd_path
            &&& command.timeout_secs == provider.timeout_secs
            &&& command.args.take(base.len() as int) == base
            &&& command.args.contains("--json"@)
            &&& command.args.subrange(base.len() as int, (base.len() + args.len()) as int) == args
            &&& (stdin is Some <==> other is Some) ==> command.args == provider.command(
                args,
                other,
            ).args
        }),
{
    let command = provider.command(args, stdin);
    let base = provider.base_args();
    assert(command.args.take(base.len() as int) =~= base);
    assert(command.args.subrange(base.len() as int, (base.len() + args.len()) as int) =~= args);
    assert(command.args[(base.len() + args.len()) as int] == "--json"@);
}

/// A text that is given for a title is one argument, as it stands, wherever it
/// is written to.
pub proof fn law_title_is_one_argument(
    title: Seq<char>,
    priority: Option<u8>,
    label: Option<Seq<char>>,
    parent: Option<Seq<char>>,
    assignee: Option<Seq<char>>,
    deps: Option<Seq<char>>,
)
    ensures
        ({
            let args = create_args(title, priority, label, parent, assignee, deps);
            &&& args.len() >= 2
            &&& args[0] == "create"@
            &&& args[1] == title
            &&& args.len() % 2 == 0
        }),
{
}

/// A body that a call gives is handed to `bd` through stdin, for an update as for
/// a new epic or issue, and nothing is where a call gives none.
pub proof fn law_bodies_are_handed_on(
    provider: BeadsModel,
    id: Seq<char>,
    new_epic: EpicCreateInputModel,
    epic: EpicUpdateInputModel,
    new_issue: IssueCreateInputModel,
    issue: IssueUpdateInputModel,
)
    ensures
        provider.perform(IssueCallModel::EpicCreate { input: new_epic }).stdin == new_epic.body,
        provider.perform(IssueCallModel::EpicUpdate { epic_id: id, input: epic }).stdin == epic.body,
        provider.perform(IssueCallModel::IssueCreate { input: new_issue }).stdin == new_issue.body,
        provider.perform(IssueCallModel::IssueUpdate { issue_id: id, input: issue }).stdin
            == issue.body,
{
}

/// A failed command is answered by an error, one that says nothing by a plain
/// success, and one that prints JSON by what it prints.
pub proof fn law_bd_answers(
    success: bool,
    status: Seq<char>,
    stdout: Seq<char>,
    stderr: Seq<char>,
    output: Result<JsonModel, Seq<char>>,
)
    ensures
        !success ==> exit_answer(success, status, stdout, stderr, output) is Err,
        success && blank(stdout) ==> exit_answer(success, status, stdout, stderr, output) == Ok::<
            _,
            Seq<char>,
        >(bd_ok()),
        success && !blank(stdout) ==> (exit_answer(success, status, stdout, stderr, output) is Ok
            <==> output is Ok),
        success && !blank(stdout) && output is Ok ==> exit_answer(
            success,
            status,
            stdout,
            stderr,
            output,
        ) == output,
{
}

} // verus!
