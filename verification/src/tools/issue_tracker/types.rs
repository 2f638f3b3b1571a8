//! What goes into issue-tracker commands.
use vstd::prelude::*;
use crate::text::opt_string;

verus! {

/// Input fields for creating an epic (top-level issue).
#[derive(Debug, Clone)]
pub struct EpicCreateInput {
    pub title: String,
    pub body: Option<String>,
    /// Priority level 1-5 (1 = highest).
    pub priority: Option<u8>,
    pub label: Option<String>,
}

/// What a [`EpicCreateInput`] says.
pub struct EpicCreateInputModel {
    pub title: Seq<char>,
    pub body: Option<Seq<char>>,
    pub priority: Option<u8>,
    pub label: Option<Seq<char>>,
}

impl View for EpicCreateInput {
    type V = EpicCreateInputModel;

    open spec fn view(&self) -> EpicCreateInputModel {
        EpicCreateInputModel {
            title: self.title@,
            body: opt_string(self.body),
            priority: self.priority,
            label: opt_string(self.label),
        }
    }
}

/// Input fields for updating an epic. All fields are optional.
#[derive(Debug, Clone)]
pub struct EpicUpdateInput {
    pub title: Option<String>,
    pub body: Option<String>,
    pub priority: Option<u8>,
    /// Status: open, in_progress, closed, blocked.
    pub status: Option<String>,
    pub label: Option<String>,
}

/// What a [`EpicUpdateInput`] says.
pub struct EpicUpdateInputModel {
    pub title: Option<Seq<char>>,
    pub body: Option<Seq<char>>,
    pub priority: Option<u8>,
    pub status: Option<Seq<char>>,
    pub label: Option<Seq<char>>,
}

impl View for EpicUpdateInput {
    type V = EpicUpdateInputModel;

    open spec fn view(&self) -> EpicUpdateInputModel {
        EpicUpdateInputModel {
            title: opt_string(self.title),
            body: opt_string(self.body),
            priority: self.priority,
            status: opt_string(self.status),
            label: opt_string(self.label),
        }
    }
}

/// Input fields for creating an issue.
#[derive(Debug, Clone)]
pub struct IssueCreateInput {
    pub title: String,
    /// Parent epic ID to nest this issue under.
    pub parent: Option<String>,
    pub body: Option<String>,
    pub priority: Option<u8>,
    pub label: Option<String>,
    pub assignee: Option<String>,
    /// Comma-separated dependency IDs.
    pub deps: Option<String>,
}

/// What a [`IssueCreateInput`] says.
pub struct IssueCreateInputModel {
    pub title: Seq<char>,
    pub parent: Option<Seq<char>>,
    pub body: Option<Seq<char>>,
    pub priority: Option<u8>,
    pub label: Option<Seq<char>>,
    pub assignee: Option<Seq<char>>,
    pub deps: Option<Seq<char>>,
}

impl View for IssueCreateInput {
    type V = IssueCreateInputModel;

    open spec fn view(&self) -> IssueCreateInputModel {
        IssueCreateInputModel {
            title: self.title@,
            parent: opt_string(self.parent),
            body: opt_string(self.body),
            priority: self.priority,
            label: opt_string(self.label),
            assignee: opt_string(self.assignee),
            deps: opt_string(self.deps),
        }
    }
}

/// Input fields for updating an issue. All fields are optional.
#[derive(Debug, Clone)]
pub struct IssueUpdateInput {
    pub title: Option<String>,
    pub body: Option<String>,
    pub priority: Option<u8>,
    pub status: Option<String>,
    pub label: Option<String>,
    pub assignee: Option<String>,
}

/// What a [`IssueUpdateInput`] says.
pub struct IssueUpdateInputModel {
    pub title: Option<Seq<char>>,
    pub body: Option<Seq<char>>,
    pub priority: Option<u8>,
    pub status: Option<Seq<char>>,
    pub label: Option<Seq<char>>,
    pub assignee: Option<Seq<char>>,
}

impl View for IssueUpdateInput {
    type V = IssueUpdateInputModel;

    open spec fn view(&self) -> IssueUpdateInputModel {
        IssueUpdateInputModel {
            title: opt_string(self.title),
            body: opt_string(self.body),
            priority: self.priority,
            status: opt_string(self.status),
            label: opt_string(self.label),
            assignee: opt_string(self.assignee),
        }
    }
}

/// Input fields for adding a comment to an issue or epic.
#[derive(Debug, Clone)]
pub struct IssueCommentInput {
    /// The issue or epic ID to comment on.
    pub issue_id: String,
    /// The comment body text.
    pub body: String,
}

/// What a [`IssueCommentInput`] says.
pub struct IssueCommentInputModel {
    pub issue_id: Seq<char>,
    pub body: Seq<char>,
}

impl View for IssueCommentInput {
    type V = IssueCommentInputModel;

    open spec fn view(&self) -> IssueCommentInputModel {
        IssueCommentInputModel {
            issue_id: self.issue_id@,
            body: self.body@,
        }
    }
}

/// Parameters for filtering issue list queries.
#[derive(Debug, Clone)]
pub struct IssueListParams {
    pub status: Option<String>,
    pub priority: Option<u8>,
    pub assignee: Option<String>,
    /// Filter by parent epic ID.
    pub parent: Option<String>,
}

/// What a [`IssueListParams`] says.
pub struct IssueListParamsModel {
    pub status: Option<Seq<char>>,
    pub priority: Option<u8>,
    pub assignee: Option<Seq<char>>,
    pub parent: Option<Seq<char>>,
}

impl View for IssueListParams {
    type V = IssueListParamsModel;

    open spec fn view(&self) -> IssueListParamsModel {
        IssueListParamsModel {
            status: opt_string(self.status),
            priority: self.priority,
            assignee: opt_string(self.assignee),
            parent: opt_string(self.parent),
        }
    }
}

impl Default for IssueListParams {
    fn default() -> (value: Self)
        ensures
            value@ == (IssueListParamsModel {
                status: None,
                priority: None,
                assignee: None,
                parent: None,
            }),
    {
        IssueListParams {
            status: None,
            priority: None,
            assignee: None,
            parent: None,
        }
    }
}

/// Input fields for adding a dependency between issues.
#[derive(Debug, Clone)]
pub struct DepAddInput {
    /// The issue that depends on another.
    pub from_id: String,
    /// The issue being depended on.
    pub to_id: String,
    /// Dependency type: blocks, relates_to, duplicates, supersedes. Default: blocks.
    pub dep_type: Option<String>,
}

/// What a [`DepAddInput`] says.
pub struct DepAddInputModel {
    pub from_id: Seq<char>,
    pub to_id: Seq<char>,
    pub dep_type: Option<Seq<char>>,
}

impl View for DepAddInput {
    type V = DepAddInputModel;

    open spec fn view(&self) -> DepAddInputModel {
        DepAddInputModel {
            from_id: self.from_id@,
            to_id: self.to_id@,
            dep_type: opt_string(self.dep_type),
        }
    }
}

} // verus!
