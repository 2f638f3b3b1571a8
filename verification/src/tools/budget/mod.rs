//! The budget tool: budgets, transactions, accounts, categories and payees, by
//! way of a provider.
pub mod laws;
pub mod types;
pub mod ynab;

use vstd::prelude::*;
use crate::http::json_result;
use crate::json::{bool_at, signed_at, str_texts, text_at, Json, JsonModel, JsonObject};
use crate::text::{cat2, opt_string, owned, same, texts};
use crate::tools::args::{require_str, required_text, text_result};
use crate::tools::budget::types::{
    CategoryInput, CategoryInputModel, TransactionInput, TransactionInputModel,
    TransactionListParams, TransactionListParamsModel, TransactionUpdateInput,
    TransactionUpdateInputModel,
};
use crate::tools::policy::{
    check_clearance, clearance, AnswersModel, Clearance, ClearanceModel, PolicyAnswers, Question,
};
use crate::tools::result::{
    error_cuttable, error_model, finish_call, is_listed, provider_result, ResultModel,
    ToolOperation, ToolResult,
};
use crate::tools::schema::{
    choice_model, choice_property, parameter_schema, schema_model, string_model, string_property,
    typed_model, typed_property,
};

verus! {

/// Tool for budget and financial-planning operations.
///
/// Supports 15 actions gated by `[budget].allowed_actions` in config:
/// - `budgets.list`: list all budgets
/// - `budgets.get`: get a specific budget
/// - `budgets.summary`: get budget month summary
/// - `transactions.list`: list transactions (filterable by account, category, payee, date)
/// - `transactions.create`: create a transaction
/// - `transactions.update`: update a transaction
/// - `transactions.import`: import transactions from linked accounts
/// - `user.get`: get authenticated user info
/// - `accounts.list`: list all accounts
/// - `accounts.get`: get a specific account
/// - `categories.list`: list all categories
/// - `categories.get`: get a specific category
/// - `categories.create`: create a category
/// - `payees.list`: list all payees
/// - `payees.get`: get a specific payee
pub struct BudgetTool {
    allowed_actions: Vec<String>,
    default_budget_id: Option<String>,
}

/// How the tool is set up.
pub struct BudgetToolModel {
    pub allowed_actions: Seq<Seq<char>>,
    pub default_budget_id: Option<Seq<char>>,
}

impl View for BudgetTool {
    type V = BudgetToolModel;

    closed spec fn view(&self) -> BudgetToolModel {
        BudgetToolModel {
            allowed_actions: texts(self.allowed_actions@),
            default_budget_id: opt_string(self.default_budget_id),
        }
    }
}

/// What a budget provider is asked to do.
#[derive(Debug)]
pub enum BudgetCall {
    BudgetsList,
    BudgetsGet { budget_id: String },
    BudgetsSummary { budget_id: String, month: Option<String> },
    TransactionsList { params: TransactionListParams },
    TransactionsCreate { budget_id: String, txn: TransactionInput },
    TransactionsUpdate { budget_id: String, transaction_id: String, txn: TransactionUpdateInput },
    TransactionsImport { budget_id: String },
    UserGet,
    AccountsList { budget_id: String },
    AccountsGet { budget_id: String, account_id: String },
    CategoriesList { budget_id: String },
    CategoriesGet { budget_id: String, category_id: String },
    CategoriesCreate { budget_id: String, category: CategoryInput },
    PayeesList { budget_id: String },
    PayeesGet { budget_id: String, payee_id: String },
}

/// What a budget provider is asked to do.
pub enum BudgetCallModel {
    BudgetsList,
    BudgetsGet { budget_id: Seq<char> },
    BudgetsSummary { budget_id: Seq<char>, month: Option<Seq<char>> },
    TransactionsList { params: TransactionListParamsModel },
    TransactionsCreate { budget_id: Seq<char>, txn: TransactionInputModel },
    TransactionsUpdate { budget_id: Seq<char>, transaction_id: Seq<char>, txn: TransactionUpdateInputModel },
    TransactionsImport { budget_id: Seq<char> },
    UserGet,
    AccountsList { budget_id: Seq<char> },
    AccountsGet { budget_id: Seq<char>, account_id: Seq<char> },
    CategoriesList { budget_id: Seq<char> },
    CategoriesGet { budget_id: Seq<char>, category_id: Seq<char> },
    CategoriesCreate { budget_id: Seq<char>, category: CategoryInputModel },
    PayeesList { budget_id: Seq<char> },
    PayeesGet { budget_id: Seq<char>, payee_id: Seq<char> },
}

impl View for BudgetCall {
    type V = BudgetCallModel;

    open spec fn view(&self) -> BudgetCallModel {
        match *self {
            BudgetCall::BudgetsList => BudgetCallModel::BudgetsList,
            BudgetCall::BudgetsGet { budget_id } => BudgetCallModel::BudgetsGet {
                budget_id: budget_id@,
            },
            BudgetCall::BudgetsSummary { budget_id, month } => BudgetCallModel::BudgetsSummary {
                budget_id: budget_id@,
                month: opt_string(month),
            },
            BudgetCall::TransactionsList { params } => BudgetCallModel::TransactionsList {
                params: params@,
            },
            BudgetCall::TransactionsCreate { budget_id, txn } => BudgetCallModel::TransactionsCreate {
                budget_id: budget_id@,
                txn: txn@,
            },
            BudgetCall::TransactionsUpdate { budget_id, transaction_id, txn } => BudgetCallModel::TransactionsUpdate {
                budget_id: budget_id@,
                transaction_id: transaction_id@,
                txn: txn@,
            },
            BudgetCall::TransactionsImport { budget_id } => BudgetCallModel::TransactionsImport {
                budget_id: budget_id@,
            },
            BudgetCall::UserGet => BudgetCallModel::UserGet,
            BudgetCall::AccountsList { budget_id } => BudgetCallModel::AccountsList {
                budget_id: budget_id@,
            },
            BudgetCall::AccountsGet { budget_id, account_id } => BudgetCallModel::AccountsGet {
                budget_id: budget_id@,
                account_id: account_id@,
            },
            BudgetCall::CategoriesList { budget_id } => BudgetCallModel::CategoriesList {
                budget_id: budget_id@,
            },
            BudgetCall::CategoriesGet { budget_id, category_id } => BudgetCallModel::CategoriesGet {
                budget_id: budget_id@,
                category_id: category_id@,
            },
            BudgetCall::CategoriesCreate { budget_id, category } => BudgetCallModel::CategoriesCreate {
                budget_id: budget_id@,
                category: category@,
            },
            BudgetCall::PayeesList { budget_id } => BudgetCallModel::PayeesList {
                budget_id: budget_id@,
            },
            BudgetCall::PayeesGet { budget_id, payee_id } => BudgetCallModel::PayeesGet {
                budget_id: budget_id@,
                payee_id: payee_id@,
            },
        }
    }
}

/// What a call that could not be made, or was made, says.
pub open spec fn call_result(call: Result<BudgetCall, String>) -> Result<
    BudgetCallModel,
    Seq<char>,
> {
    match call {
        Ok(c) => Ok(c@),
        Err(e) => Err(e@),
    }
}

/// What to do next.
#[derive(Debug)]
pub enum BudgetStep {
    /// The call is malformed.
    Failed(String),
    /// Nothing: this is what the call came to.
    Done(ToolResult),
    /// Ask the security policy.
    Ask(Question),
    /// Have the provider perform a call.
    Call(BudgetCall),
}

/// What to do next.
pub enum BudgetStepModel {
    Failed(Seq<char>),
    Done(ResultModel),
    Ask(Question),
    Call(BudgetCallModel),
}

impl View for BudgetStep {
    type V = BudgetStepModel;

    open spec fn view(&self) -> BudgetStepModel {
        match *self {
            BudgetStep::Failed(error) => BudgetStepModel::Failed(error@),
            BudgetStep::Done(result) => BudgetStepModel::Done(result@),
            BudgetStep::Ask(question) => BudgetStepModel::Ask(question),
            BudgetStep::Call(call) => BudgetStepModel::Call(call@),
        }
    }
}

/// The actions of the tool.
pub open spec fn budget_actions() -> Seq<Seq<char>> {
    seq![
        "budgets.list"@,
        "budgets.get"@,
        "budgets.summary"@,
        "transactions.list"@,
        "transactions.create"@,
        "transactions.update"@,
        "transactions.import"@,
        "user.get"@,
        "accounts.list"@,
        "accounts.get"@,
        "categories.list"@,
        "categories.get"@,
        "categories.create"@,
        "payees.list"@,
        "payees.get"@,
    ]
}

/// What kind of operation an action is.
pub open spec fn budget_operation(action: Seq<char>) -> ToolOperation {
    if action == "transactions.create"@ || action == "transactions.update"@ || action
        == "transactions.import"@ || action == "categories.create"@ {
        ToolOperation::Act
    } else {
        ToolOperation::Read
    }
}

/// What kind of operation an action is.
pub fn operation_of(action: &str) -> (operation: ToolOperation)
    ensures
        operation == budget_operation(action@),
{
    if same(action, "transactions.create") || same(action, "transactions.update") || same(
        action,
        "transactions.import",
    ) || same(action, "categories.create") {
        ToolOperation::Act
    } else {
        ToolOperation::Read
    }
}

/// The transaction that the arguments of `transactions.create` describe.
pub open spec fn transaction_input(args: JsonModel) -> Result<TransactionInputModel, Seq<char>> {
    match text_at(args, "account_id"@) {
        None => Err("missing required parameter: account_id"@),
        Some(account_id) => match text_at(args, "date"@) {
            None => Err("missing required parameter: date"@),
            Some(date) => match signed_at(args, "amount"@) {
                None => Err("missing required parameter: amount"@),
                Some(amount) => Ok(
                    TransactionInputModel {
                        account_id,
                        date,
                        amount,
                        payee_name: text_at(args, "payee_name"@),
                        payee_id: text_at(args, "payee_id"@),
                        category_id: text_at(args, "category_id"@),
                        memo: text_at(args, "memo"@),
                        cleared: text_at(args, "cleared"@),
                        approved: bool_at(args, "approved"@),
                        flag_color: text_at(args, "flag_color"@),
                    },
                ),
            },
        },
    }
}

/// Reads the transaction that the arguments of `transactions.create` describe.
pub fn parse_transaction_input(args: &Json) -> (txn: Result<TransactionInput, String>)
    ensures
        match txn {
            Ok(t) => transaction_input(args@) == Ok::<_, Seq<char>>(t@),
            Err(e) => transaction_input(args@) == Err::<TransactionInputModel, _>(e@),
        },
{
    let account_id = match args.str_at("account_id") {
        Some(account_id) => account_id.to_string(),
        None => {
            return Err("missing required parameter: account_id".to_string());
        },
    };
    let date = match args.str_at("date") {
        Some(date) => date.to_string(),
        None => {
            return Err("missing required parameter: date".to_string());
        },
    };
    let amount: i64 = match args.i64_at("amount") {
        Some(amount) => amount,
        None => {
            return Err("missing required parameter: amount".to_string());
        },
    };
    Ok(
        TransactionInput {
            account_id,
            date,
            amount,
            payee_name: owned(args.str_at("payee_name")),
            payee_id: owned(args.str_at("payee_id")),
            category_id: owned(args.str_at("category_id")),
            memo: owned(args.str_at("memo")),
            cleared: owned(args.str_at("cleared")),
            approved: args.bool_at("approved"),
            flag_color: owned(args.str_at("flag_color")),
        },
    )
}

/// The changes that the arguments of `transactions.update` describe.
pub open spec fn transaction_update(args: JsonModel) -> TransactionUpdateInputModel {
    TransactionUpdateInputModel {
        account_id: text_at(args, "account_id"@),
        date: text_at(args, "date"@),
        amount: signed_at(args, "amount"@),
        payee_name: text_at(args, "payee_name"@),
        payee_id: text_at(args, "payee_id"@),
        category_id: text_at(args, "category_id"@),
        memo: text_at(args, "memo"@),
        cleared: text_at(args, "cleared"@),
        approved: bool_at(args, "approved"@),
        flag_color: text_at(args, "flag_color"@),
    }
}

/// Reads the changes that the arguments of `transactions.update` describe.
pub fn parse_transaction_update_input(args: &Json) -> (txn: TransactionUpdateInput)
    ensures
        txn@ == transaction_update(args@),
{
    TransactionUpdateInput {
        account_id: owned(args.str_at("account_id")),
        date: owned(args.str_at("date")),
        amount: args.i64_at("amount"),
        payee_name: owned(args.str_at("payee_name")),
        payee_id: owned(args.str_at("payee_id")),
        category_id: owned(args.str_at("category_id")),
        memo: owned(args.str_at("memo")),
        cleared: owned(args.str_at("cleared")),
        approved: args.bool_at("approved"),
        flag_color: owned(args.str_at("flag_color")),
    }
}

impl BudgetToolModel {
    /// The budget that a call is about: the one that it names, or else the
    /// configured one.
    pub open spec fn budget_id(self, args: JsonModel) -> Result<Seq<char>, Seq<char>> {
        let named = text_at(args, "budget_id"@);
        if named is Some && named->0.len() > 0 {
            Ok(named->0)
        } else {
            match self.default_budget_id {
                Some(id) => Ok(id),
                None => Err("missing required parameter: budget_id (no default configured)"@),
            }
        }
    }

    /// `budgets.get`
    pub open spec fn budgets_get(self, args: JsonModel) -> Result<BudgetCallModel, Seq<char>> {
        match self.budget_id(args) {
            Err(error) => Err(error),
            Ok(budget_id) => Ok(BudgetCallModel::BudgetsGet { budget_id }),
        }
    }

    /// `budgets.summary`
    pub open spec fn budgets_summary(self, args: JsonModel) -> Result<BudgetCallModel, Seq<char>> {
        match self.budget_id(args) {
            Err(error) => Err(error),
            Ok(budget_id) => Ok(
                BudgetCallModel::BudgetsSummary { budget_id, month: text_at(args, "month"@) },
            ),
        }
    }

    /// `transactions.list`
    pub open spec fn transactions_list(self, args: JsonModel) -> Result<BudgetCallModel, Seq<char>> {
        match self.budget_id(args) {
            Err(error) => Err(error),
            Ok(budget_id) => Ok(
                BudgetCallModel::TransactionsList {
                    params: TransactionListParamsModel {
                        budget_id,
                        since_date: text_at(args, "since_date"@),
                        transaction_type: text_at(args, "transaction_type"@),
                        account_id: text_at(args, "account_id"@),
                        category_id: text_at(args, "category_id"@),
                        payee_id: text_at(args, "payee_id"@),
                        last_knowledge_of_server: signed_at(args, "last_knowledge_of_server"@),
                    },
                },
            ),
        }
    }

    /// `transactions.create`
    pub open spec fn transactions_create(self, args: JsonModel) -> Result<BudgetCallModel, Seq<char>> {
        match self.budget_id(args) {
            Err(error) => Err(error),
            Ok(budget_id) => match transaction_input(args) {
                Err(error) => Err(error),
                Ok(txn) => Ok(BudgetCallModel::TransactionsCreate { budget_id, txn }),
            },
        }
    }

    /// `transactions.update`
    pub open spec fn transactions_update(self, args: JsonModel) -> Result<BudgetCallModel, Seq<char>> {
        match self.budget_id(args) {
            Err(error) => Err(error),
            Ok(budget_id) => match required_text(args, "transaction_id"@) {
                Err(error) => Err(error),
                Ok(transaction_id) => Ok(
                    BudgetCallModel::TransactionsUpdate {
                        budget_id,
                        transaction_id,
                        txn: transaction_update(args),
                    },
                ),
            },
        }
    }

    /// `transactions.import`
    pub open spec fn transactions_import(self, args: JsonModel) -> Result<BudgetCallModel, Seq<char>> {
        match self.budget_id(args) {
            Err(error) => Err(error),
            Ok(budget_id) => Ok(BudgetCallModel::TransactionsImport { budget_id }),
        }
    }

    /// `accounts.list`
    pub open spec fn accounts_list(self, args: JsonModel) -> Result<BudgetCallModel, Seq<char>> {
        match self.budget_id(args) {
            Err(error) => Err(error),
            Ok(budget_id) => Ok(BudgetCallModel::AccountsList { budget_id }),
        }
    }

    /// `accounts.get`
    pub open spec fn accounts_get(self, args: JsonModel) -> Result<BudgetCallModel, Seq<char>> {
        match self.budget_id(args) {
            Err(error) => Err(error),
            Ok(budget_id) => match required_text(args, "account_id"@) {
                Err(error) => Err(error),
                Ok(account_id) => Ok(BudgetCallModel::AccountsGet { budget_id, account_id }),
            },
        }
    }

    /// `categories.list`
    pub open spec fn categories_list(self, args: JsonModel) -> Result<BudgetCallModel, Seq<char>> {
        match self.budget_id(args) {
            Err(error) => Err(error),
            Ok(budget_id) => Ok(BudgetCallModel::CategoriesList { budget_id }),
        }
    }

    /// `categories.get`
    pub open spec fn categories_get(self, args: JsonModel) -> Result<BudgetCallModel, Seq<char>> {
        match self.budget_id(args) {
            Err(error) => Err(error),
            Ok(budget_id) => match required_text(args, "category_id"@) {
                Err(error) => Err(error),
                Ok(category_id) => Ok(BudgetCallModel::CategoriesGet { budget_id, category_id }),
            },
        }
    }

    /// `categories.create`
    pub open spec fn categories_create(self, args: JsonModel) -> Result<BudgetCallModel, Seq<char>> {
        match self.budget_id(args) {
            Err(error) => Err(error),
            Ok(budget_id) => match required_text(args, "category_group_id"@) {
                Err(error) => Err(error),
                Ok(category_group_id) => match required_text(args, "name"@) {
                    Err(error) => Err(error),
                    Ok(name) => Ok(
                        BudgetCallModel::CategoriesCreate {
                            budget_id,
                            category: CategoryInputModel { category_group_id, name },
                        },
                    ),
                },
            },
        }
    }

    /// `payees.list`
    pub open spec fn payees_list(self, args: JsonModel) -> Result<BudgetCallModel, Seq<char>> {
        match self.budget_id(args) {
            Err(error) => Err(error),
            Ok(budget_id) => Ok(BudgetCallModel::PayeesList { budget_id }),
        }
    }

    /// `payees.get`
    pub open spec fn payees_get(self, args: JsonModel) -> Result<BudgetCallModel, Seq<char>> {
        match self.budget_id(args) {
            Err(error) => Err(error),
            Ok(budget_id) => match required_text(args, "payee_id"@) {
                Err(error) => Err(error),
                Ok(payee_id) => Ok(BudgetCallModel::PayeesGet { budget_id, payee_id }),
            },
        }
    }

    /// The call that an action makes, where there is such an action.
    pub open spec fn call(self, action: Seq<char>, args: JsonModel) -> Option<
        Result<BudgetCallModel, Seq<char>>,
    > {
        if action == "budgets.list"@ {
            Some(Ok(BudgetCallModel::BudgetsList))
        } else if action == "budgets.get"@ {
            Some(self.budgets_get(args))
        } else if action == "budgets.summary"@ {
            Some(self.budgets_summary(args))
        } else if action == "transactions.list"@ {
            Some(self.transactions_list(args))
        } else if action == "transactions.create"@ {
            Some(self.transactions_create(args))
        } else if action == "transactions.update"@ {
            Some(self.transactions_update(args))
        } else if action == "transactions.import"@ {
            Some(self.transactions_import(args))
        } else if action == "user.get"@ {
            Some(Ok(BudgetCallModel::UserGet))
        } else if action == "accounts.list"@ {
            Some(self.accounts_list(args))
        } else if action == "accounts.get"@ {
            Some(self.accounts_get(args))
        } else if action == "categories.list"@ {
            Some(self.categories_list(args))
        } else if action == "categories.get"@ {
            Some(self.categories_get(args))
        } else if action == "categories.create"@ {
            Some(self.categories_create(args))
        } else if action == "payees.list"@ {
            Some(self.payees_list(args))
        } else if action == "payees.get"@ {
            Some(self.payees_get(args))
        } else {
            None
        }
    }

    /// What a call does, given what the policy has answered so far.
    pub open spec fn step(self, args: JsonModel, answers: AnswersModel) -> BudgetStepModel {
        let action = text_at(args, "action"@);
        let operation = match action {
            Some(action) => budget_operation(action),
            None => ToolOperation::Read,
        };
        match clearance("budget"@, self.allowed_actions, action, operation, answers) {
            ClearanceModel::Failed(error) => BudgetStepModel::Failed(error),
            ClearanceModel::Refused(result) => BudgetStepModel::Done(result),
            ClearanceModel::Ask(question) => BudgetStepModel::Ask(question),
            ClearanceModel::Open => match self.call(action->0, args) {
                Some(Ok(call)) => BudgetStepModel::Call(call),
                Some(Err(error)) => BudgetStepModel::Done(error_model(error)),
                None => BudgetStepModel::Done(error_model("unknown action: "@ + action->0)),
            },
        }
    }
}

/// The parameters of the tool.
pub open spec fn budget_properties() -> Map<Seq<char>, JsonModel> {
    Map::empty().insert("action"@, choice_model(budget_actions(), "The budget action to perform."@)).insert(
        "budget_id"@,
        string_model("Budget ID (UUID, 'last-used', or 'default'). Falls back to configured default."@),
    ).insert(
        "transaction_id"@,
        string_model("Transaction ID for transactions.update."@),
    ).insert(
        "account_id"@,
        string_model("Account ID for accounts.get or transaction filtering."@),
    ).insert(
        "category_id"@,
        string_model("Category ID for categories.get or transaction filtering."@),
    ).insert(
        "category_group_id"@,
        string_model("Category group ID for categories.create."@),
    ).insert(
        "payee_id"@,
        string_model("Payee ID for payees.get or transaction filtering."@),
    ).insert(
        "payee_name"@,
        string_model("Payee name for transactions.create/update."@),
    ).insert(
        "since_date"@,
        string_model("Filter transactions since this date (YYYY-MM-DD)."@),
    ).insert(
        "transaction_type"@,
        choice_model(seq!["uncategorized"@, "unapproved"@], "Filter transaction type."@),
    ).insert(
        "date"@,
        string_model("Transaction date (YYYY-MM-DD) for create/update."@),
    ).insert(
        "amount"@,
        typed_model("integer"@, "Amount in milliunits (1/1000 currency unit). Negative = outflow."@),
    ).insert(
        "memo"@,
        string_model("Transaction memo."@),
    ).insert(
        "cleared"@,
        choice_model(seq!["cleared"@, "uncleared"@, "reconciled"@], "Transaction cleared status."@),
    ).insert(
        "approved"@,
        typed_model("boolean"@, "Whether the transaction is approved."@),
    ).insert(
        "flag_color"@,
        choice_model(seq!["red"@, "orange"@, "yellow"@, "green"@, "blue"@, "purple"@], "Transaction flag color."@),
    ).insert(
        "month"@,
        string_model("Month (YYYY-MM-DD first-of-month or 'current') for budgets.summary."@),
    ).insert(
        "name"@,
        string_model("Name for categories.create."@),
    ).insert(
        "last_knowledge_of_server"@,
        typed_model("integer"@, "Delta sync token from a previous list response."@),
    )
}

impl BudgetTool {
    /// Create a tool with the actions that it allows and the budget that calls
    /// are about by default.
    pub fn new(allowed_actions: Vec<String>, default_budget_id: Option<String>) -> (tool: Self)
        ensures
            tool@ == (BudgetToolModel {
                allowed_actions: texts(allowed_actions@),
                default_budget_id: opt_string(default_budget_id),
            }),
    {
        BudgetTool { allowed_actions, default_budget_id }
    }

    /// Whether an action may be called.
    pub fn is_action_allowed(&self, action: &str) -> (allowed: bool)
        ensures
            allowed == self@.allowed_actions.contains(action@),
    {
        is_listed(&self.allowed_actions, action)
    }

    /// Resolve `budget_id` from args, falling back to the configured default.
    pub fn resolve_budget_id(&self, args: &Json) -> (id: Result<String, String>)
        ensures
            text_result(id) == self@.budget_id(args@),
    {
        if let Some(id) = args.str_at("budget_id") {
            if !id.is_empty() {
                return Ok(id.to_string());
            }
        }
        match &self.default_budget_id {
            Some(id) => Ok(id.clone()),
            None => Err(
                "missing required parameter: budget_id (no default configured)".to_string(),
            ),
        }
    }

    /// `budgets.list`
    pub fn handle_budgets_list(&self) -> (call: Result<BudgetCall, String>)
        ensures
            call_result(call) == Ok::<_, Seq<char>>(BudgetCallModel::BudgetsList),
    {
        Ok(BudgetCall::BudgetsList)
    }

    /// `budgets.get`
    pub fn handle_budgets_get(&self, args: &Json) -> (call: Result<BudgetCall, String>)
        ensures
            call_result(call) == self@.budgets_get(args@),
    {
        let budget_id = match self.resolve_budget_id(args) {
            Ok(budget_id) => budget_id,
            Err(error) => {
                return Err(error);
            },
        };
        Ok(BudgetCall::BudgetsGet { budget_id })
    }

    /// `budgets.summary`
    pub fn handle_budgets_summary(&self, args: &Json) -> (call: Result<BudgetCall, String>)
        ensures
            call_result(call) == self@.budgets_summary(args@),
    {
        let budget_id = match self.resolve_budget_id(args) {
            Ok(budget_id) => budget_id,
            Err(error) => {
                return Err(error);
            },
        };
        let month = owned(args.str_at("month"));
        Ok(BudgetCall::BudgetsSummary { budget_id, month })
    }

    /// `transactions.list`
    pub fn handle_transactions_list(&self, args: &Json) -> (call: Result<BudgetCall, String>)
        ensures
            call_result(call) == self@.transactions_list(args@),
    {
        let budget_id = match self.resolve_budget_id(args) {
            Ok(budget_id) => budget_id,
            Err(error) => {
                return Err(error);
            },
        };
        let params = TransactionListParams {
            budget_id,
            since_date: owned(args.str_at("since_date")),
            transaction_type: owned(args.str_at("transaction_type")),
            account_id: owned(args.str_at("account_id")),
            category_id: owned(args.str_at("category_id")),
            payee_id: owned(args.str_at("payee_id")),
            last_knowledge_of_server: args.i64_at("last_knowledge_of_server"),
        };
        Ok(BudgetCall::TransactionsList { params })
    }

    /// `transactions.create`
    pub fn handle_transactions_create(&self, args: &Json) -> (call: Result<BudgetCall, String>)
        ensures
            call_result(call) == self@.transactions_create(args@),
    {
        let budget_id = match self.resolve_budget_id(args) {
            Ok(budget_id) => budget_id,
            Err(error) => {
                return Err(error);
            },
        };
        match parse_transaction_input(args) {
            Ok(txn) => Ok(BudgetCall::TransactionsCreate { budget_id, txn }),
            Err(error) => Err(error),
        }
    }

    /// `transactions.update`
    pub fn handle_transactions_update(&self, args: &Json) -> (call: Result<BudgetCall, String>)
        ensures
            call_result(call) == self@.transactions_update(args@),
    {
        let budget_id = match self.resolve_budget_id(args) {
            Ok(budget_id) => budget_id,
            Err(error) => {
                return Err(error);
            },
        };
        let transaction_id = match require_str(args, "transaction_id") {
            Ok(transaction_id) => transaction_id,
            Err(error) => {
                return Err(error);
            },
        };
        let txn = parse_transaction_update_input(args);
        Ok(BudgetCall::TransactionsUpdate { budget_id, transaction_id, txn })
    }

    /// `transactions.import`
    pub fn handle_transactions_import(&self, args: &Json) -> (call: Result<BudgetCall, String>)
        ensures
            call_result(call) == self@.transactions_import(args@),
    {
        let budget_id = match self.resolve_budget_id(args) {
            Ok(budget_id) => budget_id,
            Err(error) => {
                return Err(error);
            },
        };
        Ok(BudgetCall::TransactionsImport { budget_id })
    }

    /// `user.get`
    pub fn handle_user_get(&self) -> (call: Result<BudgetCall, String>)
        ensures
            call_result(call) == Ok::<_, Seq<char>>(BudgetCallModel::UserGet),
    {
        Ok(BudgetCall::UserGet)
    }

    /// `accounts.list`
    pub fn handle_accounts_list(&self, args: &Json) -> (call: Result<BudgetCall, String>)
        ensures
            call_result(call) == self@.accounts_list(args@),
    {
        let budget_id = match self.resolve_budget_id(args) {
            Ok(budget_id) => budget_id,
            Err(error) => {
                return Err(error);
            },
        };
        Ok(BudgetCall::AccountsList { budget_id })
    }

    /// `accounts.get`
    pub fn handle_accounts_get(&self, args: &Json) -> (call: Result<BudgetCall, String>)
        ensures
            call_result(call) == self@.accounts_get(args@),
    {
        let budget_id = match self.resolve_budget_id(args) {
            Ok(budget_id) => budget_id,
            Err(error) => {
                return Err(error);
            },
        };
        let account_id = match require_str(args, "account_id") {
            Ok(account_id) => account_id,
            Err(error) => {
                return Err(error);
            },
        };
        Ok(BudgetCall::AccountsGet { budget_id, account_id })
    }

    /// `categories.list`
    pub fn handle_categories_list(&self, args: &Json) -> (call: Result<BudgetCall, String>)
        ensures
            call_result(call) == self@.categories_list(args@),
    {
        let budget_id = match self.resolve_budget_id(args) {
            Ok(budget_id) => budget_id,
            Err(error) => {
                return Err(error);
            },
        };
        Ok(BudgetCall::CategoriesList { budget_id })
    }

    /// `categories.get`
    pub fn handle_categories_get(&self, args: &Json) -> (call: Result<BudgetCall, String>)
        ensures
            call_result(call) == self@.categories_get(args@),
    {
        let budget_id = match self.resolve_budget_id(args) {
            Ok(budget_id) => budget_id,
            Err(error) => {
                return Err(error);
            },
        };
        let category_id = match require_str(args, "category_id") {
            Ok(category_id) => category_id,
            Err(error) => {
                return Err(error);
            },
        };
        Ok(BudgetCall::CategoriesGet { budget_id, category_id })
    }

    /// `categories.create`
    pub fn handle_categories_create(&self, args: &Json) -> (call: Result<BudgetCall, String>)
        ensures
            call_result(call) == self@.categories_create(args@),
    {
        let budget_id = match self.resolve_budget_id(args) {
            Ok(budget_id) => budget_id,
            Err(error) => {
                return Err(error);
            },
        };
        let category_group_id = match require_str(args, "category_group_id") {
            Ok(category_group_id) => category_group_id,
            Err(error) => {
                return Err(error);
            },
        };
        let name = match require_str(args, "name") {
            Ok(name) => name,
            Err(error) => {
                return Err(error);
            },
        };
        let category = CategoryInput { category_group_id, name };
        Ok(BudgetCall::CategoriesCreate { budget_id, category })
    }

    /// `payees.list`
    pub fn handle_payees_list(&self, args: &Json) -> (call: Result<BudgetCall, String>)
        ensures
            call_result(call) == self@.payees_list(args@),
    {
        let budget_id = match self.resolve_budget_id(args) {
            Ok(budget_id) => budget_id,
            Err(error) => {
                return Err(error);
            },
        };
        Ok(BudgetCall::PayeesList { budget_id })
    }

    /// `payees.get`
    pub fn handle_payees_get(&self, args: &Json) -> (call: Result<BudgetCall, String>)
        ensures
            call_result(call) == self@.payees_get(args@),
    {
        let budget_id = match self.resolve_budget_id(args) {
            Ok(budget_id) => budget_id,
            Err(error) => {
                return Err(error);
            },
        };
        let payee_id = match require_str(args, "payee_id") {
            Ok(payee_id) => payee_id,
            Err(error) => {
                return Err(error);
            },
        };
        Ok(BudgetCall::PayeesGet { budget_id, payee_id })
    }

    fn handle(&self, action: &str, args: &Json) -> (call: Option<Result<BudgetCall, String>>)
        ensures
            match call {
                Some(c) => self@.call(action@, args@) == Some(call_result(c)),
                None => self@.call(action@, args@) is None,
            },
    {
        if same(action, "budgets.list") {
            Some(self.handle_budgets_list())
        } else if same(action, "budgets.get") {
            Some(self.handle_budgets_get(args))
        } else if same(action, "budgets.summary") {
            Some(self.handle_budgets_summary(args))
        } else if same(action, "transactions.list") {
            Some(self.handle_transactions_list(args))
        } else if same(action, "transactions.create") {
            Some(self.handle_transactions_create(args))
        } else if same(action, "transactions.update") {
            Some(self.handle_transactions_update(args))
        } else if same(action, "transactions.import") {
            Some(self.handle_transactions_import(args))
        } else if same(action, "user.get") {
            Some(self.handle_user_get())
        } else if same(action, "accounts.list") {
            Some(self.handle_accounts_list(args))
        } else if same(action, "accounts.get") {
            Some(self.handle_accounts_get(args))
        } else if same(action, "categories.list") {
            Some(self.handle_categories_list(args))
        } else if same(action, "categories.get") {
            Some(self.handle_categories_get(args))
        } else if same(action, "categories.create") {
            Some(self.handle_categories_create(args))
        } else if same(action, "payees.list") {
            Some(self.handle_payees_list(args))
        } else if same(action, "payees.get") {
            Some(self.handle_payees_get(args))
        } else {
            None
        }
    }

    /// The name of the tool.
    pub fn name(&self) -> (name: &str)
        ensures
            name@ == "budget"@,
    {
        "budget"
    }

    /// What the tool is for.
    pub fn description(&self) -> (description: &str)
        ensures
            description@
                == "Manage budgets, transactions, accounts, categories, and payees via a financial planning service. All monetary amounts are in milliunits (1/1000 of the currency unit, e.g. $1.50 = 1500)."@,
    {
        "Manage budgets, transactions, accounts, categories, and payees via a financial planning service. All monetary amounts are in milliunits (1/1000 of the currency unit, e.g. $1.50 = 1500)."
    }

    /// What a call does, given what the policy has answered so far: ask it the
    /// next question, end, or have the provider perform a call.
    pub fn execute(&self, args: &Json, answers: &PolicyAnswers) -> (step: BudgetStep)
        ensures
            step@ == self@.step(args@, answers@),
    {
        let action = args.str_at("action");
        let operation = match action {
            Some(action) => operation_of(action),
            None => ToolOperation::Read,
        };
        match check_clearance("budget", &self.allowed_actions, action, operation, answers) {
            Clearance::Failed(error) => BudgetStep::Failed(error),
            Clearance::Refused(result) => BudgetStep::Done(result),
            Clearance::Ask(question) => BudgetStep::Ask(question),
            Clearance::Open => match action {
                Some(action) => match self.handle(action, args) {
                    Some(Ok(call)) => BudgetStep::Call(call),
                    Some(Err(error)) => BudgetStep::Done(ToolResult::error(error)),
                    None => BudgetStep::Done(ToolResult::error(cat2("unknown action: ", action))),
                },
                None => BudgetStep::Failed("missing required parameter: action".to_string()),
            },
        }
    }

    /// What a call came to, by what the provider made of it.
    pub fn execute_finished(&self, result: Result<Json, String>) -> (finished: ToolResult)
        requires
            error_cuttable(json_result(result)),
        ensures
            finished@ == provider_result(json_result(result)),
    {
        finish_call(result)
    }

    /// The parameters of the tool, as a JSON schema.
    pub fn parameters_schema(&self) -> (schema: Json)
        ensures
            schema@ == schema_model(budget_properties()),
    {
        let actions: Vec<&str> = vec![
            "budgets.list",
            "budgets.get",
            "budgets.summary",
            "transactions.list",
            "transactions.create",
            "transactions.update",
            "transactions.import",
            "user.get",
            "accounts.list",
            "accounts.get",
            "categories.list",
            "categories.get",
            "categories.create",
            "payees.list",
            "payees.get",
        ];
        assert(str_texts(actions@) =~= budget_actions());
        let transaction_type_choices: Vec<&str> = vec!["uncategorized", "unapproved"];
        assert(str_texts(transaction_type_choices@) =~= seq!["uncategorized"@, "unapproved"@]);
        let cleared_choices: Vec<&str> = vec!["cleared", "uncleared", "reconciled"];
        assert(str_texts(cleared_choices@) =~= seq!["cleared"@, "uncleared"@, "reconciled"@]);
        let flag_color_choices: Vec<&str> = vec!["red", "orange", "yellow", "green", "blue", "purple"];
        assert(str_texts(flag_color_choices@) =~= seq!["red"@, "orange"@, "yellow"@, "green"@, "blue"@, "purple"@]);
        let mut properties = JsonObject::new();
        properties.set("action", choice_property(&actions, "The budget action to perform."));
        properties.set(
            "budget_id",
            string_property("Budget ID (UUID, 'last-used', or 'default'). Falls back to configured default."),
        );
        properties.set(
            "transaction_id",
            string_property("Transaction ID for transactions.update."),
        );
        properties.set(
            "account_id",
            string_property("Account ID for accounts.get or transaction filtering."),
        );
        properties.set(
            "category_id",
            string_property("Category ID for categories.get or transaction filtering."),
        );
        properties.set(
            "category_group_id",
            string_property("Category group ID for categories.create."),
        );
        properties.set(
            "payee_id",
            string_property("Payee ID for payees.get or transaction filtering."),
        );
        properties.set(
            "payee_name",
            string_property("Payee name for transactions.create/update."),
        );
        properties.set(
            "since_date",
            string_property("Filter transactions since this date (YYYY-MM-DD)."),
        );
        properties.set(
            "transaction_type",
            choice_property(&transaction_type_choices, "Filter transaction type."),
        );
        properties.set(
            "date",
            string_property("Transaction date (YYYY-MM-DD) for create/update."),
        );
        properties.set(
            "amount",
            typed_property("integer", "Amount in milliunits (1/1000 currency unit). Negative = outflow."),
        );
        properties.set(
            "memo",
            string_property("Transaction memo."),
        );
        properties.set(
            "cleared",
            choice_property(&cleared_choices, "Transaction cleared status."),
        );
        properties.set(
            "approved",
            typed_property("boolean", "Whether the transaction is approved."),
        );
        properties.set(
            "flag_color",
            choice_property(&flag_color_choices, "Transaction flag color."),
        );
        properties.set(
            "month",
            string_property("Month (YYYY-MM-DD first-of-month or 'current') for budgets.summary."),
        );
        properties.set(
            "name",
            string_property("Name for categories.create."),
        );
        properties.set(
            "last_knowledge_of_server",
            typed_property("integer", "Delta sync token from a previous list response."),
        );
        parameter_schema(properties)
    }
}

/// The actions that the schema lists are exactly those that the tool knows.
pub proof fn law_schema_lists_the_known_actions(
    tool: BudgetToolModel,
    action: Seq<char>,
    args: JsonModel,
)
    ensures
        budget_actions().contains(action) <==> tool.call(action, args) is Some,
        budget_actions().len() == 15,
{
    let all = budget_actions();
    assert(all[0] == "budgets.list"@);
    assert(all[1] == "budgets.get"@);
    assert(all[2] == "budgets.summary"@);
    assert(all[3] == "transactions.list"@);
    assert(all[4] == "transactions.create"@);
    assert(all[5] == "transactions.update"@);
    assert(all[6] == "transactions.import"@);
    assert(all[7] == "user.get"@);
    assert(all[8] == "accounts.list"@);
    assert(all[9] == "accounts.get"@);
    assert(all[10] == "categories.list"@);
    assert(all[11] == "categories.get"@);
    assert(all[12] == "categories.create"@);
    assert(all[13] == "payees.list"@);
    assert(all[14] == "payees.get"@);
}

/// The provider performs nothing unless the action is known and enabled, the
/// rate limit is not exceeded, the action was recorded and the policy allows
/// the operation; a call that is not performed has failed.
pub proof fn law_budget_calls_are_gated(
    tool: BudgetToolModel,
    args: JsonModel,
    answers: AnswersModel,
)
    ensures
        match tool.step(args, answers) {
            BudgetStepModel::Call(call) => {
                let action = text_at(args, "action"@);
                &&& action is Some
                &&& tool.allowed_actions.contains(action->0)
                &&& tool.call(action->0, args) == Some(Ok::<_, Seq<char>>(call))
                &&& answers.rate_limited == Some(false)
                &&& answers.recorded == Some(true)
                &&& answers.verdict == Some(None::<Seq<char>>)
            },
            BudgetStepModel::Done(result) => {
                &&& !result.success
                &&& result.output.len() == 0
                &&& result.error is Some
            },
            BudgetStepModel::Failed(_) => text_at(args, "action"@) is None,
            BudgetStepModel::Ask(_) => text_at(args, "action"@) is Some
                && tool.allowed_actions.contains(text_at(args, "action"@)->0),
        },
{
}

/// The budget that a call names wins over the configured one, and an empty name
/// counts as none.
pub proof fn law_named_budget_wins(tool: BudgetToolModel, args: JsonModel)
    ensures
        match text_at(args, "budget_id"@) {
            Some(named) => if named.len() > 0 {
                tool.budget_id(args) == Ok::<_, Seq<char>>(named)
            } else {
                tool.budget_id(args) is Ok <==> tool.default_budget_id is Some
            },
            None => tool.budget_id(args) is Ok <==> tool.default_budget_id is Some,
        },
        tool.budget_id(args) is Ok ==> tool.budget_id(args)->Ok_0 == text_at(args, "budget_id"@)->0
            || tool.default_budget_id == Some(tool.budget_id(args)->Ok_0),
{
}

/// An action that changes something is an operation that acts, and one that
/// changes nothing is one that reads.
pub proof fn law_changing_calls_act(tool: BudgetToolModel, action: Seq<char>, args: JsonModel)
    ensures
        match tool.call(action, args) {
            Some(Ok(call)) => {
                budget_operation(action) == ToolOperation::Act <==> {
                    ||| call is TransactionsCreate
                    ||| call is TransactionsUpdate
                    ||| call is TransactionsImport
                    ||| call is CategoriesCreate
                }
            },
            _ => true,
        },
{
    lemma_budget_actions_differ();
}

proof fn lemma_budget_actions_differ()
    ensures
        "transactions.create"@ != "budgets.list"@,
        "transactions.create"@ != "budgets.get"@,
        "transactions.create"@ != "budgets.summary"@,
        "transactions.create"@ != "transactions.list"@,
        "transactions.create"@ != "transactions.update"@,
        "transactions.create"@ != "transactions.import"@,
        "transactions.create"@ != "user.get"@,
        "transactions.create"@ != "accounts.list"@,
        "transactions.create"@ != "accounts.get"@,
        "transactions.create"@ != "categories.list"@,
        "transactions.create"@ != "categories.get"@,
        "transactions.create"@ != "categories.create"@,
        "transactions.create"@ != "payees.list"@,
        "transactions.create"@ != "payees.get"@,
        "transactions.update"@ != "budgets.list"@,
        "transactions.update"@ != "budgets.get"@,
        "transactions.update"@ != "budgets.summary"@,
        "transactions.update"@ != "transactions.list"@,
        "transactions.update"@ != "transactions.import"@,
        "transactions.update"@ != "user.get"@,
        "transactions.update"@ != "accounts.list"@,
        "transactions.update"@ != "accounts.get"@,
        "transactions.update"@ != "categories.list"@,
        "transactions.update"@ != "categories.get"@,
        "transactions.update"@ != "categories.create"@,
        "transactions.update"@ != "payees.list"@,
        "transactions.update"@ != "payees.get"@,
        "transactions.import"@ != "budgets.list"@,
        "transactions.import"@ != "budgets.get"@,
        "transactions.import"@ != "budgets.summary"@,
        "transactions.import"@ != "transactions.list"@,
        "transactions.import"@ != "user.get"@,
        "transactions.import"@ != "accounts.list"@,
        "transactions.import"@ != "accounts.get"@,
        "transactions.import"@ != "categories.list"@,
        "transactions.import"@ != "categories.get"@,
        "transactions.import"@ != "categories.create"@,
        "transactions.import"@ != "payees.list"@,
        "transactions.import"@ != "payees.get"@,
        "categories.create"@ != "budgets.list"@,
        "categories.create"@ != "budgets.get"@,
        "categories.create"@ != "budgets.summary"@,
        "categories.create"@ != "transactions.list"@,
        "categories.create"@ != "user.get"@,
        "categories.create"@ != "accounts.list"@,
        "categories.create"@ != "accounts.get"@,
        "categories.create"@ != "categories.list"@,
        "categories.create"@ != "categories.get"@,
        "categories.create"@ != "payees.list"@,
        "categories.create"@ != "payees.get"@,
{
    reveal_strlit("budgets.list");
    reveal_strlit("budgets.get");
    reveal_strlit("budgets.summary");
    reveal_strlit("transactions.list");
    reveal_strlit("transactions.create");
    reveal_strlit("transactions.update");
    reveal_strlit("transactions.import");
    reveal_strlit("user.get");
    reveal_strlit("accounts.list");
    reveal_strlit("accounts.get");
    reveal_strlit("categories.list");
    reveal_strlit("categories.get");
    reveal_strlit("categories.create");
    reveal_strlit("payees.list");
    reveal_strlit("payees.get");
    assert("transactions.create"@.len() != "budgets.list"@.len());
    assert("transactions.create"@.len() != "budgets.get"@.len());
    assert("transactions.create"@.len() != "budgets.summary"@.len());
    assert("transactions.create"@.len() != "transactions.list"@.len());
    assert("transactions.create"@[13] != "transactions.update"@[13]);
    assert("transactions.create"@[13] != "transactions.import"@[13]);
    assert("transactions.create"@.len() != "user.get"@.len());
    assert("transactions.create"@.len() != "accounts.list"@.len());
    assert("transactions.create"@.len() != "accounts.get"@.len());
    assert("transactions.create"@.len() != "categories.list"@.len());
    assert("transactions.create"@.len() != "categories.get"@.len());
    assert("transactions.create"@.len() != "categories.create"@.len());
    assert("transactions.create"@.len() != "payees.list"@.len());
    assert("transactions.create"@.len() != "payees.get"@.len());
    assert("transactions.update"@.len() != "budgets.list"@.len());
    assert("transactions.update"@.len() != "budgets.get"@.len());
    assert("transactions.update"@.len() != "budgets.summary"@.len());
    assert("transactions.update"@.len() != "transactions.list"@.len());
    assert("transactions.update"@[13] != "transactions.import"@[13]);
    assert("transactions.update"@.len() != "user.get"@.len());
    assert("transactions.update"@.len() != "accounts.list"@.len());
    assert("transactions.update"@.len() != "accounts.get"@.len());
    assert("transactions.update"@.len() != "categories.list"@.len());
    assert("transactions.update"@.len() != "categories.get"@.len());
    assert("transactions.update"@.len() != "categories.create"@.len());
    assert("transactions.update"@.len() != "payees.list"@.len());
    assert("transactions.update"@.len() != "payees.get"@.len());
    assert("transactions.import"@.len() != "budgets.list"@.len());
    assert("transactions.import"@.len() != "budgets.get"@.len());
    assert("transactions.import"@.len() != "budgets.summary"@.len());
    assert("transactions.import"@.len() != "transactions.list"@.len());
    assert("transactions.import"@.len() != "user.get"@.len());
    assert("transactions.import"@.len() != "accounts.list"@.len());
    assert("transactions.import"@.len() != "accounts.get"@.len());
    assert("transactions.import"@.len() != "categories.list"@.len());
    assert("transactions.import"@.len() != "categories.get"@.len());
    assert("transactions.import"@.len() != "categories.create"@.len());
    assert("transactions.import"@.len() != "payees.list"@.len());
    assert("transactions.import"@.len() != "payees.get"@.len());
    assert("categories.create"@.len() != "budgets.list"@.len());
    assert("categories.create"@.len() != "budgets.get"@.len());
    assert("categories.create"@.len() != "budgets.summary"@.len());
    assert("categories.create"@[0] != "transactions.list"@[0]);
    assert("categories.create"@.len() != "user.get"@.len());
    assert("categories.create"@.len() != "accounts.list"@.len());
    assert("categories.create"@.len() != "accounts.get"@.len());
    assert("categories.create"@.len() != "categories.list"@.len());
    assert("categories.create"@.len() != "categories.get"@.len());
    assert("categories.create"@.len() != "payees.list"@.len());
    assert("categories.create"@.len() != "payees.get"@.len());
}

} // verus!
