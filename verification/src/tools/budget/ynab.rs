//! The YNAB provider of the budget tool.
use vstd::prelude::*;
use crate::http::{
    body_request, dot_segment, json_result, law_path_segment_is_plain, lemma_longer_path,
    path_segment, plain_path, plain_request, plain_segment, reply_model, segment_at, url_encode,
    HttpReply, HttpRequest, Method, ReplyModel, RequestModel,
};
use crate::json::{bool_at, field, signed_at, text_at, with_text, Json, JsonModel, JsonObject};
use crate::json_text::{json_parsed, parse_json};
use crate::text::{
    borrowed, can_cut, can_truncate, cat2, cat3, cat4, cut, i64_text, opt_str, opt_string, same,
    signed_decimal, truncate,
};
use crate::tools::budget::types::{
    CategoryInput, CategoryInputModel, TransactionInput, TransactionInputModel,
    TransactionListParams, TransactionListParamsModel, TransactionUpdateInput,
    TransactionUpdateInputModel,
};
use crate::tools::budget::{BudgetCall, BudgetCallModel};

verus! {

/// The YNAB API.
pub const YNAB_BASE: &'static str = "https://api.ynab.com/v1";

/// How much of the body of an error is kept, in bytes.
pub const MAX_ERROR_BODY_CHARS: usize = 500;

/// YNAB (You Need A Budget) budget provider.
///
/// Translates the generic "budget" vocabulary to YNAB's "plan" endpoints.
/// All monetary amounts are in **milliunits** (1/1000 of the currency unit).
pub struct YnabProvider {
    api_token: String,
    timeout_secs: u64,
}

/// How the provider is set up.
pub struct YnabModel {
    pub api_token: Seq<char>,
    pub timeout_secs: u64,
}

impl View for YnabProvider {
    type V = YnabModel;

    closed spec fn view(&self) -> YnabModel {
        YnabModel { api_token: self.api_token@, timeout_secs: self.timeout_secs }
    }
}

/// Percent-encode a user-supplied path segment to prevent path traversal. The
/// dots of `.` and `..` are encoded twice, so that these stay plain segments.
pub fn encode_segment(s: &str) -> (encoded: String)
    ensures
        encoded@ == path_segment(s@),
        plain_segment(encoded@),
        !dot_segment(encoded@),
{
    proof {
        law_path_segment_is_plain(s@);
    }
    if same(s, ".") {
        "%252E".to_string()
    } else if same(s, "..") {
        "%252E%252E".to_string()
    } else {
        url_encode(s)
    }
}

/// The detail of an error, where a body gives one.
pub open spec fn error_detail(body: Result<JsonModel, Seq<char>>) -> Option<Seq<char>> {
    match body {
        Ok(value) => match field(value, "error"@) {
            Some(error) => text_at(error, "detail"@),
            None => None,
        },
        Err(_) => None,
    }
}

/// What a reply answers, given what its body reads as: what is in the `data`
/// envelope where there is one, or an error with its detail.
pub open spec fn ynab_answer(
    reply: Result<ReplyModel, Seq<char>>,
    body: Result<JsonModel, Seq<char>>,
) -> Result<JsonModel, Seq<char>> {
    match reply {
        Err(error) => Err(error),
        Ok(reply) => if !reply.success() {
            let detail = match error_detail(body) {
                Some(detail) => detail,
                None => cut(reply.body, MAX_ERROR_BODY_CHARS as int, "..."@),
            };
            Err("YNAB API error ("@ + reply.status + "): "@ + detail)
        } else {
            match body {
                Err(error) => Err(error),
                Ok(value) => match field(value, "data"@) {
                    Some(data) => Ok(data),
                    None => Ok(value),
                },
            }
        },
    }
}

/// Whether a reply can be reported: where it is an error without a detail, its
/// body can be cut.
pub open spec fn ynab_reportable(
    reply: Result<ReplyModel, Seq<char>>,
    body: Result<JsonModel, Seq<char>>,
) -> bool {
    match reply {
        Ok(reply) => reply.success() || error_detail(body) is Some || can_cut(
            reply.body,
            MAX_ERROR_BODY_CHARS as int,
        ),
        Err(_) => true,
    }
}

/// What the body of a reply reads as.
pub open spec fn ynab_body(reply: Result<ReplyModel, Seq<char>>) -> Result<JsonModel, Seq<char>> {
    match reply {
        Ok(reply) => json_parsed(reply.body),
        Err(error) => Err(error),
    }
}

fn detail_of(body: &Result<Json, String>) -> (detail: Option<String>)
    ensures
        opt_string(detail) == error_detail(json_result(*body)),
{
    match body {
        Ok(value) => match value.get("error") {
            Some(error) => crate::text::owned(error.str_at("detail")),
            None => None,
        },
        Err(_) => None,
    }
}

/// What a reply answers, given what its body reads as.
pub fn answer_of(reply: &Result<HttpReply, String>, body: Result<Json, String>) -> (answer: Result<
    Json,
    String,
>)
    requires
        ynab_reportable(reply_model(*reply), json_result(body)),
    ensures
        json_result(answer) == ynab_answer(reply_model(*reply), json_result(body)),
{
    let reply = match reply {
        Ok(reply) => reply,
        Err(error) => {
            return Err(error.clone());
        },
    };
    if !reply.is_success() {
        let detail = match detail_of(&body) {
            Some(detail) => detail,
            None => truncate(reply.body.as_str(), MAX_ERROR_BODY_CHARS),
        };
        return Err(cat4("YNAB API error (", reply.status.as_str(), "): ", detail.as_str()));
    }
    match body {
        Err(error) => Err(error),
        Ok(value) => match value.get("data") {
            Some(data) => Ok(data.clone()),
            None => Ok(value),
        },
    }
}

/// Parse the YNAB response: unwrap the `data` envelope on success, extract the
/// error detail on failure. There is no answer where the body of an error would
/// be cut inside a character.
pub fn parse_response(reply: Result<HttpReply, String>) -> (answer: Option<Result<Json, String>>)
    ensures
        match answer {
            Some(a) => {
                &&& ynab_reportable(reply_model(reply), ynab_body(reply_model(reply)))
                &&& json_result(a) == ynab_answer(reply_model(reply), ynab_body(reply_model(reply)))
            },
            None => !ynab_reportable(reply_model(reply), ynab_body(reply_model(reply))),
        },
{
    let body = match &reply {
        Ok(reply) => parse_json(reply.body.as_str()),
        Err(error) => Err(error.clone()),
    };
    let reportable: bool = match &reply {
        Ok(reply) => reply.is_success() || detail_of(&body).is_some() || can_truncate(
            reply.body.as_str(),
            MAX_ERROR_BODY_CHARS,
        ),
        Err(_) => true,
    };
    if reportable {
        Some(answer_of(&reply, body))
    } else {
        None
    }
}

/// The path of a budget.
pub open spec fn plan_path(budget_id: Seq<char>) -> Seq<char> {
    "/plans/"@ + path_segment(budget_id)
}

/// The path of the most specific list of transactions: that of an account, of a
/// category, of a payee, or of the budget.
pub open spec fn transactions_path(params: TransactionListParamsModel) -> Seq<char> {
    if params.account_id is Some {
        plan_path(params.budget_id) + "/accounts/"@ + path_segment(params.account_id->0)
            + "/transactions"@
    } else if params.category_id is Some {
        plan_path(params.budget_id) + "/categories/"@ + path_segment(params.category_id->0)
            + "/transactions"@
    } else if params.payee_id is Some {
        plan_path(params.budget_id) + "/payees/"@ + path_segment(params.payee_id->0)
            + "/transactions"@
    } else {
        plan_path(params.budget_id) + "/transactions"@
    }
}

/// A query with one more parameter, where there is a value for it.
pub open spec fn with_param(
    query: Seq<(Seq<char>, Seq<char>)>,
    key: Seq<char>,
    value: Option<Seq<char>>,
) -> Seq<(Seq<char>, Seq<char>)> {
    match value {
        Some(text) => query.push((key, text)),
        None => query,
    }
}

/// An optional number in decimal digits.
pub open spec fn opt_decimal(number: Option<i64>) -> Option<Seq<char>> {
    match number {
        Some(n) => Some(signed_decimal(n as int)),
        None => None,
    }
}

/// The query of a list of transactions.
pub open spec fn transactions_query(params: TransactionListParamsModel) -> Seq<
    (Seq<char>, Seq<char>),
> {
    let query = with_param(Seq::empty(), "since_date"@, params.since_date);
    let query = with_param(query, "type"@, params.transaction_type);
    with_param(
        query,
        "last_knowledge_of_server"@,
        opt_decimal(params.last_knowledge_of_server),
    )
}

/// The members with a truth value set, where there is one.
pub open spec fn with_bool(
    members: Map<Seq<char>, JsonModel>,
    key: Seq<char>,
    value: Option<bool>,
) -> Map<Seq<char>, JsonModel> {
    match value {
        Some(b) => members.insert(key, JsonModel::Bool(b)),
        None => members,
    }
}

/// The members with an amount set, where there is one.
pub open spec fn with_amount(
    members: Map<Seq<char>, JsonModel>,
    key: Seq<char>,
    value: Option<i64>,
) -> Map<Seq<char>, JsonModel> {
    match value {
        Some(n) => members.insert(key, JsonModel::Integer(n as int)),
        None => members,
    }
}

/// The members that a new transaction and a changed one have in common.
pub open spec fn transaction_members(
    members: Map<Seq<char>, JsonModel>,
    txn: TransactionUpdateInputModel,
) -> Map<Seq<char>, JsonModel> {
    let members = with_text(members, "payee_name"@, txn.payee_name);
    let members = with_text(members, "payee_id"@, txn.payee_id);
    let members = with_text(members, "category_id"@, txn.category_id);
    let members = with_text(members, "memo"@, txn.memo);
    let members = with_text(members, "cleared"@, txn.cleared);
    let members = with_bool(members, "approved"@, txn.approved);
    with_text(members, "flag_color"@, txn.flag_color)
}

/// A transaction as a change from nothing.
pub open spec fn as_update(txn: TransactionInputModel) -> TransactionUpdateInputModel {
    TransactionUpdateInputModel {
        account_id: Some(txn.account_id),
        date: Some(txn.date),
        amount: Some(txn.amount),
        payee_name: txn.payee_name,
        payee_id: txn.payee_id,
        category_id: txn.category_id,
        memo: txn.memo,
        cleared: txn.cleared,
        approved: txn.approved,
        flag_color: txn.flag_color,
    }
}

/// An object with one member that is an object.
pub open spec fn enveloped(key: Seq<char>, members: Map<Seq<char>, JsonModel>) -> JsonModel {
    JsonModel::Object(Map::empty().insert(key, JsonModel::Object(members)))
}

/// The body of a request that creates a transaction: what is given, and nothing
/// else.
pub open spec fn create_body(txn: TransactionInputModel) -> JsonModel {
    let members = Map::empty().insert("account_id"@, JsonModel::Text(txn.account_id)).insert(
        "date"@,
        JsonModel::Text(txn.date),
    ).insert("amount"@, JsonModel::Integer(txn.amount as int));
    enveloped("transaction"@, transaction_members(members, as_update(txn)))
}

/// The body of a request that changes a transaction: what is given, and nothing
/// else.
pub open spec fn update_body(txn: TransactionUpdateInputModel) -> JsonModel {
    let members = with_text(Map::empty(), "account_id"@, txn.account_id);
    let members = with_text(members, "date"@, txn.date);
    let members = with_amount(members, "amount"@, txn.amount);
    enveloped("transaction"@, transaction_members(members, txn))
}

/// The body of a request that creates a category.
pub open spec fn category_body(category: CategoryInputModel) -> JsonModel {
    enveloped(
        "category"@,
        Map::empty().insert(
            "category_group_id"@,
            JsonModel::Text(category.category_group_id),
        ).insert("name"@, JsonModel::Text(category.name)),
    )
}

impl YnabModel {
    /// A request that reads.
    pub open spec fn get(self, path: Seq<char>, query: Seq<(Seq<char>, Seq<char>)>) -> RequestModel {
        RequestModel {
            query,
            ..plain_request(
                Method::Get,
                YNAB_BASE@ + path,
                self.api_token,
                Some(self.timeout_secs),
            )
        }
    }

    /// A request that posts a body.
    pub open spec fn post(self, path: Seq<char>, body: JsonModel) -> RequestModel {
        body_request(
            Method::Post,
            YNAB_BASE@ + path,
            self.api_token,
            body,
            Some(self.timeout_secs),
        )
    }

    /// A request that puts a body.
    pub open spec fn put(self, path: Seq<char>, body: JsonModel) -> RequestModel {
        body_request(
            Method::Put,
            YNAB_BASE@ + path,
            self.api_token,
            body,
            Some(self.timeout_secs),
        )
    }

    /// The request for a list that belongs to a budget.
    pub open spec fn plan_list(self, budget_id: Seq<char>, list: Seq<char>) -> RequestModel {
        self.get(plan_path(budget_id) + list, Seq::empty())
    }

    /// The request for an item of a list that belongs to a budget.
    pub open spec fn plan_item(
        self,
        budget_id: Seq<char>,
        list: Seq<char>,
        id: Seq<char>,
    ) -> RequestModel {
        self.get(plan_path(budget_id) + list + "/"@ + path_segment(id), Seq::empty())
    }

    /// The request that performs a call.
    pub open spec fn request(self, call: BudgetCallModel) -> RequestModel {
        match call {
            BudgetCallModel::BudgetsList => self.get(
                "/plans"@,
                seq![("include_accounts"@, "true"@)],
            ),
            BudgetCallModel::BudgetsGet { budget_id } => self.get(
                plan_path(budget_id),
                Seq::empty(),
            ),
            BudgetCallModel::BudgetsSummary { budget_id, month } => match month {
                Some(month) => self.plan_item(budget_id, "/months"@, month),
                None => self.plan_list(budget_id, "/months"@),
            },
            BudgetCallModel::TransactionsList { params } => self.get(
                transactions_path(params),
                transactions_query(params),
            ),
            BudgetCallModel::TransactionsCreate { budget_id, txn } => self.post(
                plan_path(budget_id) + "/transactions"@,
                create_body(txn),
            ),
            BudgetCallModel::TransactionsUpdate { budget_id, transaction_id, txn } => self.put(
                plan_path(budget_id) + "/transactions/"@ + path_segment(transaction_id),
                update_body(txn),
            ),
            BudgetCallModel::TransactionsImport { budget_id } => self.post(
                plan_path(budget_id) + "/transactions/import"@,
                JsonModel::Object(Map::empty()),
            ),
            BudgetCallModel::UserGet => self.get("/user"@, Seq::empty()),
            BudgetCallModel::AccountsList { budget_id } => self.plan_list(budget_id, "/accounts"@),
            BudgetCallModel::AccountsGet { budget_id, account_id } => self.plan_item(
                budget_id,
                "/accounts"@,
                account_id,
            ),
            BudgetCallModel::CategoriesList { budget_id } => self.plan_list(
                budget_id,
                "/categories"@,
            ),
            BudgetCallModel::CategoriesGet { budget_id, category_id } => self.plan_item(
                budget_id,
                "/categories"@,
                category_id,
            ),
            BudgetCallModel::CategoriesCreate { budget_id, category } => self.post(
                plan_path(budget_id) + "/categories"@,
                category_body(category),
            ),
            BudgetCallModel::PayeesList { budget_id } => self.plan_list(budget_id, "/payees"@),
            BudgetCallModel::PayeesGet { budget_id, payee_id } => self.plan_item(
                budget_id,
                "/payees"@,
                payee_id,
            ),
        }
    }
}

fn set_shared_members(
    object: &mut JsonObject,
    payee_name: &Option<String>,
    payee_id: &Option<String>,
    category_id: &Option<String>,
    memo: &Option<String>,
    cleared: &Option<String>,
    approved: Option<bool>,
    flag_color: &Option<String>,
)
    ensures
        forall|txn: TransactionUpdateInputModel|
            txn.payee_name == opt_string(*payee_name) && txn.payee_id == opt_string(*payee_id)
                && txn.category_id == opt_string(*category_id) && txn.memo == opt_string(*memo)
                && txn.cleared == opt_string(*cleared) && txn.approved == approved
                && txn.flag_color == opt_string(*flag_color) ==> final(object)@
                == #[trigger] transaction_members(old(object)@, txn),
{
    object.set_some_text("payee_name", borrowed(payee_name));
    object.set_some_text("payee_id", borrowed(payee_id));
    object.set_some_text("category_id", borrowed(category_id));
    object.set_some_text("memo", borrowed(memo));
    object.set_some_text("cleared", borrowed(cleared));
    if let Some(approved) = approved {
        object.set("approved", Json::Bool(approved));
    }
    object.set_some_text("flag_color", borrowed(flag_color));
}

fn envelope(key: &str, object: JsonObject) -> (body: Json)
    ensures
        body@ == enveloped(key@, object@),
{
    let mut outer = JsonObject::new();
    outer.set(key, object.into_json());
    outer.into_json()
}

fn plan(budget_id: &str) -> (path: String)
    ensures
        path@ == plan_path(budget_id@),
{
    cat2("/plans/", encode_segment(budget_id).as_str())
}

impl YnabProvider {
    /// Create a provider with its API token and the time that a request may
    /// take.
    pub fn new(api_token: String, timeout_secs: u64) -> (provider: Self)
        ensures
            provider@ == (YnabModel { api_token: api_token@, timeout_secs }),
    {
        YnabProvider { api_token, timeout_secs }
    }

    fn get(&self, path: &str) -> (request: HttpRequest)
        ensures
            request@ == self@.get(path@, Seq::empty()),
    {
        HttpRequest::new(
            Method::Get,
            cat2(YNAB_BASE, path),
            self.api_token.as_str(),
            Some(self.timeout_secs),
        )
    }

    fn post(&self, path: &str, body: Json) -> (request: HttpRequest)
        ensures
            request@ == self@.post(path@, body@),
    {
        HttpRequest::new(
            Method::Post,
            cat2(YNAB_BASE, path),
            self.api_token.as_str(),
            Some(self.timeout_secs),
        ).with_body(body)
    }

    fn put(&self, path: &str, body: Json) -> (request: HttpRequest)
        ensures
            request@ == self@.put(path@, body@),
    {
        HttpRequest::new(
            Method::Put,
            cat2(YNAB_BASE, path),
            self.api_token.as_str(),
            Some(self.timeout_secs),
        ).with_body(body)
    }

    fn plan_list(&self, budget_id: &str, list: &str) -> (request: HttpRequest)
        ensures
            request@ == self@.plan_list(budget_id@, list@),
    {
        self.get(cat2(plan(budget_id).as_str(), list).as_str())
    }

    fn plan_item(&self, budget_id: &str, list: &str, id: &str) -> (request: HttpRequest)
        ensures
            request@ == self@.plan_item(budget_id@, list@, id@),
    {
        let segment = encode_segment(id);
        self.get(cat4(plan(budget_id).as_str(), list, "/", segment.as_str()).as_str())
    }

    /// List all budgets.
    pub fn budgets_list(&self) -> (request: HttpRequest)
        ensures
            request@ == self@.request(BudgetCallModel::BudgetsList),
    {
        let request = self.get("/plans").with_query("include_accounts", "true");
        assert(request@.query =~= seq![("include_accounts"@, "true"@)]);
        request
    }

    /// Get a budget.
    pub fn budgets_get(&self, budget_id: &str) -> (request: HttpRequest)
        ensures
            request@ == self@.request(BudgetCallModel::BudgetsGet { budget_id: budget_id@ }),
    {
        self.get(plan(budget_id).as_str())
    }

    /// Get the summary of a month of a budget, or of all months.
    pub fn budgets_summary(&self, budget_id: &str, month: Option<&str>) -> (request: HttpRequest)
        ensures
            request@ == self@.request(
                BudgetCallModel::BudgetsSummary { budget_id: budget_id@, month: opt_str(month) },
            ),
    {
        match month {
            Some(month) => self.plan_item(budget_id, "/months", month),
            None => self.plan_list(budget_id, "/months"),
        }
    }

    /// List transactions, at the most specific endpoint for the filter that is
    /// set.
    pub fn transactions_list(&self, params: &TransactionListParams) -> (request: HttpRequest)
        ensures
            request@ == self@.request(BudgetCallModel::TransactionsList { params: params@ }),
    {
        let base = plan(params.budget_id.as_str());
        let path = if let Some(account) = &params.account_id {
            let segment = encode_segment(account.as_str());
            cat4(base.as_str(), "/accounts/", segment.as_str(), "/transactions")
        } else if let Some(category) = &params.category_id {
            let segment = encode_segment(category.as_str());
            cat4(base.as_str(), "/categories/", segment.as_str(), "/transactions")
        } else if let Some(payee) = &params.payee_id {
            let segment = encode_segment(payee.as_str());
            cat4(base.as_str(), "/payees/", segment.as_str(), "/transactions")
        } else {
            cat2(base.as_str(), "/transactions")
        };
        let mut request = self.get(path.as_str());
        if let Some(since) = &params.since_date {
            request = request.with_query("since_date", since.as_str());
        }
        if let Some(kind) = &params.transaction_type {
            request = request.with_query("type", kind.as_str());
        }
        if let Some(knowledge) = params.last_knowledge_of_server {
            request = request.with_query("last_knowledge_of_server", i64_text(knowledge).as_str());
        }
        request
    }

    /// Create a transaction.
    pub fn transactions_create(&self, budget_id: &str, txn: &TransactionInput) -> (request:
        HttpRequest)
        ensures
            request@ == self@.request(
                BudgetCallModel::TransactionsCreate { budget_id: budget_id@, txn: txn@ },
            ),
    {
        let mut object = JsonObject::new();
        object.set_text("account_id", txn.account_id.as_str());
        object.set_text("date", txn.date.as_str());
        object.set("amount", Json::Signed(txn.amount));
        let ghost before = object@;
        set_shared_members(
            &mut object,
            &txn.payee_name,
            &txn.payee_id,
            &txn.category_id,
            &txn.memo,
            &txn.cleared,
            txn.approved,
            &txn.flag_color,
        );
        assert(object@ == transaction_members(before, as_update(txn@)));
        let path = cat2(plan(budget_id).as_str(), "/transactions");
        self.post(path.as_str(), envelope("transaction", object))
    }

    /// Update a transaction.
    pub fn transactions_update(
        &self,
        budget_id: &str,
        transaction_id: &str,
        txn: &TransactionUpdateInput,
    ) -> (request: HttpRequest)
        ensures
            request@ == self@.request(
                BudgetCallModel::TransactionsUpdate {
                    budget_id: budget_id@,
                    transaction_id: transaction_id@,
                    txn: txn@,
                },
            ),
    {
        let mut object = JsonObject::new();
        object.set_some_text("account_id", borrowed(&txn.account_id));
        object.set_some_text("date", borrowed(&txn.date));
        if let Some(amount) = txn.amount {
            object.set("amount", Json::Signed(amount));
        }
        let ghost before = object@;
        set_shared_members(
            &mut object,
            &txn.payee_name,
            &txn.payee_id,
            &txn.category_id,
            &txn.memo,
            &txn.cleared,
            txn.approved,
            &txn.flag_color,
        );
        assert(object@ == transaction_members(before, txn@));
        let segment = encode_segment(transaction_id);
        let path = cat3(plan(budget_id).as_str(), "/transactions/", segment.as_str());
        self.put(path.as_str(), envelope("transaction", object))
    }

    /// Import transactions from linked accounts.
    pub fn transactions_import(&self, budget_id: &str) -> (request: HttpRequest)
        ensures
            request@ == self@.request(
                BudgetCallModel::TransactionsImport { budget_id: budget_id@ },
            ),
    {
        let path = cat2(plan(budget_id).as_str(), "/transactions/import");
        self.post(path.as_str(), JsonObject::new().into_json())
    }

    /// Get the authenticated user.
    pub fn user_get(&self) -> (request: HttpRequest)
        ensures
            request@ == self@.request(BudgetCallModel::UserGet),
    {
        self.get("/user")
    }

    /// List the accounts of a budget.
    pub fn accounts_list(&self, budget_id: &str) -> (request: HttpRequest)
        ensures
            request@ == self@.request(BudgetCallModel::AccountsList { budget_id: budget_id@ }),
    {
        self.plan_list(budget_id, "/accounts")
    }

    /// Get an account.
    pub fn accounts_get(&self, budget_id: &str, account_id: &str) -> (request: HttpRequest)
        ensures
            request@ == self@.request(
                BudgetCallModel::AccountsGet { budget_id: budget_id@, account_id: account_id@ },
            ),
    {
        self.plan_item(budget_id, "/accounts", account_id)
    }

    /// List the categories of a budget.
    pub fn categories_list(&self, budget_id: &str) -> (request: HttpRequest)
        ensures
            request@ == self@.request(BudgetCallModel::CategoriesList { budget_id: budget_id@ }),
    {
        self.plan_list(budget_id, "/categories")
    }

    /// Get a category.
    pub fn categories_get(&self, budget_id: &str, category_id: &str) -> (request: HttpRequest)
        ensures
            request@ == self@.request(
                BudgetCallModel::CategoriesGet { budget_id: budget_id@, category_id: category_id@ },
            ),
    {
        self.plan_item(budget_id, "/categories", category_id)
    }

    /// Create a category.
    pub fn categories_create(&self, budget_id: &str, category: &CategoryInput) -> (request:
        HttpRequest)
        ensures
            request@ == self@.request(
                BudgetCallModel::CategoriesCreate { budget_id: budget_id@, category: category@ },
            ),
    {
        let mut object = JsonObject::new();
        object.set_text("category_group_id", category.category_group_id.as_str());
        object.set_text("name", category.name.as_str());
        let path = cat2(plan(budget_id).as_str(), "/categories");
        self.post(path.as_str(), envelope("category", object))
    }

    /// List the payees of a budget.
    pub fn payees_list(&self, budget_id: &str) -> (request: HttpRequest)
        ensures
            request@ == self@.request(BudgetCallModel::PayeesList { budget_id: budget_id@ }),
    {
        self.plan_list(budget_id, "/payees")
    }

    /// Get a payee.
    pub fn payees_get(&self, budget_id: &str, payee_id: &str) -> (request: HttpRequest)
        ensures
            request@ == self@.request(
                BudgetCallModel::PayeesGet { budget_id: budget_id@, payee_id: payee_id@ },
            ),
    {
        self.plan_item(budget_id, "/payees", payee_id)
    }

    /// The request that performs a call.
    pub fn request(&self, call: &BudgetCall) -> (request: HttpRequest)
        ensures
            request@ == self@.request(call@),
    {
        match call {
            BudgetCall::BudgetsList => self.budgets_list(),
            BudgetCall::BudgetsGet { budget_id } => self.budgets_get(budget_id.as_str()),
            BudgetCall::BudgetsSummary { budget_id, month } => self.budgets_summary(
                budget_id.as_str(),
                borrowed(month),
            ),
            BudgetCall::TransactionsList { params } => self.transactions_list(params),
            BudgetCall::TransactionsCreate { budget_id, txn } => self.transactions_create(
                budget_id.as_str(),
                txn,
            ),
            BudgetCall::TransactionsUpdate {
                budget_id,
                transaction_id,
                txn,
            } => self.transactions_update(budget_id.as_str(), transaction_id.as_str(), txn),
            BudgetCall::TransactionsImport { budget_id } => self.transactions_import(
                budget_id.as_str(),
            ),
            BudgetCall::UserGet => self.user_get(),
            BudgetCall::AccountsList { budget_id } => self.accounts_list(budget_id.as_str()),
            BudgetCall::AccountsGet { budget_id, account_id } => self.accounts_get(
                budget_id.as_str(),
                account_id.as_str(),
            ),
            BudgetCall::CategoriesList { budget_id } => self.categories_list(budget_id.as_str()),
            BudgetCall::CategoriesGet { budget_id, category_id } => self.categories_get(
                budget_id.as_str(),
                category_id.as_str(),
            ),
            BudgetCall::CategoriesCreate { budget_id, category } => self.categories_create(
                budget_id.as_str(),
                category,
            ),
            BudgetCall::PayeesList { budget_id } => self.payees_list(budget_id.as_str()),
            BudgetCall::PayeesGet { budget_id, payee_id } => self.payees_get(
                budget_id.as_str(),
                payee_id.as_str(),
            ),
        }
    }
}

/// The `data` envelope of a reply is unwrapped, and a reply without one is taken
/// as it is.
pub proof fn law_data_envelope_is_unwrapped(reply: ReplyModel, value: JsonModel)
    requires
        reply.success(),
    ensures
        field(value, "data"@) is Some ==> ynab_answer(Ok(reply), Ok(value)) == Ok::<_, Seq<char>>(
            field(value, "data"@)->0,
        ),
        field(value, "data"@) is None ==> ynab_answer(Ok(reply), Ok(value)) == Ok::<_, Seq<char>>(
            value,
        ),
{
}

/// A reply that reports an error is answered by an error, whatever its body
/// says.
pub proof fn law_error_reply_is_an_error(
    reply: ReplyModel,
    body: Result<JsonModel, Seq<char>>,
)
    requires
        !reply.success(),
    ensures
        ynab_answer(Ok(reply), body) is Err,
        error_detail(body) is Some ==> ynab_answer(Ok(reply), body) == Err::<JsonModel, _>(
            "YNAB API error ("@ + reply.status + "): "@ + error_detail(body)->0,
        ),
{
}

/// Transactions are listed by account where one is given, else by category,
/// else by payee, else all of the budget's.
pub proof fn law_most_specific_transactions(params: TransactionListParamsModel)
    ensures
        params.account_id is Some ==> transactions_path(params) == plan_path(params.budget_id)
            + "/accounts/"@ + path_segment(params.account_id->0) + "/transactions"@,
        params.account_id is None && params.category_id is Some ==> transactions_path(params)
            == plan_path(params.budget_id) + "/categories/"@ + path_segment(params.category_id->0)
            + "/transactions"@,
        params.account_id is None && params.category_id is None && params.payee_id is Some
            ==> transactions_path(params) == plan_path(params.budget_id) + "/payees/"@
            + path_segment(params.payee_id->0) + "/transactions"@,
        params.account_id is None && params.category_id is None && params.payee_id is None
            ==> transactions_path(params) == plan_path(params.budget_id) + "/transactions"@,
{
}

/// The path of a request to the API.
pub open spec fn api_path(url: Seq<char>) -> Seq<char> {
    url.skip(YNAB_BASE@.len() as int)
}

/// Whatever the ids of a call hold, its request stays under the API: its URL is
/// the API's with a path behind it, in which no segment is a step up or in place.
pub proof fn law_requests_stay_under_the_api(provider: YnabModel, call: BudgetCallModel)
    ensures
        provider.request(call).url == YNAB_BASE@ + api_path(provider.request(call).url),
        plain_path(api_path(provider.request(call).url)),
{
    assert forall|path: Seq<char>| api_path(#[trigger] (YNAB_BASE@ + path)) == path by {
        assert(api_path(YNAB_BASE@ + path) =~= path);
    }
    lemma_top_paths();
    match call {
        BudgetCallModel::BudgetsList => {},
        BudgetCallModel::BudgetsGet { budget_id } => lemma_plan_path(budget_id),
        BudgetCallModel::BudgetsSummary { budget_id, month } => match month {
            Some(month) => lemma_item_path(budget_id, "/months"@, month),
            None => lemma_list_path(budget_id, "/months"@),
        },
        BudgetCallModel::TransactionsList { params } => lemma_transactions_path(params),
        BudgetCallModel::TransactionsCreate { budget_id, .. } => lemma_list_path(
            budget_id,
            "/transactions"@,
        ),
        BudgetCallModel::TransactionsUpdate { budget_id, transaction_id, .. } => {
            lemma_slashes();
            lemma_item_path(budget_id, "/transactions"@, transaction_id);
            let plan = plan_path(budget_id);
            let id = path_segment(transaction_id);
            assert(plan + "/transactions/"@ + id =~= plan + "/transactions"@ + "/"@ + id);
        },
        BudgetCallModel::TransactionsImport { budget_id } => {
            lemma_slashes();
            lemma_list_names();
            lemma_list_path(budget_id, "/transactions"@);
            let plan = plan_path(budget_id);
            lemma_longer_path(plan + "/transactions"@, "import"@);
            assert(plan + "/transactions/import"@ =~= plan + "/transactions"@ + "/"@ + "import"@);
        },
        BudgetCallModel::UserGet => {},
        BudgetCallModel::AccountsList { budget_id } => lemma_list_path(budget_id, "/accounts"@),
        BudgetCallModel::AccountsGet { budget_id, account_id } => lemma_item_path(
            budget_id,
            "/accounts"@,
            account_id,
        ),
        BudgetCallModel::CategoriesList { budget_id } => lemma_list_path(
            budget_id,
            "/categories"@,
        ),
        BudgetCallModel::CategoriesGet { budget_id, category_id } => lemma_item_path(
            budget_id,
            "/categories"@,
            category_id,
        ),
        BudgetCallModel::CategoriesCreate { budget_id, .. } => lemma_list_path(
            budget_id,
            "/categories"@,
        ),
        BudgetCallModel::PayeesList { budget_id } => lemma_list_path(budget_id, "/payees"@),
        BudgetCallModel::PayeesGet { budget_id, payee_id } => lemma_item_path(
            budget_id,
            "/payees"@,
            payee_id,
        ),
    }
}

/// Whether a text is the path of a list below a budget.
spec fn list_path(list: Seq<char>) -> bool {
    ||| list == "/months"@
    ||| list == "/transactions"@
    ||| list == "/accounts"@
    ||| list == "/categories"@
    ||| list == "/payees"@
}

proof fn lemma_list_names()
    ensures
        plain_segment("plans"@),
        plain_segment("user"@),
        plain_segment("months"@),
        plain_segment("transactions"@),
        plain_segment("import"@),
        plain_segment("accounts"@),
        plain_segment("categories"@),
        plain_segment("payees"@),
{
    reveal_strlit(".");
    reveal_strlit("..");
    reveal_strlit("plans");
    reveal_strlit("user");
    reveal_strlit("months");
    reveal_strlit("transactions");
    reveal_strlit("import");
    reveal_strlit("accounts");
    reveal_strlit("categories");
    reveal_strlit("payees");
    assert("plans"@ =~= seq!['p', 'l', 'a', 'n', 's']);
    assert("user"@ =~= seq!['u', 's', 'e', 'r']);
    assert("months"@ =~= seq!['m', 'o', 'n', 't', 'h', 's']);
    assert("transactions"@ =~= seq!['t', 'r', 'a', 'n', 's', 'a', 'c', 't', 'i', 'o', 'n', 's']);
    assert("import"@ =~= seq!['i', 'm', 'p', 'o', 'r', 't']);
    assert("accounts"@ =~= seq!['a', 'c', 'c', 'o', 'u', 'n', 't', 's']);
    assert("categories"@ =~= seq!['c', 'a', 't', 'e', 'g', 'o', 'r', 'i', 'e', 's']);
    assert("payees"@ =~= seq!['p', 'a', 'y', 'e', 'e', 's']);
}

proof fn lemma_slashes()
    ensures
        "/plans"@ == "/"@ + "plans"@,
        "/user"@ == "/"@ + "user"@,
        "/months"@ == "/"@ + "months"@,
        "/transactions"@ == "/"@ + "transactions"@,
        "/accounts"@ == "/"@ + "accounts"@,
        "/categories"@ == "/"@ + "categories"@,
        "/payees"@ == "/"@ + "payees"@,
        "/plans/"@ == "/plans"@ + "/"@,
        "/transactions/"@ == "/transactions"@ + "/"@,
        "/accounts/"@ == "/accounts"@ + "/"@,
        "/categories/"@ == "/categories"@ + "/"@,
        "/payees/"@ == "/payees"@ + "/"@,
        "/transactions/import"@ == "/transactions"@ + "/"@ + "import"@,
{
    reveal_strlit("/");
    reveal_strlit("plans");
    reveal_strlit("user");
    reveal_strlit("months");
    reveal_strlit("transactions");
    reveal_strlit("import");
    reveal_strlit("accounts");
    reveal_strlit("categories");
    reveal_strlit("payees");
    reveal_strlit("/plans");
    reveal_strlit("/user");
    reveal_strlit("/months");
    reveal_strlit("/transactions");
    reveal_strlit("/accounts");
    reveal_strlit("/categories");
    reveal_strlit("/payees");
    reveal_strlit("/plans/");
    reveal_strlit("/transactions/");
    reveal_strlit("/accounts/");
    reveal_strlit("/categories/");
    reveal_strlit("/payees/");
    reveal_strlit("/transactions/import");
    assert("/plans"@ =~= "/"@ + "plans"@);
    assert("/user"@ =~= "/"@ + "user"@);
    assert("/months"@ =~= "/"@ + "months"@);
    assert("/transactions"@ =~= "/"@ + "transactions"@);
    assert("/accounts"@ =~= "/"@ + "accounts"@);
    assert("/categories"@ =~= "/"@ + "categories"@);
    assert("/payees"@ =~= "/"@ + "payees"@);
    assert("/plans/"@ =~= "/plans"@ + "/"@);
    assert("/transactions/"@ =~= "/transactions"@ + "/"@);
    assert("/accounts/"@ =~= "/accounts"@ + "/"@);
    assert("/categories/"@ =~= "/categories"@ + "/"@);
    assert("/payees/"@ =~= "/payees"@ + "/"@);
    assert("/transactions/import"@ =~= "/transactions"@ + "/"@ + "import"@);
}

proof fn lemma_top_paths()
    ensures
        plain_path("/plans"@),
        plain_path("/user"@),
{
    reveal_strlit(".");
    reveal_strlit("..");
    lemma_slashes();
    lemma_list_names();
    let top = Seq::<char>::empty();
    assert forall|i: int, j: int| #[trigger] segment_at(top, i, j) implies !dot_segment(
        top.subrange(i, j),
    ) by {
        assert(top.subrange(i, j).len() == 0);
    }
    assert(plain_path(top));
    lemma_longer_path(top, "plans"@);
    lemma_longer_path(top, "user"@);
    assert(top + "/"@ =~= "/"@);
}

proof fn lemma_plan_path(budget_id: Seq<char>)
    ensures
        plain_path(plan_path(budget_id)),
{
    lemma_slashes();
    lemma_top_paths();
    law_path_segment_is_plain(budget_id);
    lemma_longer_path("/plans"@, path_segment(budget_id));
}

proof fn lemma_list_path(budget_id: Seq<char>, list: Seq<char>)
    requires
        list_path(list),
    ensures
        plain_path(plan_path(budget_id) + list),
{
    lemma_slashes();
    lemma_list_names();
    lemma_plan_path(budget_id);
    let name = list.skip(1);
    let plan = plan_path(budget_id);
    reveal_strlit("/");
    assert(list =~= "/"@ + name);
    assert(list == "/months"@ ==> name =~= "months"@);
    assert(list == "/transactions"@ ==> name =~= "transactions"@);
    assert(list == "/accounts"@ ==> name =~= "accounts"@);
    assert(list == "/categories"@ ==> name =~= "categories"@);
    assert(list == "/payees"@ ==> name =~= "payees"@);
    lemma_longer_path(plan, name);
    assert(plan + list =~= plan + "/"@ + name);
}

proof fn lemma_item_path(budget_id: Seq<char>, list: Seq<char>, id: Seq<char>)
    requires
        list_path(list),
    ensures
        plain_path(plan_path(budget_id) + list + "/"@ + path_segment(id)),
{
    lemma_list_path(budget_id, list);
    law_path_segment_is_plain(id);
    lemma_longer_path(plan_path(budget_id) + list, path_segment(id));
}

/// The path of the transactions of an item below a budget.
proof fn lemma_item_transactions(
    budget_id: Seq<char>,
    list: Seq<char>,
    slashed: Seq<char>,
    id: Seq<char>,
)
    requires
        list_path(list),
        slashed == list + "/"@,
    ensures
        plain_path(plan_path(budget_id) + slashed + path_segment(id) + "/transactions"@),
{
    lemma_slashes();
    lemma_list_names();
    lemma_item_path(budget_id, list, id);
    let plan = plan_path(budget_id);
    let item = plan + list + "/"@ + path_segment(id);
    lemma_longer_path(item, "transactions"@);
    assert(plan + slashed + path_segment(id) + "/transactions"@ =~= item + "/"@ + "transactions"@);
}

proof fn lemma_transactions_path(params: TransactionListParamsModel)
    ensures
        plain_path(transactions_path(params)),
{
    let budget_id = params.budget_id;
    lemma_slashes();
    if params.account_id is Some {
        lemma_item_transactions(budget_id, "/accounts"@, "/accounts/"@, params.account_id->0);
    } else if params.category_id is Some {
        lemma_item_transactions(budget_id, "/categories"@, "/categories/"@, params.category_id->0);
    } else if params.payee_id is Some {
        lemma_item_transactions(budget_id, "/payees"@, "/payees/"@, params.payee_id->0);
    } else {
        lemma_list_path(budget_id, "/transactions"@);
    }
}

/// Whether a key is one of a transaction's.
pub open spec fn transaction_key(key: Seq<char>) -> bool {
    ||| key == "account_id"@
    ||| key == "date"@
    ||| key == "amount"@
    ||| key == "payee_name"@
    ||| key == "payee_id"@
    ||| key == "category_id"@
    ||| key == "memo"@
    ||| key == "cleared"@
    ||| key == "approved"@
    ||| key == "flag_color"@
}

/// A change of a transaction carries what is to change, and nothing else.
pub proof fn law_update_carries_only_what_is_given(txn: TransactionUpdateInputModel)
    ensures
        ({
            let sent = field(update_body(txn), "transaction"@)->0;
            &&& field(update_body(txn), "transaction"@) is Some
            &&& text_at(sent, "account_id"@) == txn.account_id
            &&& text_at(sent, "date"@) == txn.date
            &&& signed_at(sent, "amount"@) == txn.amount
            &&& text_at(sent, "payee_name"@) == txn.payee_name
            &&& text_at(sent, "payee_id"@) == txn.payee_id
            &&& text_at(sent, "category_id"@) == txn.category_id
            &&& text_at(sent, "memo"@) == txn.memo
            &&& text_at(sent, "cleared"@) == txn.cleared
            &&& bool_at(sent, "approved"@) == txn.approved
            &&& text_at(sent, "flag_color"@) == txn.flag_color
            &&& forall|key: Seq<char>| #[trigger]
                field(sent, key) is Some ==> transaction_key(key)
        }),
{
    lemma_transaction_keys_differ();
}

/// A new transaction is sent as it is given, and nothing else with it.
pub proof fn law_create_carries_what_is_given(txn: TransactionInputModel)
    ensures
        ({
            let sent = field(create_body(txn), "transaction"@)->0;
            &&& field(create_body(txn), "transaction"@) is Some
            &&& text_at(sent, "account_id"@) == Some(txn.account_id)
            &&& text_at(sent, "date"@) == Some(txn.date)
            &&& signed_at(sent, "amount"@) == Some(txn.amount)
            &&& text_at(sent, "payee_name"@) == txn.payee_name
            &&& text_at(sent, "payee_id"@) == txn.payee_id
            &&& text_at(sent, "category_id"@) == txn.category_id
            &&& text_at(sent, "memo"@) == txn.memo
            &&& text_at(sent, "cleared"@) == txn.cleared
            &&& bool_at(sent, "approved"@) == txn.approved
            &&& text_at(sent, "flag_color"@) == txn.flag_color
            &&& forall|key: Seq<char>| #[trigger]
                field(sent, key) is Some ==> transaction_key(key)
        }),
{
    lemma_transaction_keys_differ();
}

proof fn lemma_transaction_keys_differ()
    ensures
        "account_id"@ != "date"@,
        "account_id"@ != "amount"@,
        "account_id"@ != "payee_name"@,
        "account_id"@ != "payee_id"@,
        "account_id"@ != "category_id"@,
        "account_id"@ != "memo"@,
        "account_id"@ != "cleared"@,
        "account_id"@ != "approved"@,
        "account_id"@ != "flag_color"@,
        "date"@ != "amount"@,
        "date"@ != "payee_name"@,
        "date"@ != "payee_id"@,
        "date"@ != "category_id"@,
        "date"@ != "memo"@,
        "date"@ != "cleared"@,
        "date"@ != "approved"@,
        "date"@ != "flag_color"@,
        "amount"@ != "payee_name"@,
        "amount"@ != "payee_id"@,
        "amount"@ != "category_id"@,
        "amount"@ != "memo"@,
        "amount"@ != "cleared"@,
        "amount"@ != "approved"@,
        "amount"@ != "flag_color"@,
        "payee_name"@ != "payee_id"@,
        "payee_name"@ != "category_id"@,
        "payee_name"@ != "memo"@,
        "payee_name"@ != "cleared"@,
        "payee_name"@ != "approved"@,
        "payee_name"@ != "flag_color"@,
        "payee_id"@ != "category_id"@,
        "payee_id"@ != "memo"@,
        "payee_id"@ != "cleared"@,
        "payee_id"@ != "approved"@,
        "payee_id"@ != "flag_color"@,
        "category_id"@ != "memo"@,
        "category_id"@ != "cleared"@,
        "category_id"@ != "approved"@,
        "category_id"@ != "flag_color"@,
        "memo"@ != "cleared"@,
        "memo"@ != "approved"@,
        "memo"@ != "flag_color"@,
        "cleared"@ != "approved"@,
        "cleared"@ != "flag_color"@,
        "approved"@ != "flag_color"@,
{
    reveal_strlit("account_id");
    reveal_strlit("date");
    reveal_strlit("amount");
    reveal_strlit("payee_name");
    reveal_strlit("payee_id");
    reveal_strlit("category_id");
    reveal_strlit("memo");
    reveal_strlit("cleared");
    reveal_strlit("approved");
    reveal_strlit("flag_color");
    assert("account_id"@.len() != "date"@.len());
    assert("account_id"@.len() != "amount"@.len());
    assert("account_id"@[0] != "payee_name"@[0]);
    assert("account_id"@.len() != "payee_id"@.len());
    assert("account_id"@.len() != "category_id"@.len());
    assert("account_id"@.len() != "memo"@.len());
    assert("account_id"@.len() != "cleared"@.len());
    assert("account_id"@.len() != "approved"@.len());
    assert("account_id"@[0] != "flag_color"@[0]);
    assert("date"@.len() != "amount"@.len());
    assert("date"@.len() != "payee_name"@.len());
    assert("date"@.len() != "payee_id"@.len());
    assert("date"@.len() != "category_id"@.len());
    assert("date"@[0] != "memo"@[0]);
    assert("date"@.len() != "cleared"@.len());
    assert("date"@.len() != "approved"@.len());
    assert("date"@.len() != "flag_color"@.len());
    assert("amount"@.len() != "payee_name"@.len());
    assert("amount"@.len() != "payee_id"@.len());
    assert("amount"@.len() != "category_id"@.len());
    assert("amount"@.len() != "memo"@.len());
    assert("amount"@.len() != "cleared"@.len());
    assert("amount"@.len() != "approved"@.len());
    assert("amount"@.len() != "flag_color"@.len());
    assert("payee_name"@.len() != "payee_id"@.len());
    assert("payee_name"@.len() != "category_id"@.len());
    assert("payee_name"@.len() != "memo"@.len());
    assert("payee_name"@.len() != "cleared"@.len());
    assert("payee_name"@.len() != "approved"@.len());
    assert("payee_name"@[0] != "flag_color"@[0]);
    assert("payee_id"@.len() != "category_id"@.len());
    assert("payee_id"@.len() != "memo"@.len());
    assert("payee_id"@.len() != "cleared"@.len());
    assert("payee_id"@[0] != "approved"@[0]);
    assert("payee_id"@.len() != "flag_color"@.len());
    assert("category_id"@.len() != "memo"@.len());
    assert("category_id"@.len() != "cleared"@.len());
    assert("category_id"@.len() != "approved"@.len());
    assert("category_id"@.len() != "flag_color"@.len());
    assert("memo"@.len() != "cleared"@.len());
    assert("memo"@.len() != "approved"@.len());
    assert("memo"@.len() != "flag_color"@.len());
    assert("cleared"@.len() != "approved"@.len());
    assert("cleared"@.len() != "flag_color"@.len());
    assert("approved"@.len() != "flag_color"@.len());
}

} // verus!
