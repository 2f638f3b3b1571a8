//! What holds of the budget tool and its provider together: for each action, what
//! is asked of the API for the arguments that are given, and what becomes of the
//! answer.
use vstd::prelude::*;
use vstd::utf8::encode_utf8;
use crate::http::{path_segment, Method, ReplyModel, RequestModel};
use crate::json::{bool_at, field, signed_at, text_at, JsonModel};
use crate::json_text::pretty;
use crate::text::{cut, law_where_a_text_can_be_cut, signed_decimal};
use crate::tools::budget::ynab::{ynab_answer, ynab_reportable, YnabModel};
use crate::tools::budget::{budget_properties, BudgetStepModel, BudgetToolModel};
use crate::tools::policy::{AnswersModel, Question};
use crate::tools::result::{error_cuttable, provider_result, ToolOperation};
use crate::tools::schema::schema_model;

verus! {

/// A number by which the texts below are told apart.
spec fn mark(s: Seq<char>) -> int {
    let n: int = s.len() as int;
    n + 64 * (s[0] as int) + 16384 * (s[n / 2] as int) + 4194304 * (s[n - 1] as int) + 1073741824 * (
    s[n / 3] as int) + 274877906944 * (s[(2 * n) / 3] as int)
        + 70368744177664 * (s[(3 * n) / 4] as int)
}

proof fn lemma_actions_differ()
    ensures
        mark("accounts.get"@) == 7260751150258252,
        mark("accounts.list"@) == 7612594871146573,
        mark("budgets.get"@) == 7260736117872779,
        mark("budgets.list"@) == 7418513888958604,
        mark("budgets.summary"@) == 7700279869544591,
        mark("categories.create"@) == 8049369359669457,
        mark("categories.get"@) == 3268684275144910,
        mark("categories.list"@) == 7612588428515535,
        mark("payees.get"@) == 7260733970373642,
        mark("payees.list"@) == 7418513888959499,
        mark("transactions.create"@) == 8034787945864467,
        mark("transactions.import"@) == 7682944287890707,
        mark("transactions.list"@) == 3268677832695057,
        mark("transactions.update"@) == 7894050457509139,
        mark("user.get"@) == 7135664521583944,
{
    reveal_strlit("accounts.get");
    reveal_strlit("accounts.list");
    reveal_strlit("budgets.get");
    reveal_strlit("budgets.list");
    reveal_strlit("budgets.summary");
    reveal_strlit("categories.create");
    reveal_strlit("categories.get");
    reveal_strlit("categories.list");
    reveal_strlit("payees.get");
    reveal_strlit("payees.list");
    reveal_strlit("transactions.create");
    reveal_strlit("transactions.import");
    reveal_strlit("transactions.list");
    reveal_strlit("transactions.update");
    reveal_strlit("user.get");
}

proof fn lemma_members_differ()
    ensures
        mark("account_id"@) == 6717036140664906,
        mark("amount"@) == 7770918103111750,
        mark("approved"@) == 7139799435302984,
        mark("category"@) == 8052673347180744,
        mark("category_group_id"@) == 8263774122793169,
        mark("category_id"@) == 6718399792797899,
        mark("cleared"@) == 7138688112285895,
        mark("date"@) == 7139233577638148,
        mark("flag_color"@) == 7630446894045578,
        mark("memo"@) == 7841001210862404,
        mark("name"@) == 7137309432175492,
        mark("payee_id"@) == 7414961883667464,
        mark("payee_name"@) == 6856113628109834,
        mark("transaction"@) == 7420722550430987,
{
    reveal_strlit("account_id");
    reveal_strlit("amount");
    reveal_strlit("approved");
    reveal_strlit("category");
    reveal_strlit("category_group_id");
    reveal_strlit("category_id");
    reveal_strlit("cleared");
    reveal_strlit("date");
    reveal_strlit("flag_color");
    reveal_strlit("memo");
    reveal_strlit("name");
    reveal_strlit("payee_id");
    reveal_strlit("payee_name");
    reveal_strlit("transaction");
}

/// Whether a call is one of an action that is enabled, and the policy has nothing
/// against it.
pub open spec fn cleared(
    tool: BudgetToolModel,
    args: JsonModel,
    answers: AnswersModel,
    action: Seq<char>,
) -> bool {
    &&& text_at(args, "action"@) == Some(action)
    &&& tool.allowed_actions.contains(action)
    &&& answers.rate_limited == Some(false)
    &&& answers.recorded == Some(true)
    &&& answers.verdict == Some(None::<Seq<char>>)
}

/// Whether a budget is the one that a call is about: the one that it names, or
/// the configured one where it names none or an empty one.
pub open spec fn is_about(tool: BudgetToolModel, args: JsonModel, budget: Seq<char>) -> bool {
    let named = text_at(args, "budget_id"@);
    ||| named == Some(budget) && budget.len() > 0
    ||| (named is None || named->0.len() == 0) && tool.default_budget_id == Some(budget)
}

/// Whether a step ends a call with an error.
pub open spec fn fails(step: BudgetStepModel, message: Seq<char>) -> bool {
    &&& step is Done
    &&& !step->Done_0.success
    &&& step->Done_0.output.len() == 0
    &&& step->Done_0.error == Some(message)
}

/// Whether a request goes to a path of the API with the provider's token.
pub open spec fn goes_to(
    provider: YnabModel,
    request: RequestModel,
    method: Method,
    path: Seq<char>,
) -> bool {
    &&& request.method == method
    &&& request.url == "https://api.ynab.com/v1"@ + path
    &&& request.headers == seq![("Authorization"@, "Bearer "@ + provider.api_token)]
    &&& request.timeout_secs == Some(provider.timeout_secs)
}

/// Whether a step has the provider read a path, without a query.
pub open spec fn looks_up(provider: YnabModel, step: BudgetStepModel, path: Seq<char>) -> bool {
    let request = provider.request(step->Call_0);
    &&& step is Call
    &&& goes_to(provider, request, Method::Get, path)
    &&& request.query.len() == 0
    &&& request.body is None
}

/// Budgets are listed with their accounts, and the user is looked up, whatever
/// budget there is.
pub proof fn law_budgets_and_user_need_no_budget(
    tool: BudgetToolModel,
    provider: YnabModel,
    args: JsonModel,
    answers: AnswersModel,
)
    ensures
        ({
            let step = tool.step(args, answers);
            let request = provider.request(step->Call_0);
            &&& cleared(tool, args, answers, "budgets.list"@) ==> {
                &&& step is Call
                &&& goes_to(provider, request, Method::Get, "/plans"@)
                &&& request.query == seq![("include_accounts"@, "true"@)]
                &&& request.body is None
            }
            &&& cleared(tool, args, answers, "user.get"@) ==> looks_up(provider, step, "/user"@)
        }),
{
    lemma_actions_differ();
}

/// Every other action fails where no budget is named and none is configured.
pub proof fn law_no_budget_no_call(
    tool: BudgetToolModel,
    args: JsonModel,
    answers: AnswersModel,
    action: Seq<char>,
)
    requires
        cleared(tool, args, answers, action),
        text_at(args, "budget_id"@) is None || text_at(args, "budget_id"@)->0.len() == 0,
        tool.default_budget_id is None,
        action == "budgets.get"@ || action == "budgets.summary"@ || action == "transactions.list"@ || action == "transactions.create"@ || action == "transactions.update"@ || action == "transactions.import"@ || action == "accounts.list"@ || action == "accounts.get"@ || action == "categories.list"@ || action == "categories.get"@ || action == "categories.create"@ || action == "payees.list"@ || action == "payees.get"@,
    ensures
        fails(
            tool.step(args, answers),
            "missing required parameter: budget_id (no default configured)"@,
        ),
{
    lemma_actions_differ();
}

/// A budget and what belongs to it is looked up under the budget that a call is
/// about, and an item by the identifier that is given for it; where none is given
/// the call fails and names what is missing.
#[verifier::rlimit(40)]
pub proof fn law_items_are_looked_up(
    tool: BudgetToolModel,
    provider: YnabModel,
    args: JsonModel,
    answers: AnswersModel,
    budget: Seq<char>,
)
    requires
        is_about(tool, args, budget),
    ensures
        ({
            let step = tool.step(args, answers);
            let plan = "/plans/"@ + path_segment(budget);
            let month = text_at(args, "month"@);
            let account = text_at(args, "account_id"@);
            let category = text_at(args, "category_id"@);
            let payee = text_at(args, "payee_id"@);
            &&& cleared(tool, args, answers, "budgets.get"@) ==> looks_up(provider, step, plan)
            &&& cleared(tool, args, answers, "budgets.summary"@) ==> {
                &&& month is Some ==> looks_up(
                    provider,
                    step,
                    plan + "/months"@ + "/"@ + path_segment(month->0),
                )
                &&& month is None ==> looks_up(provider, step, plan + "/months"@)
            }
            &&& cleared(tool, args, answers, "accounts.list"@) ==> looks_up(
                provider,
                step,
                plan + "/accounts"@,
            )
            &&& cleared(tool, args, answers, "accounts.get"@) ==> {
                &&& account is Some ==> looks_up(
                    provider,
                    step,
                    plan + "/accounts"@ + "/"@ + path_segment(account->0),
                )
                &&& account is None ==> fails(
                    step,
                    "missing required parameter: "@ + "account_id"@,
                )
            }
            &&& cleared(tool, args, answers, "categories.list"@) ==> looks_up(
                provider,
                step,
                plan + "/categories"@,
            )
            &&& cleared(tool, args, answers, "categories.get"@) ==> {
                &&& category is Some ==> looks_up(
                    provider,
                    step,
                    plan + "/categories"@ + "/"@ + path_segment(category->0),
                )
                &&& category is None ==> fails(
                    step,
                    "missing required parameter: "@ + "category_id"@,
                )
            }
            &&& cleared(tool, args, answers, "payees.list"@) ==> looks_up(
                provider,
                step,
                plan + "/payees"@,
            )
            &&& cleared(tool, args, answers, "payees.get"@) ==> {
                &&& payee is Some ==> looks_up(
                    provider,
                    step,
                    plan + "/payees"@ + "/"@ + path_segment(payee->0),
                )
                &&& payee is None ==> fails(step, "missing required parameter: "@ + "payee_id"@)
            }
        }),
{
    lemma_actions_differ();
    reveal_strlit("");
}

/// Transactions are listed for the account that is given, or else the category, or
/// else the payee, or else the whole budget; the date, the type and the token that
/// are given go into the query, each where it is given.
pub proof fn law_transactions_are_filtered(
    tool: BudgetToolModel,
    provider: YnabModel,
    args: JsonModel,
    answers: AnswersModel,
    budget: Seq<char>,
)
    requires
        is_about(tool, args, budget),
        cleared(tool, args, answers, "transactions.list"@),
    ensures
        ({
            let step = tool.step(args, answers);
            let request = provider.request(step->Call_0);
            let plan = "/plans/"@ + path_segment(budget);
            let account = text_at(args, "account_id"@);
            let category = text_at(args, "category_id"@);
            let payee = text_at(args, "payee_id"@);
            let since = match text_at(args, "since_date"@) {
                Some(date) => seq![("since_date"@, date)],
                None => Seq::empty(),
            };
            let kind = match text_at(args, "transaction_type"@) {
                Some(kind) => seq![("type"@, kind)],
                None => Seq::empty(),
            };
            let token = match signed_at(args, "last_knowledge_of_server"@) {
                Some(n) => seq![("last_knowledge_of_server"@, signed_decimal(n as int))],
                None => Seq::empty(),
            };
            &&& step is Call
            &&& request.body is None
            &&& request.query == since + kind + token
            &&& account is Some ==> goes_to(
                provider,
                request,
                Method::Get,
                plan + "/accounts/"@ + path_segment(account->0) + "/transactions"@,
            )
            &&& account is None && category is Some ==> goes_to(
                provider,
                request,
                Method::Get,
                plan + "/categories/"@ + path_segment(category->0) + "/transactions"@,
            )
            &&& account is None && category is None && payee is Some ==> goes_to(
                provider,
                request,
                Method::Get,
                plan + "/payees/"@ + path_segment(payee->0) + "/transactions"@,
            )
            &&& account is None && category is None && payee is None ==> goes_to(
                provider,
                request,
                Method::Get,
                plan + "/transactions"@,
            )
        }),
{
    lemma_actions_differ();
    let step = tool.step(args, answers);
    let request = provider.request(step->Call_0);
    let since = match text_at(args, "since_date"@) {
        Some(date) => seq![("since_date"@, date)],
        None => Seq::empty(),
    };
    let kind = match text_at(args, "transaction_type"@) {
        Some(kind) => seq![("type"@, kind)],
        None => Seq::empty(),
    };
    let token = match signed_at(args, "last_knowledge_of_server"@) {
        Some(n) => seq![("last_knowledge_of_server"@, signed_decimal(n as int))],
        None => Seq::empty(),
    };
    assert(request.query =~= since + kind + token);
}

/// A new transaction is sent to the budget that the call is about with each of its
/// members as the arguments give it, and no other; it needs an account, a date and
/// an amount, and the first of them that is missing is named.
#[verifier::rlimit(40)]
pub proof fn law_new_transaction_is_as_given(
    tool: BudgetToolModel,
    provider: YnabModel,
    args: JsonModel,
    answers: AnswersModel,
    budget: Seq<char>,
)
    requires
        is_about(tool, args, budget),
        cleared(tool, args, answers, "transactions.create"@),
    ensures
        ({
            let step = tool.step(args, answers);
            let request = provider.request(step->Call_0);
            let sent = field(request.body->0, "transaction"@)->0;
            let account = text_at(args, "account_id"@);
            let date = text_at(args, "date"@);
            let amount = signed_at(args, "amount"@);
            &&& account is None ==> fails(step, "missing required parameter: account_id"@)
            &&& account is Some && date is None ==> fails(step, "missing required parameter: date"@)
            &&& account is Some && date is Some && amount is None ==> fails(
                step,
                "missing required parameter: amount"@,
            )
            &&& account is Some && date is Some && amount is Some ==> {
                &&& step is Call
                &&& goes_to(
                    provider,
                    request,
                    Method::Post,
                    "/plans/"@ + path_segment(budget) + "/transactions"@,
                )
                &&& request.query.len() == 0
                &&& request.body is Some
                &&& field(request.body->0, "transaction"@) is Some
                &&& forall|key: Seq<char>| #[trigger]
                    field(request.body->0, key) is Some ==> key == "transaction"@
                &&& text_at(sent, "account_id"@) == text_at(args, "account_id"@)
                &&& text_at(sent, "date"@) == text_at(args, "date"@)
                &&& signed_at(sent, "amount"@) == signed_at(args, "amount"@)
                &&& text_at(sent, "payee_name"@) == text_at(args, "payee_name"@)
                &&& text_at(sent, "payee_id"@) == text_at(args, "payee_id"@)
                &&& text_at(sent, "category_id"@) == text_at(args, "category_id"@)
                &&& text_at(sent, "memo"@) == text_at(args, "memo"@)
                &&& text_at(sent, "cleared"@) == text_at(args, "cleared"@)
                &&& bool_at(sent, "approved"@) == bool_at(args, "approved"@)
                &&& text_at(sent, "flag_color"@) == text_at(args, "flag_color"@)
                &&& forall|key: Seq<char>| #[trigger]
                    field(sent, key) is Some ==> key == "account_id"@ || key == "date"@ || key == "amount"@ || key == "payee_name"@ || key == "payee_id"@ || key == "category_id"@ || key == "memo"@ || key == "cleared"@ || key == "approved"@ || key == "flag_color"@
            }
        }),
{
    lemma_actions_differ();
    lemma_members_differ();
}

/// A changed transaction is the one that is given, and each of its members is sent
/// as the arguments give it, and no other.
#[verifier::rlimit(40)]
pub proof fn law_changed_transaction_is_as_given(
    tool: BudgetToolModel,
    provider: YnabModel,
    args: JsonModel,
    answers: AnswersModel,
    budget: Seq<char>,
)
    requires
        is_about(tool, args, budget),
        cleared(tool, args, answers, "transactions.update"@),
    ensures
        ({
            let step = tool.step(args, answers);
            let request = provider.request(step->Call_0);
            let sent = field(request.body->0, "transaction"@)->0;
            let id = text_at(args, "transaction_id"@);
            &&& id is None ==> fails(step, "missing required parameter: "@ + "transaction_id"@)
            &&& id is Some ==> {
                &&& step is Call
                &&& goes_to(
                    provider,
                    request,
                    Method::Put,
                    "/plans/"@ + path_segment(budget) + "/transactions/"@ + path_segment(id->0),
                )
                &&& request.query.len() == 0
                &&& request.body is Some
                &&& field(request.body->0, "transaction"@) is Some
                &&& forall|key: Seq<char>| #[trigger]
                    field(request.body->0, key) is Some ==> key == "transaction"@
                &&& text_at(sent, "account_id"@) == text_at(args, "account_id"@)
                &&& text_at(sent, "date"@) == text_at(args, "date"@)
                &&& signed_at(sent, "amount"@) == signed_at(args, "amount"@)
                &&& text_at(sent, "payee_name"@) == text_at(args, "payee_name"@)
                &&& text_at(sent, "payee_id"@) == text_at(args, "payee_id"@)
                &&& text_at(sent, "category_id"@) == text_at(args, "category_id"@)
                &&& text_at(sent, "memo"@) == text_at(args, "memo"@)
                &&& text_at(sent, "cleared"@) == text_at(args, "cleared"@)
                &&& bool_at(sent, "approved"@) == bool_at(args, "approved"@)
                &&& text_at(sent, "flag_color"@) == text_at(args, "flag_color"@)
                &&& forall|key: Seq<char>| #[trigger]
                    field(sent, key) is Some ==> key == "account_id"@ || key == "date"@ || key == "amount"@ || key == "payee_name"@ || key == "payee_id"@ || key == "category_id"@ || key == "memo"@ || key == "cleared"@ || key == "approved"@ || key == "flag_color"@
            }
        }),
{
    lemma_actions_differ();
    lemma_members_differ();
}

/// Transactions are imported into the budget that the call is about.
pub proof fn law_import_is_for_the_budget(
    tool: BudgetToolModel,
    provider: YnabModel,
    args: JsonModel,
    answers: AnswersModel,
    budget: Seq<char>,
)
    requires
        is_about(tool, args, budget),
        cleared(tool, args, answers, "transactions.import"@),
    ensures
        ({
            let step = tool.step(args, answers);
            let request = provider.request(step->Call_0);
            &&& step is Call
            &&& goes_to(
                provider,
                request,
                Method::Post,
                "/plans/"@ + path_segment(budget) + "/transactions/import"@,
            )
            &&& request.query.len() == 0
            &&& request.body == Some(JsonModel::Object(Map::empty()))
        }),
{
    lemma_actions_differ();
}

/// A new category has the group and the name that are given, and nothing else.
pub proof fn law_new_category_is_as_given(
    tool: BudgetToolModel,
    provider: YnabModel,
    args: JsonModel,
    answers: AnswersModel,
    budget: Seq<char>,
)
    requires
        is_about(tool, args, budget),
        cleared(tool, args, answers, "categories.create"@),
    ensures
        ({
            let step = tool.step(args, answers);
            let request = provider.request(step->Call_0);
            let sent = field(request.body->0, "category"@)->0;
            let group = text_at(args, "category_group_id"@);
            let name = text_at(args, "name"@);
            &&& group is None ==> fails(
                step,
                "missing required parameter: "@ + "category_group_id"@,
            )
            &&& group is Some && name is None ==> fails(
                step,
                "missing required parameter: "@ + "name"@,
            )
            &&& group is Some && name is Some ==> {
                &&& step is Call
                &&& goes_to(
                    provider,
                    request,
                    Method::Post,
                    "/plans/"@ + path_segment(budget) + "/categories"@,
                )
                &&& request.query.len() == 0
                &&& request.body is Some
                &&& field(request.body->0, "category"@) is Some
                &&& forall|key: Seq<char>| #[trigger]
                    field(request.body->0, key) is Some ==> key == "category"@
                &&& text_at(sent, "category_group_id"@) == group
                &&& text_at(sent, "name"@) == name
                &&& forall|key: Seq<char>| #[trigger]
                    field(sent, key) is Some ==> key == "category_group_id"@ || key == "name"@
            }
        }),
{
    lemma_actions_differ();
    lemma_members_differ();
}

/// A call without an action is malformed, and one of an action that is not enabled
/// fails without a question. Otherwise the policy is asked first about the rate
/// limit, and then to record the action; where it says no to either, the call
/// fails and says so.
pub proof fn law_policy_is_asked_in_turn(
    tool: BudgetToolModel,
    args: JsonModel,
    answers: AnswersModel,
)
    ensures
        ({
            let step = tool.step(args, answers);
            let action = text_at(args, "action"@);
            let open = action is Some && tool.allowed_actions.contains(action->0);
            &&& action is None ==> step == BudgetStepModel::Failed("missing required parameter: action"@)
            &&& action is Some && !open ==> fails(
                step,
                "action '"@ + action->0 + "' is not in the allowed_actions list. Update ["@
                    + "budget"@ + "].allowed_actions in config to enable it."@,
            )
            &&& open && answers.rate_limited is None ==> step == BudgetStepModel::Ask(Question::RateLimited)
            &&& open && answers.rate_limited == Some(true) ==> fails(
                step,
                "Rate limit exceeded for "@ + "budget"@ + " tool."@,
            )
            &&& open && answers.rate_limited == Some(false) && answers.recorded is None ==> step
                == BudgetStepModel::Ask(Question::Record)
            &&& open && answers.rate_limited == Some(false) && answers.recorded == Some(false)
                ==> fails(step, "Action budget exhausted."@)
        }),
{
}

/// Four actions act and the others read, and that is what the policy is asked
/// about; an action that is not known fails.
pub proof fn law_policy_is_asked_what_the_action_is(
    tool: BudgetToolModel,
    args: JsonModel,
    answers: AnswersModel,
    action: Seq<char>,
)
    requires
        text_at(args, "action"@) == Some(action),
        tool.allowed_actions.contains(action),
        answers.rate_limited == Some(false),
        answers.recorded == Some(true),
    ensures
        ({
            let step = tool.step(args, answers);
            let acting = action == "transactions.create"@ || action == "transactions.update"@ || action == "transactions.import"@ || action == "categories.create"@;
            &&& answers.verdict is None && acting ==> step == BudgetStepModel::Ask(
                Question::Enforce(ToolOperation::Act),
            )
            &&& answers.verdict is None && !acting ==> step == BudgetStepModel::Ask(
                Question::Enforce(ToolOperation::Read),
            )
            &&& answers.verdict is Some && answers.verdict->0 is Some ==> fails(
                step,
                answers.verdict->0->0,
            )
            &&& answers.verdict == Some(None::<Seq<char>>) && !(action == "budgets.list"@ || action == "budgets.get"@ || action == "budgets.summary"@ || action == "transactions.list"@ || action == "transactions.create"@ || action == "transactions.update"@ || action == "transactions.import"@ || action == "user.get"@ || action == "accounts.list"@ || action == "accounts.get"@ || action == "categories.list"@ || action == "categories.get"@ || action == "categories.create"@ || action == "payees.list"@ || action == "payees.get"@) ==> fails(
                step,
                "unknown action: "@ + action,
            )
        }),
{
    lemma_actions_differ();
}

/// A reply with a success code answers what is in its `data` envelope, or the
/// whole body where there is none; any other is an error with its status and the
/// detail that its body gives, or else the beginning of the body. Without a reply
/// its error is answered.
pub proof fn law_reply_is_answered(
    reply: ReplyModel,
    body: Result<JsonModel, Seq<char>>,
    error: Seq<char>,
)
    ensures
        ({
            let answer = ynab_answer(Ok(reply), body);
            let told = body is Ok && field(body->Ok_0, "error"@) is Some && text_at(
                field(body->Ok_0, "error"@)->0,
                "detail"@,
            ) is Some;
            let detail = text_at(field(body->Ok_0, "error"@)->0, "detail"@)->0;
            let opening = "YNAB API error ("@ + reply.status + "): "@;
            &&& reply.code / 100 != 2 && told ==> answer == Err::<JsonModel, _>(opening + detail)
            &&& reply.code / 100 != 2 && !told ==> answer == Err::<JsonModel, _>(
                opening + cut(reply.body, 500, "..."@),
            )
            &&& reply.code / 100 == 2 && body is Err ==> answer == body
            &&& reply.code / 100 == 2 && body is Ok ==> answer is Ok && {
                &&& field(body->Ok_0, "data"@) is Some ==> Some(answer->Ok_0) == field(
                    body->Ok_0,
                    "data"@,
                )
                &&& field(body->Ok_0, "data"@) is None ==> answer == body
            }
            &&& ynab_answer(Err(error), body) == Err::<JsonModel, _>(error)
        }),
{
}

/// Every reply can be reported but an error without a detail whose body would be
/// cut, after 500 bytes, inside a character; and every answer of the provider can,
/// but an error that would be.
pub proof fn law_when_replies_can_be_reported(
    reply: ReplyModel,
    body: Result<JsonModel, Seq<char>>,
    value: JsonModel,
    error: Seq<char>,
)
    ensures
        ({
            let bytes = encode_utf8(reply.body);
            let told = body is Ok && field(body->Ok_0, "error"@) is Some && text_at(
                field(body->Ok_0, "error"@)->0,
                "detail"@,
            ) is Some;
            &&& ynab_reportable(Err(error), body)
            &&& ynab_reportable(Ok(reply), body) <==> reply.code / 100 == 2 || told || bytes.len()
                <= 500 || !(0x80 <= bytes[500] <= 0xbf)
            &&& error_cuttable(Ok(value))
            &&& error_cuttable(Err(error)) <==> encode_utf8(error).len() <= 500 || !(0x80
                <= encode_utf8(error)[500] <= 0xbf)
        }),
{
    law_where_a_text_can_be_cut(reply.body, 500);
    law_where_a_text_can_be_cut(error, 500);
}

/// What the provider answers is printed, and its error is reported, cut to 500
/// bytes.
pub proof fn law_answer_is_printed(value: JsonModel, error: Seq<char>)
    ensures
        ({
            let good = provider_result(Ok(value));
            let bad = provider_result(Err(error));
            &&& good.success && good.output == pretty(value) && good.error is None
            &&& !bad.success && bad.output.len() == 0 && bad.error == Some(cut(error, 500, "..."@))
        }),
{
}

proof fn lemma_parameters_differ()
    ensures
        mark("account_id"@) == 6717036140664906,
        mark("action"@) == 7841567068543046,
        mark("amount"@) == 7770918103111750,
        mark("approved"@) == 7139799435302984,
        mark("budget_id"@) == 6711255114537097,
        mark("category_group_id"@) == 8263774122793169,
        mark("category_id"@) == 6718399792797899,
        mark("cleared"@) == 7138688112285895,
        mark("date"@) == 7139233577638148,
        mark("description"@) == 7420710739400971,
        mark("enum"@) == 7702472401180996,
        mark("flag_color"@) == 7630446894045578,
        mark("last_knowledge_of_server"@) == 8120571382061848,
        mark("maximum"@) == 8263234068568903,
        mark("memo"@) == 7841001210862404,
        mark("minimum"@) == 8263223331150663,
        mark("month"@) == 8194779785173829,
        mark("name"@) == 7137309432175492,
        mark("payee_id"@) == 7414961883667464,
        mark("payee_name"@) == 6856113628109834,
        mark("properties"@) == 7420724719164426,
        mark("required"@) == 7138700997319816,
        mark("since_date"@) == 6853362701556938,
        mark("transaction_id"@) == 7771197208861966,
        mark("transaction_type"@) == 8193115472682256,
        mark("type"@) == 7138159835749636,
{
    reveal_strlit("account_id");
    reveal_strlit("action");
    reveal_strlit("amount");
    reveal_strlit("approved");
    reveal_strlit("budget_id");
    reveal_strlit("category_group_id");
    reveal_strlit("category_id");
    reveal_strlit("cleared");
    reveal_strlit("date");
    reveal_strlit("description");
    reveal_strlit("enum");
    reveal_strlit("flag_color");
    reveal_strlit("last_knowledge_of_server");
    reveal_strlit("maximum");
    reveal_strlit("memo");
    reveal_strlit("minimum");
    reveal_strlit("month");
    reveal_strlit("name");
    reveal_strlit("payee_id");
    reveal_strlit("payee_name");
    reveal_strlit("properties");
    reveal_strlit("required");
    reveal_strlit("since_date");
    reveal_strlit("transaction_id");
    reveal_strlit("transaction_type");
    reveal_strlit("type");
}

/// Whether a schema offers a parameter of a type, and says what it is.
pub open spec fn offers(
    properties: JsonModel,
    key: Seq<char>,
    kind: Seq<char>,
    description: Seq<char>,
) -> bool {
    &&& field(properties, key) is Some
    &&& text_at(field(properties, key)->0, "type"@) == Some(kind)
    &&& text_at(field(properties, key)->0, "description"@) == Some(description)
}

/// The schema is an object that requires the action, and offers each parameter
/// that an action reads with its type and its choices, and no other.
pub proof fn law_schema_offers_every_parameter()
    ensures
        ({
            let schema = schema_model(budget_properties());
            let properties = field(schema, "properties"@)->0;
            &&& text_at(schema, "type"@) == Some("object"@)
            &&& field(schema, "required"@) == Some(
                JsonModel::Array(seq![JsonModel::Text("action"@)]),
            )
            &&& field(schema, "properties"@) is Some
            &&& offers(
                properties,
                "action"@,
                "string"@,
                "The budget action to perform."@,
            )
            &&& offers(
                properties,
                "budget_id"@,
                "string"@,
                "Budget ID (UUID, 'last-used', or 'default'). Falls back to configured default."@,
            )
            &&& offers(
                properties,
                "transaction_id"@,
                "string"@,
                "Transaction ID for transactions.update."@,
            )
            &&& offers(
                properties,
                "account_id"@,
                "string"@,
                "Account ID for accounts.get or transaction filtering."@,
            )
            &&& offers(
                properties,
                "category_id"@,
                "string"@,
                "Category ID for categories.get or transaction filtering."@,
            )
            &&& offers(
                properties,
                "category_group_id"@,
                "string"@,
                "Category group ID for categories.create."@,
            )
            &&& offers(
                properties,
                "payee_id"@,
                "string"@,
                "Payee ID for payees.get or transaction filtering."@,
            )
            &&& offers(
                properties,
                "payee_name"@,
                "string"@,
                "Payee name for transactions.create/update."@,
            )
            &&& offers(
                properties,
                "since_date"@,
                "string"@,
                "Filter transactions since this date (YYYY-MM-DD)."@,
            )
            &&& offers(
                properties,
                "transaction_type"@,
                "string"@,
                "Filter transaction type."@,
            )
            &&& offers(
                properties,
                "date"@,
                "string"@,
                "Transaction date (YYYY-MM-DD) for create/update."@,
            )
            &&& offers(
                properties,
                "amount"@,
                "integer"@,
                "Amount in milliunits (1/1000 currency unit). Negative = outflow."@,
            )
            &&& offers(
                properties,
                "memo"@,
                "string"@,
                "Transaction memo."@,
            )
            &&& offers(
                properties,
                "cleared"@,
                "string"@,
                "Transaction cleared status."@,
            )
            &&& offers(
                properties,
                "approved"@,
                "boolean"@,
                "Whether the transaction is approved."@,
            )
            &&& offers(
                properties,
                "flag_color"@,
                "string"@,
                "Transaction flag color."@,
            )
            &&& offers(
                properties,
                "month"@,
                "string"@,
                "Month (YYYY-MM-DD first-of-month or 'current') for budgets.summary."@,
            )
            &&& offers(
                properties,
                "name"@,
                "string"@,
                "Name for categories.create."@,
            )
            &&& offers(
                properties,
                "last_knowledge_of_server"@,
                "integer"@,
                "Delta sync token from a previous list response."@,
            )
            &&& field(field(properties, "action"@)->0, "enum"@) == Some(
                JsonModel::Array(
                    seq![
                        JsonModel::Text("budgets.list"@),
                        JsonModel::Text("budgets.get"@),
                        JsonModel::Text("budgets.summary"@),
                        JsonModel::Text("transactions.list"@),
                        JsonModel::Text("transactions.create"@),
                        JsonModel::Text("transactions.update"@),
                        JsonModel::Text("transactions.import"@),
                        JsonModel::Text("user.get"@),
                        JsonModel::Text("accounts.list"@),
                        JsonModel::Text("accounts.get"@),
                        JsonModel::Text("categories.list"@),
                        JsonModel::Text("categories.get"@),
                        JsonModel::Text("categories.create"@),
                        JsonModel::Text("payees.list"@),
                        JsonModel::Text("payees.get"@),
                    ],
                ),
            )
            &&& field(field(properties, "transaction_type"@)->0, "enum"@) == Some(
                JsonModel::Array(
                    seq![
                        JsonModel::Text("uncategorized"@),
                        JsonModel::Text("unapproved"@),
                    ],
                ),
            )
            &&& field(field(properties, "cleared"@)->0, "enum"@) == Some(
                JsonModel::Array(
                    seq![
                        JsonModel::Text("cleared"@),
                        JsonModel::Text("uncleared"@),
                        JsonModel::Text("reconciled"@),
                    ],
                ),
            )
            &&& field(field(properties, "flag_color"@)->0, "enum"@) == Some(
                JsonModel::Array(
                    seq![
                        JsonModel::Text("red"@),
                        JsonModel::Text("orange"@),
                        JsonModel::Text("yellow"@),
                        JsonModel::Text("green"@),
                        JsonModel::Text("blue"@),
                        JsonModel::Text("purple"@),
                    ],
                ),
            )
            &&& forall|key: Seq<char>| #[trigger]
                field(properties, key) is Some ==> {
                    ||| key == "action"@
                    ||| key == "budget_id"@
                    ||| key == "transaction_id"@
                    ||| key == "account_id"@
                    ||| key == "category_id"@
                    ||| key == "category_group_id"@
                    ||| key == "payee_id"@
                    ||| key == "payee_name"@
                    ||| key == "since_date"@
                    ||| key == "transaction_type"@
                    ||| key == "date"@
                    ||| key == "amount"@
                    ||| key == "memo"@
                    ||| key == "cleared"@
                    ||| key == "approved"@
                    ||| key == "flag_color"@
                    ||| key == "month"@
                    ||| key == "name"@
                    ||| key == "last_knowledge_of_server"@
                }
        }),
{
    lemma_parameters_differ();
    let schema = schema_model(budget_properties());
    let properties = field(schema, "properties"@)->0;
    assert(field(schema, "required"@)->0->Array_0 =~= seq![JsonModel::Text("action"@)]);
    assert(field(field(properties, "action"@)->0, "enum"@)->0->Array_0 =~= seq![
        JsonModel::Text("budgets.list"@),
        JsonModel::Text("budgets.get"@),
        JsonModel::Text("budgets.summary"@),
        JsonModel::Text("transactions.list"@),
        JsonModel::Text("transactions.create"@),
        JsonModel::Text("transactions.update"@),
        JsonModel::Text("transactions.import"@),
        JsonModel::Text("user.get"@),
        JsonModel::Text("accounts.list"@),
        JsonModel::Text("accounts.get"@),
        JsonModel::Text("categories.list"@),
        JsonModel::Text("categories.get"@),
        JsonModel::Text("categories.create"@),
        JsonModel::Text("payees.list"@),
        JsonModel::Text("payees.get"@),
    ]);
    assert(field(field(properties, "transaction_type"@)->0, "enum"@)->0->Array_0 =~= seq![
        JsonModel::Text("uncategorized"@),
        JsonModel::Text("unapproved"@),
    ]);
    assert(field(field(properties, "cleared"@)->0, "enum"@)->0->Array_0 =~= seq![
        JsonModel::Text("cleared"@),
        JsonModel::Text("uncleared"@),
        JsonModel::Text("reconciled"@),
    ]);
    assert(field(field(properties, "flag_color"@)->0, "enum"@)->0->Array_0 =~= seq![
        JsonModel::Text("red"@),
        JsonModel::Text("orange"@),
        JsonModel::Text("yellow"@),
        JsonModel::Text("green"@),
        JsonModel::Text("blue"@),
        JsonModel::Text("purple"@),
    ]);
}

} // verus!
