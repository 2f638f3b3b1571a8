//! What holds of the X tool as a whole: for each action, what is asked of the API
//! for the arguments that are given, what becomes of the answer, and when usage
//! stops an action.
use vstd::prelude::*;
use crate::http::{header_text, url_encoded, Method, ReplyModel, RequestModel};
use crate::json::{field, text_at, unsigned_at, JsonModel};
use crate::json_text::pretty;
use crate::text::{decimal, ellipsized, joined};
use crate::tools::result::{printed_result, AdmissionModel, ToolOperation};
use crate::tools::schema::schema_model;
use crate::tools::x_tool::{
    usage_of, x_answer, x_properties, UsageData, XStepModel, XToolModel,
};

verus! {

/// A number by which the texts below are told apart.
spec fn mark(s: Seq<char>) -> int {
    let n: int = s.len() as int;
    n + 64 * (s[0] as int) + 16384 * (s[n / 2] as int) + 4194304 * (s[n - 1] as int) + 1073741824 * (
    s[n / 3] as int) + 274877906944 * (s[(2 * n) / 3] as int)
        + 70368744177664 * (s[(3 * n) / 4] as int)
}

proof fn lemma_actions_differ()
    ensures
        mark("create_post"@) == 7841821570455755,
        mark("follow_user"@) == 8124682739767691,
        mark("get_mentions"@) == 7839910305962444,
        mark("get_usage"@) == 6852533773228489,
        mark("list_tweets"@) == 7135130868849419,
        mark("reply_to_post"@) == 7907543160265869,
        mark("search_tweets"@) == 7140060417219789,
        mark("unfollow_user"@) == 8259372914040141,
{
    reveal_strlit("create_post");
    reveal_strlit("follow_user");
    reveal_strlit("get_mentions");
    reveal_strlit("get_usage");
    reveal_strlit("list_tweets");
    reveal_strlit("reply_to_post");
    reveal_strlit("search_tweets");
    reveal_strlit("unfollow_user");
}

proof fn lemma_members_differ()
    ensures
        mark("in_reply_to_tweet_id"@) == 7140070018243156,
        mark("reply"@) == 7629620142414981,
        mark("target_user_id"@) == 8049908374134030,
        mark("text"@) == 8195868609879300,
{
    reveal_strlit("in_reply_to_tweet_id");
    reveal_strlit("reply");
    reveal_strlit("target_user_id");
    reveal_strlit("text");
}

/// Whether a call is one of an action that is enabled.
pub open spec fn enabled(tool: XToolModel, args: JsonModel, action: Seq<char>) -> bool {
    text_at(args, "action"@) == Some(action) && tool.allowed_actions.contains(action)
}

/// Whether a step ends a call with an error.
pub open spec fn fails(step: XStepModel, message: Seq<char>) -> bool {
    &&& step is Done
    &&& !step->Done_0.success
    &&& step->Done_0.output.len() == 0
    &&& step->Done_0.error == Some(message)
}

/// Whether a request reads a URL with the bearer token.
pub open spec fn reads_url(tool: XToolModel, request: RequestModel, url: Seq<char>) -> bool {
    &&& request.method == Method::Get
    &&& request.url == url
    &&& request.headers == seq![("Authorization"@, "Bearer "@ + tool.bearer_token)]
    &&& request.query.len() == 0
    &&& request.body is None
    &&& request.timeout_secs == Some(30u64)
}

/// Whether a step reads a URL with the bearer token for an action, or fails where
/// the token cannot stand in a header.
pub open spec fn reads(
    tool: XToolModel,
    step: XStepModel,
    action: Seq<char>,
    url: Seq<char>,
) -> bool {
    if header_text("Bearer "@ + tool.bearer_token) {
        step is Send && step->Send_0 == action && reads_url(tool, step->Send_1, url)
    } else {
        fails(
            step,
            "Invalid X bearer token header value: "@ + "failed to parse header value"@,
        )
    }
}

/// Whether a step writes to a URL with the user's token for an action, or fails
/// where the token cannot stand in a header.
pub open spec fn writes(
    tool: XToolModel,
    step: XStepModel,
    action: Seq<char>,
    method: Method,
    url: Seq<char>,
) -> bool {
    if header_text("Bearer "@ + tool.access_token) {
        &&& step is Send
        &&& step->Send_0 == action
        &&& step->Send_1.method == method
        &&& step->Send_1.url == url
        &&& step->Send_1.headers == seq![
            ("Authorization"@, "Bearer "@ + tool.access_token),
            ("Content-Type"@, "application/json"@),
        ]
        &&& step->Send_1.query.len() == 0
        &&& step->Send_1.timeout_secs == Some(30u64)
    } else {
        fails(
            step,
            "Invalid X access token header value: "@ + "failed to parse header value"@,
        )
    }
}

/// A number that is given, or a default, in a range.
pub open spec fn in_range(given: Option<u64>, default: u64, low: u64, high: u64, n: u64) -> bool {
    let asked = match given {
        Some(number) => number,
        None => default,
    };
    &&& low <= n <= high
    &&& low <= asked <= high ==> n == asked
    &&& asked < low ==> n == low
    &&& asked > high ==> n == high
}

/// A call without an action, of an unknown action or of one that is not enabled
/// fails and says so, and so does one that the policy refuses. Of the eight
/// actions four act and the others read.
pub proof fn law_which_calls_are_admitted(
    tool: XToolModel,
    args: JsonModel,
    refusal: Option<Seq<char>>,
    now: u128,
)
    ensures
        ({
            let action = text_at(args, "action"@);
            let step = tool.execution(args, refusal, now);
            let acting = action is Some && (action->0 == "create_post"@ || action->0 == "reply_to_post"@ || action->0 == "follow_user"@ || action->0 == "unfollow_user"@);
            let reading = action is Some && (action->0 == "list_tweets"@ || action->0 == "get_mentions"@ || action->0 == "search_tweets"@ || action->0 == "get_usage"@);
            &&& action is None ==> fails(step, "Missing required parameter: action"@)
            &&& action is Some && !acting && !reading ==> {
                &&& tool.admission(args) is Refused
                &&& fails(
                    step,
                    "Unknown action: "@ + action->0
                        + ". Valid actions: list_tweets, get_mentions, search_tweets, create_post, reply_to_post, follow_user, unfollow_user, get_usage"@,
                )
            }
            &&& (acting || reading) && !tool.allowed_actions.contains(action->0) ==> {
                &&& tool.admission(args) is Refused
                &&& fails(
                    step,
                    "Action '"@ + action->0
                        + "' is not enabled. Add it to x.allowed_actions in config.toml. Currently allowed: "@
                        + joined(tool.allowed_actions, ", "@),
                )
            }
            &&& acting && tool.allowed_actions.contains(action->0) ==> tool.admission(args)
                == AdmissionModel::Granted(ToolOperation::Act)
            &&& reading && tool.allowed_actions.contains(action->0) ==> tool.admission(args)
                == AdmissionModel::Granted(ToolOperation::Read)
            &&& (acting || reading) && tool.allowed_actions.contains(action->0) && refusal is Some
                ==> fails(step, refusal->0)
        }),
{
    lemma_actions_differ();
}

/// The tweets of a user, and those that mention the user, are listed for the user
/// that is given or else configured; how many there are is in range.
pub proof fn law_timelines_are_listed(tool: XToolModel, args: JsonModel, now: u128) -> (n: u64)
    ensures
        in_range(unsigned_at(args, "max_results"@), 10, 5, 100, n),
        ({
            let step = tool.execution(args, None, now);
            let given = text_at(args, "user_id"@);
            let user = if given is Some {
                given->0
            } else {
                tool.user_id
            };
            let nobody = given is None && tool.user_id.len() == 0;
            let closing = decimal(n as nat) + "&tweet.fields=created_at,public_metrics,author_id,conversation_id"@;
            &&& enabled(tool, args, "list_tweets"@) && !nobody ==> reads(
                tool,
                step,
                "list_tweets"@,
                "https://api.x.com/2"@ + "/users/"@ + user + "/tweets?max_results="@ + closing,
            )
            &&& enabled(tool, args, "list_tweets"@) && nobody ==> fails(
                step,
                "list_tweets requires user_id parameter or x.user_id in config"@,
            )
            &&& enabled(tool, args, "get_mentions"@) && !nobody ==> reads(
                tool,
                step,
                "get_mentions"@,
                "https://api.x.com/2"@ + "/users/"@ + user + "/mentions?max_results="@ + closing,
            )
            &&& enabled(tool, args, "get_mentions"@) && nobody ==> fails(
                step,
                "get_mentions requires user_id parameter or x.user_id in config"@,
            )
        }),
{
    lemma_actions_differ();
    let asked = match unsigned_at(args, "max_results"@) {
        Some(number) => number,
        None => 10u64,
    };
    let n: u64 = if asked < 5 {
        5
    } else if asked > 100 {
        100
    } else {
        asked
    };
    let given = text_at(args, "user_id"@);
    let user = if given is Some {
        given->0
    } else {
        tool.user_id
    };
    let base = "https://api.x.com/2"@ + "/users/"@ + user;
    let d = decimal(n as nat);
    let f = "&tweet.fields=created_at,public_metrics,author_id,conversation_id"@;
    assert(base + "/tweets?max_results="@ + d + f =~= base + "/tweets?max_results="@ + (d + f));
    assert(base + "/mentions?max_results="@ + d + f =~= base + "/mentions?max_results="@ + (d + f));
    n
}

/// A search asks for the query that is given, and has an order, a beginning and an
/// end exactly where each of them is given, whether or not the others are; query
/// and times are percent-encoded.
#[verifier::rlimit(40)]
pub proof fn law_search_has_what_is_given(tool: XToolModel, args: JsonModel, now: u128) -> (n: u64)
    requires
        enabled(tool, args, "search_tweets"@),
    ensures
        in_range(unsigned_at(args, "max_results"@), 10, 5, 100, n),
        ({
            let step = tool.execution(args, None, now);
            let query = text_at(args, "query"@);
            let order = match text_at(args, "sort_order"@) {
                Some(order) => "&sort_order="@ + order,
                None => Seq::empty(),
            };
            let start = match text_at(args, "start_time"@) {
                Some(time) => "&start_time="@ + url_encoded(time),
                None => Seq::empty(),
            };
            let end = match text_at(args, "end_time"@) {
                Some(time) => "&end_time="@ + url_encoded(time),
                None => Seq::empty(),
            };
            &&& query is None ==> fails(step, "search_tweets requires query parameter"@)
            &&& query is Some ==> reads(
                tool,
                step,
                "search_tweets"@,
                "https://api.x.com/2"@ + "/tweets/search/recent?query="@ + url_encoded(query->0)
                    + "&max_results="@ + decimal(n as nat)
                    + "&tweet.fields=created_at,public_metrics,author_id,conversation_id&expansions=author_id&user.fields=username,name"@
                    + (order + start + end),
            )
        }),
{
    lemma_actions_differ();
    let asked = match unsigned_at(args, "max_results"@) {
        Some(number) => number,
        None => 10u64,
    };
    let n: u64 = if asked < 5 {
        5
    } else if asked > 100 {
        100
    } else {
        asked
    };
    let order = match text_at(args, "sort_order"@) {
        Some(order) => "&sort_order="@ + order,
        None => Seq::empty(),
    };
    let start = match text_at(args, "start_time"@) {
        Some(time) => "&start_time="@ + url_encoded(time),
        None => Seq::empty(),
    };
    let end = match text_at(args, "end_time"@) {
        Some(time) => "&end_time="@ + url_encoded(time),
        None => Seq::empty(),
    };
    if text_at(args, "query"@) is Some {
        let head = "https://api.x.com/2"@ + "/tweets/search/recent?query="@ + url_encoded(
            text_at(args, "query"@)->0,
        ) + "&max_results="@ + decimal(n as nat)
            + "&tweet.fields=created_at,public_metrics,author_id,conversation_id&expansions=author_id&user.fields=username,name"@;
        assert(head + order + start + end =~= head + (order + start + end));
    }
    n
}

/// A post has the text that is given, and nothing else.
pub proof fn law_post_has_the_text(tool: XToolModel, args: JsonModel, now: u128)
    requires
        enabled(tool, args, "create_post"@),
        !tool.check_before_action,
    ensures
        ({
            let step = tool.execution(args, None, now);
            let body = step->Send_1.body->0;
            &&& text_at(args, "text"@) is None ==> fails(step, "create_post requires text parameter"@)
            &&& text_at(args, "text"@) is Some ==> {
                &&& writes(
                    tool,
                    step,
                    "create_post"@,
                    Method::Post,
                    "https://api.x.com/2"@ + "/tweets"@,
                )
                &&& step is Send ==> {
                    &&& step->Send_1.body is Some
                    &&& text_at(body, "text"@) == text_at(args, "text"@)
                    &&& forall|key: Seq<char>| #[trigger]
                        field(body, key) is Some ==> key == "text"@
                }
            }
        }),
{
    lemma_actions_differ();
}

/// A reply has the text that is given, and names the tweet that is given as the
/// one that it replies to.
pub proof fn law_reply_names_the_tweet(tool: XToolModel, args: JsonModel, now: u128)
    requires
        enabled(tool, args, "reply_to_post"@),
        !tool.check_before_action,
    ensures
        ({
            let step = tool.execution(args, None, now);
            let body = step->Send_1.body->0;
            let tweet = text_at(args, "tweet_id"@);
            let text = text_at(args, "text"@);
            &&& tweet is None ==> fails(step, "reply_to_post requires tweet_id parameter"@)
            &&& tweet is Some && text is None ==> fails(
                step,
                "reply_to_post requires text parameter"@,
            )
            &&& tweet is Some && text is Some ==> {
                &&& writes(
                    tool,
                    step,
                    "reply_to_post"@,
                    Method::Post,
                    "https://api.x.com/2"@ + "/tweets"@,
                )
                &&& step is Send ==> {
                    &&& step->Send_1.body is Some
                    &&& text_at(body, "text"@) == text
                    &&& field(body, "reply"@) is Some
                    &&& text_at(field(body, "reply"@)->0, "in_reply_to_tweet_id"@) == tweet
                    &&& forall|key: Seq<char>| #[trigger]
                        field(body, key) is Some ==> key == "text"@ || key == "reply"@
                }
            }
        }),
{
    lemma_actions_differ();
    lemma_members_differ();
}

/// The configured user follows, and no longer follows, the user that is given;
/// without a configured user nobody does.
pub proof fn law_follows_are_of_the_configured_user(tool: XToolModel, args: JsonModel, now: u128)
    requires
        !tool.check_before_action,
    ensures
        ({
            let step = tool.execution(args, None, now);
            let body = step->Send_1.body->0;
            let target = text_at(args, "target_user_id"@);
            &&& enabled(tool, args, "follow_user"@) ==> {
                &&& tool.user_id.len() == 0 ==> fails(
                    step,
                    "follow_user requires x.user_id in config (source user)"@,
                )
                &&& tool.user_id.len() > 0 && target is None ==> fails(
                    step,
                    "follow_user requires target_user_id parameter"@,
                )
                &&& tool.user_id.len() > 0 && target is Some ==> {
                    &&& writes(
                        tool,
                        step,
                        "follow_user"@,
                        Method::Post,
                        "https://api.x.com/2"@ + "/users/"@ + tool.user_id + "/following"@,
                    )
                    &&& step is Send ==> {
                        &&& step->Send_1.body is Some
                        &&& text_at(body, "target_user_id"@) == target
                        &&& forall|key: Seq<char>| #[trigger]
                            field(body, key) is Some ==> key == "target_user_id"@
                    }
                }
            }
            &&& enabled(tool, args, "unfollow_user"@) ==> {
                &&& tool.user_id.len() == 0 ==> fails(
                    step,
                    "unfollow_user requires x.user_id in config (source user)"@,
                )
                &&& tool.user_id.len() > 0 && target is None ==> fails(
                    step,
                    "unfollow_user requires target_user_id parameter"@,
                )
                &&& tool.user_id.len() > 0 && target is Some ==> {
                    &&& writes(
                        tool,
                        step,
                        "unfollow_user"@,
                        Method::Delete,
                        "https://api.x.com/2"@ + "/users/"@ + tool.user_id + "/following/"@
                            + target->0,
                    )
                    &&& step is Send ==> step->Send_1.body is None
                }
            }
        }),
{
    lemma_actions_differ();
}

/// Usage is asked for as many days as are given, or seven, in range.
pub proof fn law_usage_is_of_the_days_given(tool: XToolModel, args: JsonModel, now: u128) -> (n: u64)
    requires
        enabled(tool, args, "get_usage"@),
    ensures
        in_range(unsigned_at(args, "days"@), 7, 1, 90, n),
        reads(
            tool,
            tool.execution(args, None, now),
            "get_usage"@,
            "https://api.x.com/2"@ + "/usage/tweets?days="@ + decimal(n as nat)
                + "&usage.fields=project_usage,project_cap,cap_reset_day,daily_project_usage"@,
        ),
{
    lemma_actions_differ();
    let asked = match unsigned_at(args, "days"@) {
        Some(number) => number,
        None => 7u64,
    };
    if asked < 1 {
        1
    } else if asked > 90 {
        90
    } else {
        asked
    }
}

/// Whether usage has reached a cap: the local one, or that of the project where
/// the project has one.
pub open spec fn capped(tool: XToolModel, usage: UsageData) -> bool {
    ||| tool.monthly_tweet_cap is Some && usage.project_usage >= tool.monthly_tweet_cap->0
    ||| usage.project_cap > 0 && usage.project_usage >= usage.project_cap
}

/// An action that acts is what it is without a check where no cap is reached by
/// the usage that is known, and where no check is asked for; an action that reads
/// always is. Where a cap is reached the action fails, and where usage is not
/// known it is fetched first.
pub proof fn law_usage_is_checked_before_acting(
    tool: XToolModel,
    args: JsonModel,
    action: Seq<char>,
    now: u128,
)
    requires
        enabled(tool, args, action),
    ensures
        ({
            let unchecked = XToolModel { check_before_action: false, ..tool };
            let plain = unchecked.execution(args, None, now);
            let step = tool.execution(args, None, now);
            let cached = tool.cached_usage->0;
            let known = tool.cached_usage is Some && now < cached.0 + 300_000_000_000;
            let usage = cached.1;
            let acting = action == "create_post"@ || action == "reply_to_post"@ || action == "follow_user"@ || action == "unfollow_user"@;
            &&& !acting ==> step == plain
            &&& !tool.check_before_action ==> step == plain
            &&& acting && tool.check_before_action && known && !capped(tool, usage) ==> step == plain
            &&& acting && tool.check_before_action && known && capped(tool, usage) ==> {
                &&& step is Done
                &&& !step->Done_0.success
                &&& step->Done_0.error == tool.over_limit(usage)
            }
            &&& acting && tool.check_before_action && !known && header_text(
                "Bearer "@ + tool.bearer_token,
            ) ==> step is FetchUsage && reads_url(
                tool,
                step->FetchUsage_0,
                "https://api.x.com/2"@
                    + "/usage/tweets?usage.fields=project_usage,project_cap,cap_reset_day"@,
            )
        }),
{
    lemma_actions_differ();
    if tool.cached_usage is Some {
        let cached = tool.cached_usage->0;
        let fetched = cached.0;
        if now >= fetched {
            assert((now - fetched) / 1_000_000_000 < 300 <==> now - fetched < 300_000_000_000);
        }
    }
}

/// Once usage is answered, the action goes on as it would without a check where no
/// cap is reached, or where no usage was answered, and fails where one is; what
/// was answered is kept with the time.
pub proof fn law_answered_usage_decides(
    tool: XToolModel,
    args: JsonModel,
    action: Seq<char>,
    body: JsonModel,
    error: Seq<char>,
    now: u128,
)
    requires
        enabled(tool, args, action),
        action == "create_post"@ || action == "reply_to_post"@ || action == "follow_user"@ || action == "unfollow_user"@,
    ensures
        ({
            let plain = XToolModel { check_before_action: false, ..tool }.execution(args, None, now);
            let usage = usage_of(body);
            let after = tool.with_usage(Ok(body), now);
            &&& !capped(tool, usage) ==> tool.after_usage(args, Ok(body)) == plain
            &&& capped(tool, usage) ==> {
                &&& tool.after_usage(args, Ok(body)) is Done
                &&& !tool.after_usage(args, Ok(body))->Done_0.success
                &&& tool.after_usage(args, Ok(body))->Done_0.error == tool.over_limit(usage)
            }
            &&& tool.after_usage(args, Err(error)) == plain
            &&& after.cached_usage == Some((now, usage))
            &&& (XToolModel { cached_usage: tool.cached_usage, ..after }) == tool
            &&& tool.with_usage(Err(error), now) == tool
        }),
{
    lemma_actions_differ();
}

/// The message about a cap names the usage and the cap: the local one where that
/// is reached, else the project's. There is none exactly where no cap is reached.
pub proof fn law_cap_is_named(tool: XToolModel, usage: UsageData)
    ensures
        ({
            let message = tool.over_limit(usage);
            let local = tool.monthly_tweet_cap is Some && usage.project_usage
                >= tool.monthly_tweet_cap->0;
            &&& message is Some <==> capped(tool, usage)
            &&& local ==> message == Some(
                "X API monthly tweet cap reached: "@ + decimal(usage.project_usage as nat) + "/"@
                    + decimal(tool.monthly_tweet_cap->0 as nat)
                    + " tweets used (local limit). Increase x.usage.monthly_tweet_cap in config to allow more."@,
            )
            &&& message is Some && !local ==> message == Some(
                "X API project cap reached: "@ + decimal(usage.project_usage as nat) + "/"@ + decimal(
                    usage.project_cap as nat,
                ) + " tweets used. Wait for cap reset or upgrade your plan."@,
            )
        }),
{
}

/// Usage is read from the `data` of an answer, each number by its name, and what
/// is not there counts as zero, the day of the reset as the first.
pub proof fn law_usage_is_read_from_data(body: JsonModel)
    ensures
        ({
            let data = field(body, "data"@);
            let usage = usage_of(body);
            let used = unsigned_at(data->0, "project_usage"@);
            let cap = unsigned_at(data->0, "project_cap"@);
            let day = unsigned_at(data->0, "cap_reset_day"@);
            &&& data is None ==> usage == (UsageData {
                project_usage: 0,
                project_cap: 0,
                cap_reset_day: 1,
            })
            &&& data is Some ==> {
                &&& used is Some ==> usage.project_usage == used->0
                &&& used is None ==> usage.project_usage == 0
                &&& cap is Some ==> usage.project_cap == cap->0
                &&& cap is None ==> usage.project_cap == 0
                &&& day is Some && day->0 <= 255 ==> usage.cap_reset_day == day->0
                &&& day is None || day->0 > 255 ==> usage.cap_reset_day == 1
            }
        }),
{
}

/// A reply with a success code answers its JSON; any other is an error with the
/// action, the status and the beginning of the body, and without a reply its
/// error is answered. What is answered is printed.
pub proof fn law_reply_is_answered(
    label: Seq<char>,
    reply: ReplyModel,
    body: Option<JsonModel>,
    error: Seq<char>,
)
    ensures
        reply.code / 100 != 2 ==> x_answer(label, Ok(reply), body) == Err::<JsonModel, _>(
            "X "@ + label + " failed ("@ + reply.status + "): "@ + ellipsized(reply.body, 500),
        ),
        reply.code / 100 == 2 && body is Some ==> x_answer(label, Ok(reply), body) == Ok::<
            _,
            Seq<char>,
        >(body->0),
        reply.code / 100 == 2 && body is None ==> x_answer(label, Ok(reply), body) == Err::<
            JsonModel,
            _,
        >("error decoding response body"@),
        x_answer(label, Err(error), body) == Err::<JsonModel, _>(error),
        match x_answer(label, Ok(reply), body) {
            Ok(value) => {
                let result = printed_result(Ok(value));
                result.success && result.output == pretty(value) && result.error is None
            },
            Err(message) => {
                let result = printed_result(Err(message));
                !result.success && result.output.len() == 0 && result.error == Some(message)
            },
        },
{
}

proof fn lemma_parameters_differ()
    ensures
        mark("action"@) == 7841567068543046,
        mark("days"@) == 8125770444462340,
        mark("description"@) == 7420710739400971,
        mark("end_time"@) == 7699163095308616,
        mark("enum"@) == 7702472401180996,
        mark("max_results"@) == 7632087575780171,
        mark("maximum"@) == 8263234068568903,
        mark("minimum"@) == 8263223331150663,
        mark("properties"@) == 7420724719164426,
        mark("query"@) == 8053499054611525,
        mark("required"@) == 7138700997319816,
        mark("sort_order"@) == 7068335533186250,
        mark("start_time"@) == 7420726807616714,
        mark("target_user_id"@) == 8049908374134030,
        mark("text"@) == 8195868609879300,
        mark("tweet_id"@) == 7414940409077000,
        mark("type"@) == 7138159835749636,
        mark("user_id"@) == 7414940409044295,
{
    reveal_strlit("action");
    reveal_strlit("days");
    reveal_strlit("description");
    reveal_strlit("end_time");
    reveal_strlit("enum");
    reveal_strlit("max_results");
    reveal_strlit("maximum");
    reveal_strlit("minimum");
    reveal_strlit("properties");
    reveal_strlit("query");
    reveal_strlit("required");
    reveal_strlit("sort_order");
    reveal_strlit("start_time");
    reveal_strlit("target_user_id");
    reveal_strlit("text");
    reveal_strlit("tweet_id");
    reveal_strlit("type");
    reveal_strlit("user_id");
}

/// Whether a schema offers a parameter of a type, and says what it is.
pub open spec fn offers(
    properties: JsonModel,
    key: Seq<char>,
    kind: Seq<char>,
    description: Seq<char>,
) -> bool {
    &&& field(properties, key) is Some
    &&& text_at(field(properties, key)->0, "type"@) == Some(kind)
    &&& text_at(field(properties, key)->0, "description"@) == Some(description)
}

/// The schema is an object that requires the action, and offers each parameter
/// that an action reads with its type, its choices and its range, and no other.
pub proof fn law_schema_offers_every_parameter()
    ensures
        ({
            let schema = schema_model(x_properties());
            let properties = field(schema, "properties"@)->0;
            &&& text_at(schema, "type"@) == Some("object"@)
            &&& field(schema, "required"@) == Some(
                JsonModel::Array(seq![JsonModel::Text("action"@)]),
            )
            &&& field(schema, "properties"@) is Some
            &&& offers(
                properties,
                "action"@,
                "string"@,
                "The X API action to perform"@,
            )
            &&& offers(
                properties,
                "user_id"@,
                "string"@,
                "X user ID (numeric). Defaults to configured user_id if omitted."@,
            )
            &&& offers(
                properties,
                "query"@,
                "string"@,
                "Search query for search_tweets (supports X search operators)"@,
            )
            &&& offers(
                properties,
                "text"@,
                "string"@,
                "Post text content (for create_post and reply_to_post)"@,
            )
            &&& offers(
                properties,
                "tweet_id"@,
                "string"@,
                "Tweet ID to reply to (for reply_to_post)"@,
            )
            &&& offers(
                properties,
                "target_user_id"@,
                "string"@,
                "User ID to follow or unfollow"@,
            )
            &&& offers(
                properties,
                "sort_order"@,
                "string"@,
                "Sort order for search results"@,
            )
            &&& offers(
                properties,
                "start_time"@,
                "string"@,
                "Oldest date for search results (ISO 8601, e.g. 2026-03-20T00:00:00Z)"@,
            )
            &&& offers(
                properties,
                "end_time"@,
                "string"@,
                "Newest date for search results (ISO 8601, e.g. 2026-03-23T23:59:59Z)"@,
            )
            &&& offers(
                properties,
                "max_results"@,
                "integer"@,
                "Maximum number of results (default: 10)"@,
            )
            &&& offers(
                properties,
                "days"@,
                "integer"@,
                "Number of days of usage history for get_usage (default: 7)"@,
            )
            &&& field(field(properties, "max_results"@)->0, "minimum"@) == Some(
                JsonModel::Integer(5),
            ) && field(field(properties, "max_results"@)->0, "maximum"@) == Some(JsonModel::Integer(100))
            &&& field(field(properties, "days"@)->0, "minimum"@) == Some(
                JsonModel::Integer(1),
            ) && field(field(properties, "days"@)->0, "maximum"@) == Some(JsonModel::Integer(90))
            &&& field(field(properties, "action"@)->0, "enum"@) == Some(
                JsonModel::Array(
                    seq![
                        JsonModel::Text("list_tweets"@),
                        JsonModel::Text("get_mentions"@),
                        JsonModel::Text("search_tweets"@),
                        JsonModel::Text("create_post"@),
                        JsonModel::Text("reply_to_post"@),
                        JsonModel::Text("follow_user"@),
                        JsonModel::Text("unfollow_user"@),
                        JsonModel::Text("get_usage"@),
                    ],
                ),
            )
            &&& field(field(properties, "sort_order"@)->0, "enum"@) == Some(
                JsonModel::Array(
                    seq![
                        JsonModel::Text("recency"@),
                        JsonModel::Text("relevancy"@),
                    ],
                ),
            )
            &&& forall|key: Seq<char>| #[trigger]
                field(properties, key) is Some ==> {
                    ||| key == "action"@
                    ||| key == "user_id"@
                    ||| key == "query"@
                    ||| key == "text"@
                    ||| key == "tweet_id"@
                    ||| key == "target_user_id"@
                    ||| key == "sort_order"@
                    ||| key == "start_time"@
                    ||| key == "end_time"@
                    ||| key == "max_results"@
                    ||| key == "days"@
                }
        }),
{
    lemma_parameters_differ();
    let schema = schema_model(x_properties());
    let properties = field(schema, "properties"@)->0;
    assert(field(schema, "required"@)->0->Array_0 =~= seq![JsonModel::Text("action"@)]);
    assert(field(field(properties, "action"@)->0, "enum"@)->0->Array_0 =~= seq![
        JsonModel::Text("list_tweets"@),
        JsonModel::Text("get_mentions"@),
        JsonModel::Text("search_tweets"@),
        JsonModel::Text("create_post"@),
        JsonModel::Text("reply_to_post"@),
        JsonModel::Text("follow_user"@),
        JsonModel::Text("unfollow_user"@),
        JsonModel::Text("get_usage"@),
    ]);
    assert(field(field(properties, "sort_order"@)->0, "enum"@)->0->Array_0 =~= seq![
        JsonModel::Text("recency"@),
        JsonModel::Text("relevancy"@),
    ]);
}

} // verus!
