//! The X tool: tweets, mentions, search, posts, replies, follows and API usage.
use vstd::prelude::*;
use crate::http::{
    bearer_header, check_header_value, header_request, header_text, json_result, pair_texts,
    reply_model, url_encode, url_encoded, HttpReply, HttpRequest, Method, ReplyModel, RequestModel,
};
use crate::json::{field, number_or, str_texts, text_at, Json, JsonModel, JsonObject};
use crate::json_text::{json_read, parse_json};
use crate::text::{
    cat2, cat3, cat4, cat5, decimal, ellipsized, first_of, join, joined, opt_str, same, texts,
    truncate_with_ellipsis, u64_text,
};
use crate::tools::result::{
    error_model, is_listed, print_result, printed_result, verdict_model, Admission, AdmissionModel,
    ResultModel, ToolOperation, ToolResult,
};
use crate::tools::schema::{
    choice_model, choice_property, parameter_schema, range_model, range_property, schema_model,
    string_model, string_property,
};

verus! {

/// The X API.
pub const X_API_BASE: &'static str = "https://api.x.com/2";

/// How long a request may take, in seconds.
pub const X_REQUEST_TIMEOUT_SECS: u64 = 30;

/// Maximum number of characters to keep from an error response body.
pub const MAX_ERROR_BODY_CHARS: usize = 500;

/// Duration to cache usage data before re-fetching.
pub const USAGE_CACHE_TTL_SECS: u64 = 300;

/// The nanoseconds of a second.
pub const NANOS_PER_SEC: u128 = 1_000_000_000;

/// Usage data from the X API `/2/usage/tweets` endpoint.
#[derive(Debug, Clone, Copy, PartialEq, Eq, Structural)]
pub struct UsageData {
    pub project_usage: u64,
    pub project_cap: u64,
    pub cap_reset_day: u8,
}

/// Tool for interacting with the X (Twitter) API v2: list tweets, search, create
/// posts, reply, follow/unfollow users, and monitor API usage.
/// Each action is gated by `allowed_actions` and the appropriate security
/// operation (Read for queries, Act for mutations).
///
/// Times are readings of a monotonic clock, in nanoseconds.
pub struct XTool {
    bearer_token: String,
    access_token: String,
    user_id: String,
    allowed_actions: Vec<String>,
    monthly_tweet_cap: Option<u64>,
    warn_at_percent: u8,
    check_before_action: bool,
    cached_usage: Option<(u128, UsageData)>,
}

/// How the tool is set up, and the usage data that it last fetched.
pub struct XToolModel {
    pub bearer_token: Seq<char>,
    pub access_token: Seq<char>,
    pub user_id: Seq<char>,
    pub allowed_actions: Seq<Seq<char>>,
    pub monthly_tweet_cap: Option<u64>,
    pub warn_at_percent: u8,
    pub check_before_action: bool,
    pub cached_usage: Option<(u128, UsageData)>,
}

impl View for XTool {
    type V = XToolModel;

    closed spec fn view(&self) -> XToolModel {
        XToolModel {
            bearer_token: self.bearer_token@,
            access_token: self.access_token@,
            user_id: self.user_id@,
            allowed_actions: texts(self.allowed_actions@),
            monthly_tweet_cap: self.monthly_tweet_cap,
            warn_at_percent: self.warn_at_percent,
            check_before_action: self.check_before_action,
            cached_usage: self.cached_usage,
        }
    }
}

/// What to do next.
#[derive(Debug)]
pub enum XStep {
    /// Nothing: this is what the call came to.
    Done(ToolResult),
    /// Fetch the usage data with a request, and go on with its reply.
    FetchUsage(HttpRequest),
    /// Send the request of an action.
    Send(String, HttpRequest),
}

/// What to do next.
pub enum XStepModel {
    Done(ResultModel),
    FetchUsage(RequestModel),
    Send(Seq<char>, RequestModel),
}

impl View for XStep {
    type V = XStepModel;

    open spec fn view(&self) -> XStepModel {
        match *self {
            XStep::Done(result) => XStepModel::Done(result@),
            XStep::FetchUsage(request) => XStepModel::FetchUsage(request@),
            XStep::Send(action, request) => XStepModel::Send(action@, request@),
        }
    }
}

/// A number, brought into a range.
pub open spec fn clamped(n: u64, low: u64, high: u64) -> u64 {
    if n < low {
        low
    } else if n > high {
        high
    } else {
        n
    }
}

/// Brings a number into a range.
pub fn clamp(n: u64, low: u64, high: u64) -> (clamped_n: u64)
    ensures
        clamped_n == clamped(n, low, high),
{
    if n < low {
        low
    } else if n > high {
        high
    } else {
        n
    }
}

/// The whole seconds from one reading of a clock to another.
pub open spec fn seconds_between(earlier: u128, later: u128) -> int {
    if later < earlier {
        0
    } else {
        (later - earlier) / NANOS_PER_SEC as int
    }
}

/// The actions of the tool.
pub open spec fn x_actions() -> Seq<Seq<char>> {
    seq![
        "list_tweets"@,
        "get_mentions"@,
        "search_tweets"@,
        "create_post"@,
        "reply_to_post"@,
        "follow_user"@,
        "unfollow_user"@,
        "get_usage"@,
    ]
}

/// Whether an action only reads.
pub open spec fn x_reads(action: Seq<char>) -> bool {
    ||| action == "list_tweets"@
    ||| action == "get_mentions"@
    ||| action == "search_tweets"@
    ||| action == "get_usage"@
}

/// Whether an action acts.
pub open spec fn x_acts(action: Seq<char>) -> bool {
    ||| action == "create_post"@
    ||| action == "reply_to_post"@
    ||| action == "follow_user"@
    ||| action == "unfollow_user"@
}

/// What kind of operation an action is, where there is such an action.
pub open spec fn x_operation(action: Seq<char>) -> Option<ToolOperation> {
    if x_reads(action) {
        Some(ToolOperation::Read)
    } else if x_acts(action) {
        Some(ToolOperation::Act)
    } else {
        None
    }
}

/// What kind of operation an action is.
pub fn operation_of(action: &str) -> (operation: Option<ToolOperation>)
    ensures
        operation == x_operation(action@),
{
    if same(action, "list_tweets") || same(action, "get_mentions") || same(action, "search_tweets")
        || same(action, "get_usage") {
        Some(ToolOperation::Read)
    } else if same(action, "create_post") || same(action, "reply_to_post") || same(
        action,
        "follow_user",
    ) || same(action, "unfollow_user") {
        Some(ToolOperation::Act)
    } else {
        None
    }
}

/// What the reply to a request means, given the value that its body stands for,
/// where it is JSON.
pub open spec fn x_answer(
    label: Seq<char>,
    reply: Result<ReplyModel, Seq<char>>,
    body: Option<JsonModel>,
) -> Result<JsonModel, Seq<char>> {
    match reply {
        Err(error) => Err(error),
        Ok(reply) => if !reply.success() {
            Err(
                "X "@ + label + " failed ("@ + reply.status + "): "@ + ellipsized(
                    reply.body,
                    MAX_ERROR_BODY_CHARS as int,
                ),
            )
        } else {
            match body {
                Some(value) => Ok(value),
                None => Err("error decoding response body"@),
            }
        },
    }
}

/// The value that the body of a reply stands for, where there is a reply and its
/// body is JSON.
pub open spec fn x_body(reply: Result<ReplyModel, Seq<char>>) -> Option<JsonModel> {
    match reply {
        Ok(reply) => json_read(reply.body),
        Err(_) => None,
    }
}

/// The usage data in an answer.
pub open spec fn usage_of(body: JsonModel) -> UsageData {
    let data = match field(body, "data"@) {
        Some(data) => data,
        None => JsonModel::Null,
    };
    let day = number_or(data, "cap_reset_day"@, 1);
    UsageData {
        project_usage: number_or(data, "project_usage"@, 0),
        project_cap: number_or(data, "project_cap"@, 0),
        cap_reset_day: if day <= 255 {
            day as u8
        } else {
            1
        },
    }
}

/// Reads the usage data in an answer.
pub fn read_usage(body: &Json) -> (usage: UsageData)
    ensures
        usage == usage_of(body@),
{
    match body.get("data") {
        Some(data) => {
            let day: u64 = data.u64_or("cap_reset_day", 1);
            UsageData {
                project_usage: data.u64_or("project_usage", 0),
                project_cap: data.u64_or("project_cap", 0),
                cap_reset_day: if day <= 255 {
                    day as u8
                } else {
                    1
                },
            }
        },
        None => UsageData { project_usage: 0, project_cap: 0, cap_reset_day: 1 },
    }
}

/// What follows the path of a request for tweets.
pub open spec fn tweet_fields() -> Seq<char> {
    "&tweet.fields=created_at,public_metrics,author_id,conversation_id"@
}

/// A parameter of a URL, where there is a value for it.
pub open spec fn url_part(prefix: Seq<char>, value: Option<Seq<char>>) -> Seq<char> {
    match value {
        Some(text) => prefix + text,
        None => Seq::empty(),
    }
}

/// An optional text in percent-encoding.
pub open spec fn opt_encoded(value: Option<Seq<char>>) -> Option<Seq<char>> {
    match value {
        Some(text) => Some(url_encoded(text)),
        None => None,
    }
}

/// The address of a search.
pub open spec fn search_url(
    query: Seq<char>,
    max_results: u64,
    sort_order: Option<Seq<char>>,
    start_time: Option<Seq<char>>,
    end_time: Option<Seq<char>>,
) -> Seq<char> {
    X_API_BASE@ + "/tweets/search/recent?query="@ + url_encoded(query) + "&max_results="@ + decimal(
        max_results as nat,
    )
        + "&tweet.fields=created_at,public_metrics,author_id,conversation_id&expansions=author_id&user.fields=username,name"@
        + url_part("&sort_order="@, sort_order) + url_part(
        "&start_time="@,
        opt_encoded(start_time),
    ) + url_part("&end_time="@, opt_encoded(end_time))
}

/// The body of a post.
pub open spec fn post_body(text: Seq<char>) -> JsonModel {
    JsonModel::Object(Map::empty().insert("text"@, JsonModel::Text(text)))
}

/// The body of a reply to a post.
pub open spec fn post_reply_body(tweet_id: Seq<char>, text: Seq<char>) -> JsonModel {
    JsonModel::Object(
        Map::empty().insert("text"@, JsonModel::Text(text)).insert(
            "reply"@,
            JsonModel::Object(
                Map::empty().insert("in_reply_to_tweet_id"@, JsonModel::Text(tweet_id)),
            ),
        ),
    )
}

/// The body of a follow.
pub open spec fn follow_body(target: Seq<char>) -> JsonModel {
    JsonModel::Object(Map::empty().insert("target_user_id"@, JsonModel::Text(target)))
}

/// What a request that could not be made, or was made, says.
pub open spec fn request_result(request: Result<HttpRequest, String>) -> Result<
    RequestModel,
    Seq<char>,
> {
    match request {
        Ok(r) => Ok(r@),
        Err(e) => Err(e@),
    }
}

/// What headers that could not be made, or were made, say.
pub open spec fn headers_result(headers: Result<Vec<(String, String)>, String>) -> Result<
    Seq<(Seq<char>, Seq<char>)>,
    Seq<char>,
> {
    match headers {
        Ok(h) => Ok(pair_texts(h@)),
        Err(e) => Err(e@),
    }
}

/// An action that goes on with its request, or fails for want of one.
pub open spec fn x_sent(action: Seq<char>, request: Result<RequestModel, Seq<char>>) -> XStepModel {
    match request {
        Ok(request) => XStepModel::Send(action, request),
        Err(error) => XStepModel::Done(error_model(error)),
    }
}

/// A call that ends with an error.
pub open spec fn x_failed(message: Seq<char>) -> XStepModel {
    XStepModel::Done(error_model(message))
}

fn fail_with(message: &str) -> (step: XStep)
    ensures
        step@ == x_failed(message@),
{
    XStep::Done(ToolResult::refusal(message))
}

fn send(action: &str, request: Result<HttpRequest, String>) -> (step: XStep)
    ensures
        step@ == x_sent(action@, request_result(request)),
{
    match request {
        Ok(request) => XStep::Send(action.to_string(), request),
        Err(error) => XStep::Done(ToolResult::error(error)),
    }
}

impl XToolModel {
    /// The headers of a request that reads.
    pub open spec fn bearer_headers(self) -> Result<Seq<(Seq<char>, Seq<char>)>, Seq<char>> {
        if header_text("Bearer "@ + self.bearer_token) {
            Ok(seq![bearer_header(self.bearer_token)])
        } else {
            Err("Invalid X bearer token header value: "@ + "failed to parse header value"@)
        }
    }

    /// The headers of a request that writes.
    pub open spec fn oauth_headers(self) -> Result<Seq<(Seq<char>, Seq<char>)>, Seq<char>> {
        if header_text("Bearer "@ + self.access_token) {
            Ok(
                seq![bearer_header(self.access_token), ("Content-Type"@, "application/json"@)],
            )
        } else {
            Err("Invalid X access token header value: "@ + "failed to parse header value"@)
        }
    }

    /// A request that reads.
    pub open spec fn read_request(self, url: Seq<char>) -> Result<RequestModel, Seq<char>> {
        match self.bearer_headers() {
            Ok(headers) => Ok(
                header_request(Method::Get, url, headers, Some(X_REQUEST_TIMEOUT_SECS)),
            ),
            Err(error) => Err(error),
        }
    }

    /// A request that writes.
    pub open spec fn write_request(
        self,
        method: Method,
        url: Seq<char>,
        body: Option<JsonModel>,
    ) -> Result<RequestModel, Seq<char>> {
        match self.oauth_headers() {
            Ok(headers) => Ok(
                RequestModel {
                    body,
                    ..header_request(method, url, headers, Some(X_REQUEST_TIMEOUT_SECS))
                },
            ),
            Err(error) => Err(error),
        }
    }

    /// The user that a call is about: the one that it names, or else the
    /// configured one.
    pub open spec fn user(self, args: JsonModel) -> Option<Seq<char>> {
        first_of(
            text_at(args, "user_id"@),
            if self.user_id.len() == 0 {
                None
            } else {
                Some(self.user_id)
            },
        )
    }

    /// The usage data, where it was fetched less than five minutes ago.
    pub open spec fn fresh_usage(self, now: u128) -> Option<UsageData> {
        match self.cached_usage {
            Some((fetched_at, usage)) => if seconds_between(fetched_at, now)
                < USAGE_CACHE_TTL_SECS {
                Some(usage)
            } else {
                None
            },
            None => None,
        }
    }

    /// The message with which an action that acts is refused for its usage.
    pub open spec fn over_limit(self, usage: UsageData) -> Option<Seq<char>> {
        if self.monthly_tweet_cap is Some && usage.project_usage >= self.monthly_tweet_cap->0 {
            Some(
                "X API monthly tweet cap reached: "@ + decimal(usage.project_usage as nat) + "/"@
                    + decimal(self.monthly_tweet_cap->0 as nat)
                    + " tweets used (local limit). Increase x.usage.monthly_tweet_cap in config to allow more."@,
            )
        } else if usage.project_cap > 0 && usage.project_usage >= usage.project_cap {
            Some(
                "X API project cap reached: "@ + decimal(usage.project_usage as nat) + "/"@
                    + decimal(usage.project_cap as nat)
                    + " tweets used. Wait for cap reset or upgrade your plan."@,
            )
        } else {
            None
        }
    }

    /// The request that fetches the usage data.
    pub open spec fn usage_request(self) -> Result<RequestModel, Seq<char>> {
        self.read_request(
            X_API_BASE@
                + "/usage/tweets?usage.fields=project_usage,project_cap,cap_reset_day"@,
        )
    }

    /// `list_tweets`
    pub open spec fn list_tweets(self, user_id: Seq<char>, max_results: u64) -> Result<
        RequestModel,
        Seq<char>,
    > {
        self.read_request(
            X_API_BASE@ + "/users/"@ + user_id + "/tweets?max_results="@ + decimal(
                max_results as nat,
            ) + tweet_fields(),
        )
    }

    /// `get_mentions`
    pub open spec fn get_mentions(self, user_id: Seq<char>, max_results: u64) -> Result<
        RequestModel,
        Seq<char>,
    > {
        self.read_request(
            X_API_BASE@ + "/users/"@ + user_id + "/mentions?max_results="@ + decimal(
                max_results as nat,
            ) + tweet_fields(),
        )
    }

    /// `create_post`
    pub open spec fn create_post(self, text: Seq<char>) -> Result<RequestModel, Seq<char>> {
        self.write_request(Method::Post, X_API_BASE@ + "/tweets"@, Some(post_body(text)))
    }

    /// `reply_to_post`
    pub open spec fn reply_to_post(self, tweet_id: Seq<char>, text: Seq<char>) -> Result<
        RequestModel,
        Seq<char>,
    > {
        self.write_request(
            Method::Post,
            X_API_BASE@ + "/tweets"@,
            Some(post_reply_body(tweet_id, text)),
        )
    }

    /// `follow_user`
    pub open spec fn follow_user(self, target: Seq<char>) -> Result<RequestModel, Seq<char>> {
        self.write_request(
            Method::Post,
            X_API_BASE@ + "/users/"@ + self.user_id + "/following"@,
            Some(follow_body(target)),
        )
    }

    /// `unfollow_user`
    pub open spec fn unfollow_user(self, target: Seq<char>) -> Result<RequestModel, Seq<char>> {
        self.write_request(
            Method::Delete,
            X_API_BASE@ + "/users/"@ + self.user_id + "/following/"@ + target,
            None,
        )
    }

    /// `get_usage`
    pub open spec fn get_usage(self, days: u64) -> Result<RequestModel, Seq<char>> {
        self.read_request(
            X_API_BASE@ + "/usage/tweets?days="@ + decimal(days as nat)
                + "&usage.fields=project_usage,project_cap,cap_reset_day,daily_project_usage"@,
        )
    }

    /// What an action does with its arguments.
    pub open spec fn dispatch(self, action: Seq<char>, args: JsonModel) -> XStepModel {
        let max_results = clamped(number_or(args, "max_results"@, 10), 5, 100);
        if action == "list_tweets"@ {
            match self.user(args) {
                Some(user_id) => x_sent(action, self.list_tweets(user_id, max_results)),
                None => x_failed(
                    "list_tweets requires user_id parameter or x.user_id in config"@,
                ),
            }
        } else if action == "get_mentions"@ {
            match self.user(args) {
                Some(user_id) => x_sent(action, self.get_mentions(user_id, max_results)),
                None => x_failed(
                    "get_mentions requires user_id parameter or x.user_id in config"@,
                ),
            }
        } else if action == "search_tweets"@ {
            match text_at(args, "query"@) {
                Some(query) => x_sent(
                    action,
                    self.read_request(
                        search_url(
                            query,
                            max_results,
                            text_at(args, "sort_order"@),
                            text_at(args, "start_time"@),
                            text_at(args, "end_time"@),
                        ),
                    ),
                ),
                None => x_failed("search_tweets requires query parameter"@),
            }
        } else if action == "create_post"@ {
            match text_at(args, "text"@) {
                Some(text) => x_sent(action, self.create_post(text)),
                None => x_failed("create_post requires text parameter"@),
            }
        } else if action == "reply_to_post"@ {
            match text_at(args, "tweet_id"@) {
                Some(tweet_id) => match text_at(args, "text"@) {
                    Some(text) => x_sent(action, self.reply_to_post(tweet_id, text)),
                    None => x_failed("reply_to_post requires text parameter"@),
                },
                None => x_failed("reply_to_post requires tweet_id parameter"@),
            }
        } else if action == "follow_user"@ {
            if self.user_id.len() == 0 {
                x_failed("follow_user requires x.user_id in config (source user)"@)
            } else {
                match text_at(args, "target_user_id"@) {
                    Some(target) => x_sent(action, self.follow_user(target)),
                    None => x_failed("follow_user requires target_user_id parameter"@),
                }
            }
        } else if action == "unfollow_user"@ {
            if self.user_id.len() == 0 {
                x_failed("unfollow_user requires x.user_id in config (source user)"@)
            } else {
                match text_at(args, "target_user_id"@) {
                    Some(target) => x_sent(action, self.unfollow_user(target)),
                    None => x_failed("unfollow_user requires target_user_id parameter"@),
                }
            }
        } else {
            x_sent(action, self.get_usage(clamped(number_or(args, "days"@, 7), 1, 90)))
        }
    }

    /// Whether a call is refused before the policy is asked, or what kind of
    /// operation it is.
    pub open spec fn admission(self, args: JsonModel) -> AdmissionModel {
        match text_at(args, "action"@) {
            None => AdmissionModel::Refused(error_model("Missing required parameter: action"@)),
            Some(action) => match x_operation(action) {
                None => AdmissionModel::Refused(
                    error_model(
                        "Unknown action: "@ + action
                            + ". Valid actions: list_tweets, get_mentions, search_tweets, create_post, reply_to_post, follow_user, unfollow_user, get_usage"@,
                    ),
                ),
                Some(operation) => if !self.allowed_actions.contains(action) {
                    AdmissionModel::Refused(
                        error_model(
                            "Action '"@ + action
                                + "' is not enabled. Add it to x.allowed_actions in config.toml. Currently allowed: "@
                                + joined(self.allowed_actions, ", "@),
                        ),
                    )
                } else {
                    AdmissionModel::Granted(operation)
                },
            },
        }
    }

    /// What a call does once its usage is known: it is refused where a limit is
    /// reached. Where the usage is not known, it goes on.
    pub open spec fn limited(
        self,
        action: Seq<char>,
        args: JsonModel,
        usage: Option<UsageData>,
    ) -> XStepModel {
        match usage {
            Some(usage) => match self.over_limit(usage) {
                Some(message) => x_failed(message),
                None => self.dispatch(action, args),
            },
            None => self.dispatch(action, args),
        }
    }

    /// What a call does first, once the policy has been asked.
    pub open spec fn execution(
        self,
        args: JsonModel,
        refusal: Option<Seq<char>>,
        now: u128,
    ) -> XStepModel {
        match self.admission(args) {
            AdmissionModel::Refused(result) => XStepModel::Done(result),
            AdmissionModel::Granted(operation) => match refusal {
                Some(error) => x_failed(error),
                None => {
                    let action = text_at(args, "action"@)->0;
                    if operation == ToolOperation::Act && self.check_before_action {
                        if self.fresh_usage(now) is Some {
                            self.limited(action, args, self.fresh_usage(now))
                        } else {
                            match self.usage_request() {
                                Ok(request) => XStepModel::FetchUsage(request),
                                Err(_) => self.dispatch(action, args),
                            }
                        }
                    } else {
                        self.dispatch(action, args)
                    }
                },
            },
        }
    }

    /// The tool once usage data was asked for: what was answered is kept.
    pub open spec fn with_usage(
        self,
        answer: Result<JsonModel, Seq<char>>,
        now: u128,
    ) -> XToolModel {
        match answer {
            Ok(body) => XToolModel { cached_usage: Some((now, usage_of(body))), ..self },
            Err(_) => self,
        }
    }

    /// What a call does once usage data was asked for.
    pub open spec fn after_usage(
        self,
        args: JsonModel,
        answer: Result<JsonModel, Seq<char>>,
    ) -> XStepModel {
        match self.admission(args) {
            AdmissionModel::Refused(result) => XStepModel::Done(result),
            AdmissionModel::Granted(_) => self.limited(
                text_at(args, "action"@)->0,
                args,
                match answer {
                    Ok(body) => Some(usage_of(body)),
                    Err(_) => None,
                },
            ),
        }
    }
}

/// The parameters of the tool.
pub open spec fn x_properties() -> Map<Seq<char>, JsonModel> {
    Map::empty().insert("action"@, choice_model(x_actions(), "The X API action to perform"@)).insert(
        "user_id"@,
        string_model("X user ID (numeric). Defaults to configured user_id if omitted."@),
    ).insert(
        "query"@,
        string_model("Search query for search_tweets (supports X search operators)"@),
    ).insert(
        "text"@,
        string_model("Post text content (for create_post and reply_to_post)"@),
    ).insert(
        "tweet_id"@,
        string_model("Tweet ID to reply to (for reply_to_post)"@),
    ).insert(
        "target_user_id"@,
        string_model("User ID to follow or unfollow"@),
    ).insert(
        "sort_order"@,
        choice_model(seq!["recency"@, "relevancy"@], "Sort order for search results"@),
    ).insert(
        "start_time"@,
        string_model("Oldest date for search results (ISO 8601, e.g. 2026-03-20T00:00:00Z)"@),
    ).insert(
        "end_time"@,
        string_model("Newest date for search results (ISO 8601, e.g. 2026-03-23T23:59:59Z)"@),
    ).insert(
        "max_results"@,
        range_model(5, 100, "Maximum number of results (default: 10)"@),
    ).insert(
        "days"@,
        range_model(1, 90, "Number of days of usage history for get_usage (default: 7)"@),
    )
}

/// What the reply to a request means, given the value that its body stands for.
pub fn answer_of(label: &str, reply: &Result<HttpReply, String>, body: Option<Json>) -> (answer:
    Result<Json, String>)
    ensures
        json_result(answer) == x_answer(
            label@,
            reply_model(*reply),
            match body {
                Some(value) => Some(value@),
                None => None,
            },
        ),
{
    let reply = match reply {
        Ok(reply) => reply,
        Err(error) => {
            return Err(error.clone());
        },
    };
    if !reply.is_success() {
        let shortened = truncate_with_ellipsis(reply.body.as_str(), MAX_ERROR_BODY_CHARS);
        let opening = cat5("X ", label, " failed (", reply.status.as_str(), "): ");
        return Err(cat2(opening.as_str(), shortened.as_str()));
    }
    match body {
        Some(value) => Ok(value),
        None => Err("error decoding response body".to_string()),
    }
}

/// What the reply to a request means.
pub fn handle_response(label: &str, reply: Result<HttpReply, String>) -> (answer: Result<
    Json,
    String,
>)
    ensures
        json_result(answer) == x_answer(label@, reply_model(reply), x_body(reply_model(reply))),
{
    let body = match &reply {
        Ok(reply) => parse_json(reply.body.as_str()).ok(),
        Err(_) => None,
    };
    answer_of(label, &reply, body)
}

impl XTool {
    /// Create a new X tool.
    ///
    /// - `bearer_token`: app-only auth for read endpoints and usage.
    /// - `access_token`: OAuth 2.0 user token for write endpoints.
    /// - `user_id`: the authenticated user's numeric X ID.
    /// - `allowed_actions`: which actions the agent may call.
    /// - `monthly_tweet_cap`: local cap on tweet reads (if set, enforced via usage API).
    /// - `warn_at_percent`: log warning when usage hits this % of cap.
    /// - `check_before_action`: whether to query usage API before write actions.
    pub fn new(
        bearer_token: String,
        access_token: String,
        user_id: String,
        allowed_actions: Vec<String>,
        monthly_tweet_cap: Option<u64>,
        warn_at_percent: u8,
        check_before_action: bool,
    ) -> (tool: Self)
        ensures
            tool@ == (XToolModel {
                bearer_token: bearer_token@,
                access_token: access_token@,
                user_id: user_id@,
                allowed_actions: texts(allowed_actions@),
                monthly_tweet_cap,
                warn_at_percent,
                check_before_action,
                cached_usage: None,
            }),
    {
        XTool {
            bearer_token,
            access_token,
            user_id,
            allowed_actions,
            monthly_tweet_cap,
            warn_at_percent,
            check_before_action,
            cached_usage: None,
        }
    }

    /// Whether an action may be called.
    pub fn is_action_allowed(&self, action: &str) -> (allowed: bool)
        ensures
            allowed == self@.allowed_actions.contains(action@),
    {
        is_listed(&self.allowed_actions, action)
    }

    /// Build the headers for the bearer token (read endpoints + usage).
    pub fn bearer_auth(&self) -> (headers: Result<Vec<(String, String)>, String>)
        ensures
            headers_result(headers) == self@.bearer_headers(),
    {
        let value = cat2("Bearer ", self.bearer_token.as_str());
        if let Some(error) = check_header_value(value.as_str()) {
            return Err(cat2("Invalid X bearer token header value: ", error.as_str()));
        }
        let mut headers: Vec<(String, String)> = Vec::new();
        headers.push(("Authorization".to_string(), value));
        assert(pair_texts(headers@) =~= seq![bearer_header(self@.bearer_token)]);
        Ok(headers)
    }

    /// Build the headers for the OAuth 2.0 user token (write endpoints).
    pub fn oauth_auth(&self) -> (headers: Result<Vec<(String, String)>, String>)
        ensures
            headers_result(headers) == self@.oauth_headers(),
    {
        let value = cat2("Bearer ", self.access_token.as_str());
        if let Some(error) = check_header_value(value.as_str()) {
            return Err(cat2("Invalid X access token header value: ", error.as_str()));
        }
        let mut headers: Vec<(String, String)> = Vec::new();
        headers.push(("Authorization".to_string(), value));
        headers.push(("Content-Type".to_string(), "application/json".to_string()));
        assert(pair_texts(headers@) =~= seq![
            bearer_header(self@.access_token),
            ("Content-Type"@, "application/json"@),
        ]);
        Ok(headers)
    }

    fn read_request(&self, url: String) -> (request: Result<HttpRequest, String>)
        ensures
            request_result(request) == self@.read_request(url@),
    {
        match self.bearer_auth() {
            Ok(headers) => Ok(
                HttpRequest::with_headers(
                    Method::Get,
                    url,
                    headers,
                    Some(X_REQUEST_TIMEOUT_SECS),
                ),
            ),
            Err(error) => Err(error),
        }
    }

    fn write_request(&self, method: Method, url: String, body: Option<Json>) -> (request: Result<
        HttpRequest,
        String,
    >)
        ensures
            request_result(request) == self@.write_request(
                method,
                url@,
                match body {
                    Some(value) => Some(value@),
                    None => None,
                },
            ),
    {
        match self.oauth_auth() {
            Ok(headers) => {
                let request = HttpRequest::with_headers(
                    method,
                    url,
                    headers,
                    Some(X_REQUEST_TIMEOUT_SECS),
                );
                match body {
                    Some(body) => Ok(request.with_body(body)),
                    None => Ok(request),
                }
            },
            Err(error) => Err(error),
        }
    }

    /// The request that fetches the usage data.
    pub fn fetch_usage(&self) -> (request: Result<HttpRequest, String>)
        ensures
            request_result(request) == self@.usage_request(),
    {
        self.read_request(
            cat2(
                X_API_BASE,
                "/usage/tweets?usage.fields=project_usage,project_cap,cap_reset_day",
            ),
        )
    }

    /// The usage data, if it was fetched less than five minutes before `now`.
    pub fn fresh_usage(&self, now: u128) -> (usage: Option<UsageData>)
        ensures
            usage == self@.fresh_usage(now),
    {
        match self.cached_usage {
            Some((fetched_at, usage)) => {
                let elapsed: u128 = if now < fetched_at {
                    0
                } else {
                    (now - fetched_at) / NANOS_PER_SEC
                };
                if elapsed < USAGE_CACHE_TTL_SECS as u128 {
                    Some(usage)
                } else {
                    None
                }
            },
            None => None,
        }
    }

    /// Check the usage against the limits. Returns an error message if a limit
    /// is reached.
    pub fn check_usage_limits(&self, usage: &UsageData) -> (message: Option<String>)
        ensures
            crate::text::opt_string(message) == self@.over_limit(*usage),
    {
        if let Some(local_cap) = self.monthly_tweet_cap {
            if usage.project_usage >= local_cap {
                let used = u64_text(usage.project_usage);
                let cap = u64_text(local_cap);
                return Some(
                    cat5(
                        "X API monthly tweet cap reached: ",
                        used.as_str(),
                        "/",
                        cap.as_str(),
                        " tweets used (local limit). Increase x.usage.monthly_tweet_cap in config to allow more.",
                    ),
                );
            }
        }
        if usage.project_cap > 0 && usage.project_usage >= usage.project_cap {
            let used = u64_text(usage.project_usage);
            let cap = u64_text(usage.project_cap);
            return Some(
                cat5(
                    "X API project cap reached: ",
                    used.as_str(),
                    "/",
                    cap.as_str(),
                    " tweets used. Wait for cap reset or upgrade your plan.",
                ),
            );
        }
        None
    }

    /// The cap that usage is to be warned against: the local one, or else that of
    /// the project.
    pub fn effective_cap(&self, usage: &UsageData) -> (cap: u64)
        ensures
            cap == match self@.monthly_tweet_cap {
                Some(local_cap) => local_cap,
                None => usage.project_cap,
            },
    {
        match self.monthly_tweet_cap {
            Some(local_cap) => local_cap,
            None => usage.project_cap,
        }
    }

    /// The percentage of the cap at which usage is to be warned of.
    pub fn warn_at_percent(&self) -> (percent: u8)
        ensures
            percent == self@.warn_at_percent,
    {
        self.warn_at_percent
    }

    /// The usage data that was last fetched.
    pub fn cached_usage(&self) -> (usage: Option<UsageData>)
        ensures
            usage == match self@.cached_usage {
                Some((_, usage)) => Some(usage),
                None => None,
            },
    {
        match self.cached_usage {
            Some((_, usage)) => Some(usage),
            None => None,
        }
    }

    /// Resolve the user_id to use: from args if provided, otherwise from config.
    pub fn resolve_user_id<'a>(&'a self, args: &'a Json) -> (user_id: Option<&'a str>)
        ensures
            opt_str(user_id) == self@.user(args@),
    {
        match args.str_at("user_id") {
            Some(user_id) => Some(user_id),
            None => if self.user_id.as_str().is_empty() {
                None
            } else {
                Some(self.user_id.as_str())
            },
        }
    }

    /// GET /2/users/{id}/tweets
    pub fn list_tweets(&self, user_id: &str, max_results: u64) -> (request: Result<
        HttpRequest,
        String,
    >)
        ensures
            request_result(request) == self@.list_tweets(user_id@, max_results),
    {
        let limit = u64_text(max_results);
        let path = cat5(X_API_BASE, "/users/", user_id, "/tweets?max_results=", limit.as_str());
        self.read_request(
            cat2(
                path.as_str(),
                "&tweet.fields=created_at,public_metrics,author_id,conversation_id",
            ),
        )
    }

    /// GET /2/users/{id}/mentions
    pub fn get_mentions(&self, user_id: &str, max_results: u64) -> (request: Result<
        HttpRequest,
        String,
    >)
        ensures
            request_result(request) == self@.get_mentions(user_id@, max_results),
    {
        let limit = u64_text(max_results);
        let path = cat5(X_API_BASE, "/users/", user_id, "/mentions?max_results=", limit.as_str());
        self.read_request(
            cat2(
                path.as_str(),
                "&tweet.fields=created_at,public_metrics,author_id,conversation_id",
            ),
        )
    }

    /// GET /2/tweets/search/recent
    pub fn search_tweets(
        &self,
        query: &str,
        max_results: u64,
        sort_order: Option<&str>,
        start_time: Option<&str>,
        end_time: Option<&str>,
    ) -> (request: Result<HttpRequest, String>)
        ensures
            request_result(request) == self@.read_request(
                search_url(
                    query@,
                    max_results,
                    opt_str(sort_order),
                    opt_str(start_time),
                    opt_str(end_time),
                ),
            ),
    {
        let encoded = url_encode(query);
        let limit = u64_text(max_results);
        let path = cat5(
            X_API_BASE,
            "/tweets/search/recent?query=",
            encoded.as_str(),
            "&max_results=",
            limit.as_str(),
        );
        let base = cat2(
            path.as_str(),
            "&tweet.fields=created_at,public_metrics,author_id,conversation_id&expansions=author_id&user.fields=username,name",
        );
        let ordered = match sort_order {
            Some(order) => cat3(base.as_str(), "&sort_order=", order),
            None => base,
        };
        assert(ordered@ =~= base@ + url_part("&sort_order="@, opt_str(sort_order)));
        let started = match start_time {
            Some(start) => cat3(ordered.as_str(), "&start_time=", url_encode(start).as_str()),
            None => ordered,
        };
        assert(started@ =~= ordered@ + url_part("&start_time="@, opt_encoded(opt_str(start_time))));
        let url = match end_time {
            Some(end) => cat3(started.as_str(), "&end_time=", url_encode(end).as_str()),
            None => started,
        };
        assert(url@ =~= started@ + url_part("&end_time="@, opt_encoded(opt_str(end_time))));
        self.read_request(url)
    }

    /// POST /2/tweets
    pub fn create_post(&self, text: &str) -> (request: Result<HttpRequest, String>)
        ensures
            request_result(request) == self@.create_post(text@),
    {
        let mut body = JsonObject::new();
        body.set_text("text", text);
        self.write_request(Method::Post, cat2(X_API_BASE, "/tweets"), Some(body.into_json()))
    }

    /// POST /2/tweets (with reply)
    pub fn reply_to_post(&self, tweet_id: &str, text: &str) -> (request: Result<
        HttpRequest,
        String,
    >)
        ensures
            request_result(request) == self@.reply_to_post(tweet_id@, text@),
    {
        let mut reply = JsonObject::new();
        reply.set_text("in_reply_to_tweet_id", tweet_id);
        let mut body = JsonObject::new();
        body.set_text("text", text);
        body.set("reply", reply.into_json());
        self.write_request(Method::Post, cat2(X_API_BASE, "/tweets"), Some(body.into_json()))
    }

    /// POST /2/users/{id}/following
    pub fn follow_user(&self, target_user_id: &str) -> (request: Result<HttpRequest, String>)
        ensures
            request_result(request) == self@.follow_user(target_user_id@),
    {
        let mut body = JsonObject::new();
        body.set_text("target_user_id", target_user_id);
        let url = cat4(X_API_BASE, "/users/", self.user_id.as_str(), "/following");
        self.write_request(Method::Post, url, Some(body.into_json()))
    }

    /// DELETE /2/users/{source}/following/{target}
    pub fn unfollow_user(&self, target_user_id: &str) -> (request: Result<HttpRequest, String>)
        ensures
            request_result(request) == self@.unfollow_user(target_user_id@),
    {
        let url = cat5(
            X_API_BASE,
            "/users/",
            self.user_id.as_str(),
            "/following/",
            target_user_id,
        );
        self.write_request(Method::Delete, url, None)
    }

    /// GET /2/usage/tweets
    pub fn get_usage(&self, days: u64) -> (request: Result<HttpRequest, String>)
        ensures
            request_result(request) == self@.get_usage(days),
    {
        let number = u64_text(days);
        self.read_request(
            cat4(
                X_API_BASE,
                "/usage/tweets?days=",
                number.as_str(),
                "&usage.fields=project_usage,project_cap,cap_reset_day,daily_project_usage",
            ),
        )
    }

    fn dispatch(&self, action: &str, args: &Json) -> (step: XStep)
        ensures
            step@ == self@.dispatch(action@, args@),
    {
        let max_results: u64 = clamp(args.u64_or("max_results", 10), 5, 100);
        if same(action, "list_tweets") {
            match self.resolve_user_id(args) {
                Some(user_id) => send(action, self.list_tweets(user_id, max_results)),
                None => fail_with("list_tweets requires user_id parameter or x.user_id in config"),
            }
        } else if same(action, "get_mentions") {
            match self.resolve_user_id(args) {
                Some(user_id) => send(action, self.get_mentions(user_id, max_results)),
                None => fail_with("get_mentions requires user_id parameter or x.user_id in config"),
            }
        } else if same(action, "search_tweets") {
            match args.str_at("query") {
                Some(query) => send(
                    action,
                    self.search_tweets(
                        query,
                        max_results,
                        args.str_at("sort_order"),
                        args.str_at("start_time"),
                        args.str_at("end_time"),
                    ),
                ),
                None => fail_with("search_tweets requires query parameter"),
            }
        } else if same(action, "create_post") {
            match args.str_at("text") {
                Some(text) => send(action, self.create_post(text)),
                None => fail_with("create_post requires text parameter"),
            }
        } else if same(action, "reply_to_post") {
            match args.str_at("tweet_id") {
                Some(tweet_id) => match args.str_at("text") {
                    Some(text) => send(action, self.reply_to_post(tweet_id, text)),
                    None => fail_with("reply_to_post requires text parameter"),
                },
                None => fail_with("reply_to_post requires tweet_id parameter"),
            }
        } else if same(action, "follow_user") {
            if self.user_id.as_str().is_empty() {
                fail_with("follow_user requires x.user_id in config (source user)")
            } else {
                match args.str_at("target_user_id") {
                    Some(target) => send(action, self.follow_user(target)),
                    None => fail_with("follow_user requires target_user_id parameter"),
                }
            }
        } else if same(action, "unfollow_user") {
            if self.user_id.as_str().is_empty() {
                fail_with("unfollow_user requires x.user_id in config (source user)")
            } else {
                match args.str_at("target_user_id") {
                    Some(target) => send(action, self.unfollow_user(target)),
                    None => fail_with("unfollow_user requires target_user_id parameter"),
                }
            }
        } else {
            send(action, self.get_usage(clamp(args.u64_or("days", 7), 1, 90)))
        }
    }

    fn limited(&self, action: &str, args: &Json, usage: Option<UsageData>) -> (step: XStep)
        ensures
            step@ == self@.limited(action@, args@, usage),
    {
        if let Some(usage) = usage {
            if let Some(message) = self.check_usage_limits(&usage) {
                return XStep::Done(ToolResult::error(message));
            }
        }
        self.dispatch(action, args)
    }

    /// The name of the tool.
    pub fn name(&self) -> (name: &str)
        ensures
            name@ == "x"@,
    {
        "x"
    }

    /// What the tool is for.
    pub fn description(&self) -> (description: &str)
        ensures
            description@
                == "Interact with X (Twitter): list tweets, search posts, create/reply to posts, follow/unfollow users, and monitor API usage."@,
    {
        "Interact with X (Twitter): list tweets, search posts, create/reply to posts, follow/unfollow users, and monitor API usage."
    }

    /// The parameters of the tool, as a JSON schema.
    pub fn parameters_schema(&self) -> (schema: Json)
        ensures
            schema@ == schema_model(x_properties()),
    {
        let actions: Vec<&str> = vec![
            "list_tweets",
            "get_mentions",
            "search_tweets",
            "create_post",
            "reply_to_post",
            "follow_user",
            "unfollow_user",
            "get_usage",
        ];
        assert(str_texts(actions@) =~= x_actions());
        let orders: Vec<&str> = vec!["recency", "relevancy"];
        assert(str_texts(orders@) =~= seq!["recency"@, "relevancy"@]);
        let mut properties = JsonObject::new();
        properties.set("action", choice_property(&actions, "The X API action to perform"));
        properties.set(
            "user_id",
            string_property("X user ID (numeric). Defaults to configured user_id if omitted."),
        );
        properties.set(
            "query",
            string_property("Search query for search_tweets (supports X search operators)"),
        );
        properties.set(
            "text",
            string_property("Post text content (for create_post and reply_to_post)"),
        );
        properties.set(
            "tweet_id",
            string_property("Tweet ID to reply to (for reply_to_post)"),
        );
        properties.set(
            "target_user_id",
            string_property("User ID to follow or unfollow"),
        );
        properties.set(
            "sort_order",
            choice_property(&orders, "Sort order for search results"),
        );
        properties.set(
            "start_time",
            string_property("Oldest date for search results (ISO 8601, e.g. 2026-03-20T00:00:00Z)"),
        );
        properties.set(
            "end_time",
            string_property("Newest date for search results (ISO 8601, e.g. 2026-03-23T23:59:59Z)"),
        );
        properties.set(
            "max_results",
            range_property(5, 100, "Maximum number of results (default: 10)"),
        );
        properties.set(
            "days",
            range_property(1, 90, "Number of days of usage history for get_usage (default: 7)"),
        );
        parameter_schema(properties)
    }

    /// The first step of a call: whether it is refused, or for what kind of
    /// operation the policy is to be asked.
    pub fn execute_start(&self, args: &Json) -> (admission: Admission)
        ensures
            admission@ == self@.admission(args@),
    {
        let action = match args.str_at("action") {
            Some(action) => action,
            None => {
                return Admission::Refused(
                    ToolResult::refusal("Missing required parameter: action"),
                );
            },
        };
        let operation = match operation_of(action) {
            Some(operation) => operation,
            None => {
                return Admission::Refused(
                    ToolResult::error(
                        cat3(
                            "Unknown action: ",
                            action,
                            ". Valid actions: list_tweets, get_mentions, search_tweets, create_post, reply_to_post, follow_user, unfollow_user, get_usage",
                        ),
                    ),
                );
            },
        };
        if !self.is_action_allowed(action) {
            let listed = join(&self.allowed_actions, ", ");
            return Admission::Refused(
                ToolResult::error(
                    cat4(
                        "Action '",
                        action,
                        "' is not enabled. Add it to x.allowed_actions in config.toml. Currently allowed: ",
                        listed.as_str(),
                    ),
                ),
            );
        }
        Admission::Granted(operation)
    }

    /// The second step of a call at the time `now`, with what the policy said of
    /// the operation.
    pub fn execute_authorized(&self, args: &Json, verdict: Result<(), String>, now: u128) -> (step:
        XStep)
        ensures
            step@ == self@.execution(args@, verdict_model(verdict), now),
    {
        let operation = match self.execute_start(args) {
            Admission::Refused(result) => {
                return XStep::Done(result);
            },
            Admission::Granted(operation) => operation,
        };
        if let Err(refusal) = verdict {
            return XStep::Done(ToolResult::error(refusal));
        }
        let action = match args.str_at("action") {
            Some(action) => action,
            None => {
                return fail_with("Missing required parameter: action");
            },
        };
        if operation == ToolOperation::Act && self.check_before_action {
            let usage = self.fresh_usage(now);
            if usage.is_some() {
                return self.limited(action, args, usage);
            }
            if let Ok(request) = self.fetch_usage() {
                return XStep::FetchUsage(request);
            }
        }
        self.dispatch(action, args)
    }

    /// What a call does at the time `now` with the answer to its request for
    /// usage data. A failure to get any does not hold it up.
    pub fn execute_usage_answered(
        &mut self,
        args: &Json,
        answer: Result<Json, String>,
        now: u128,
    ) -> (step: XStep)
        ensures
            step@ == old(self)@.after_usage(args@, json_result(answer)),
            final(self)@ == old(self)@.with_usage(json_result(answer), now),
    {
        let usage = match answer {
            Ok(body) => Some(read_usage(&body)),
            Err(_) => None,
        };
        let step = match self.execute_start(args) {
            Admission::Refused(result) => XStep::Done(result),
            Admission::Granted(_) => match args.str_at("action") {
                Some(action) => self.limited(action, args, usage),
                None => fail_with("Missing required parameter: action"),
            },
        };
        if let Some(usage) = usage {
            self.cached_usage = Some((now, usage));
        }
        step
    }

    /// What a call does at the time `now` with the reply to its request for
    /// usage data.
    pub fn execute_usage(&mut self, args: &Json, reply: Result<HttpReply, String>, now: u128) -> (step:
        XStep)
        ensures
            ({
                let answer = x_answer(
                    "usage API"@,
                    reply_model(reply),
                    x_body(reply_model(reply)),
                );
                &&& step@ == old(self)@.after_usage(args@, answer)
                &&& final(self)@ == old(self)@.with_usage(answer, now)
            }),
    {
        self.execute_usage_answered(args, handle_response("usage API", reply), now)
    }

    /// What a call came to, by the reply to the request of its action.
    pub fn execute_reply(&self, action: &str, reply: Result<HttpReply, String>) -> (result:
        ToolResult)
        ensures
            result@ == printed_result(
                x_answer(action@, reply_model(reply), x_body(reply_model(reply))),
            ),
    {
        print_result(handle_response(action, reply))
    }
}

/// The actions that the schema lists are exactly those that the tool knows.
pub proof fn law_schema_lists_the_known_actions(action: Seq<char>)
    ensures
        x_actions().contains(action) <==> x_operation(action) is Some,
        x_actions().len() == 8,
{
    let all = x_actions();
    assert(all[0] == "list_tweets"@);
    assert(all[1] == "get_mentions"@);
    assert(all[2] == "search_tweets"@);
    assert(all[3] == "create_post"@);
    assert(all[4] == "reply_to_post"@);
    assert(all[5] == "follow_user"@);
    assert(all[6] == "unfollow_user"@);
    assert(all[7] == "get_usage"@);
}

/// Nothing is sent unless the action is known, enabled and not refused by the
/// policy; a call that sends nothing has failed.
pub proof fn law_x_requests_are_gated(
    tool: XToolModel,
    args: JsonModel,
    refusal: Option<Seq<char>>,
    now: u128,
)
    ensures
        match tool.execution(args, refusal, now) {
            XStepModel::Done(result) => {
                &&& !result.success
                &&& result.error is Some
                &&& result.output.len() == 0
            },
            _ => {
                &&& text_at(args, "action"@) is Some
                &&& x_operation(text_at(args, "action"@)->0) is Some
                &&& tool.allowed_actions.contains(text_at(args, "action"@)->0)
                &&& refusal is None
            },
        },
{
}

/// An action that acts is not sent while the usage that is known has reached
/// the local cap or the cap of the project, where usage is to be checked.
pub proof fn law_no_action_over_the_cap(
    tool: XToolModel,
    args: JsonModel,
    refusal: Option<Seq<char>>,
    now: u128,
    usage: UsageData,
)
    requires
        tool.check_before_action,
        tool.fresh_usage(now) == Some(usage),
        text_at(args, "action"@) is Some,
        x_acts(text_at(args, "action"@)->0),
        (tool.monthly_tweet_cap is Some && usage.project_usage >= tool.monthly_tweet_cap->0) || (
        usage.project_cap > 0 && usage.project_usage >= usage.project_cap),
    ensures
        tool.execution(args, refusal, now) is Done,
{
    lemma_acts_is_not_reads(text_at(args, "action"@)->0);
}

proof fn lemma_acts_is_not_reads(action: Seq<char>)
    ensures
        x_acts(action) ==> !x_reads(action),
{
    reveal_strlit("list_tweets");
    reveal_strlit("get_mentions");
    reveal_strlit("search_tweets");
    reveal_strlit("get_usage");
    reveal_strlit("create_post");
    reveal_strlit("reply_to_post");
    reveal_strlit("follow_user");
    reveal_strlit("unfollow_user");
    assert(x_acts(action) ==> action[0] == 'c' || action[0] == 'r' || action[0] == 'f' || action[0]
        == 'u');
    assert(x_reads(action) ==> action[0] == 'l' || action[0] == 'g' || action[0] == 's');
}

/// Usage data is asked for only on behalf of an action that acts, is enabled and
/// not refused by the policy, and where usage is to be checked. Once it is
/// answered, the action is sent only where no limit is reached, and fails with
/// the limit otherwise.
pub proof fn law_actions_after_usage_are_gated(
    tool: XToolModel,
    args: JsonModel,
    refusal: Option<Seq<char>>,
    now: u128,
    answer: Result<JsonModel, Seq<char>>,
)
    requires
        tool.execution(args, refusal, now) is FetchUsage,
    ensures
        refusal is None,
        tool.check_before_action,
        tool.admission(args) == AdmissionModel::Granted(ToolOperation::Act),
        tool.after_usage(args, answer) is Send && answer is Ok ==> tool.over_limit(
            usage_of(answer->Ok_0),
        ) is None,
        answer is Ok && tool.over_limit(usage_of(answer->Ok_0)) is Some ==> tool.after_usage(
            args,
            answer,
        ) == x_failed(tool.over_limit(usage_of(answer->Ok_0))->0),
        tool.after_usage(args, answer) !is FetchUsage,
{
}

/// A failure to get usage data does not hold an action up: it goes on as if
/// usage were not checked.
pub proof fn law_usage_failure_does_not_block(
    tool: XToolModel,
    args: JsonModel,
    error: Seq<char>,
    now: u128,
)
    ensures
        tool.after_usage(args, Err(error)) == (XToolModel {
            check_before_action: false,
            ..tool
        }).execution(args, None, now),
        tool.with_usage(Err(error), now) == tool,
{
}

/// Usage data is kept for five minutes: until then it is not fetched again, and
/// then it is.
pub proof fn law_usage_is_cached_for_five_minutes(
    tool: XToolModel,
    body: JsonModel,
    fetched_at: u128,
    now: u128,
)
    requires
        fetched_at <= now,
    ensures
        tool.with_usage(Ok(body), fetched_at).fresh_usage(now) == if now - fetched_at
            < 300 * NANOS_PER_SEC {
            Some(usage_of(body))
        } else {
            None
        },
{
    assert((now - fetched_at) / 1_000_000_000 < 300 <==> now - fetched_at < 300 * 1_000_000_000);
}

/// How many results are asked for, and how many days of usage, is always in
/// range, and what is asked for where it is in range.
pub proof fn law_limits_are_in_range(n: u64)
    ensures
        5 <= clamped(n, 5, 100) <= 100,
        1 <= clamped(n, 1, 90) <= 90,
        5 <= n <= 100 ==> clamped(n, 5, 100) == n,
        1 <= n <= 90 ==> clamped(n, 1, 90) == n,
{
}

/// The user that a call names wins over the configured one.
pub proof fn law_named_user_wins(tool: XToolModel, args: JsonModel)
    ensures
        text_at(args, "user_id"@) is Some ==> tool.user(args) == text_at(args, "user_id"@),
        text_at(args, "user_id"@) is None && tool.user_id.len() > 0 ==> tool.user(args) == Some(
            tool.user_id,
        ),
        text_at(args, "user_id"@) is None && tool.user_id.len() == 0 ==> tool.user(args) is None,
{
}

/// A request is answered well exactly when there is a reply, it reports success,
/// and its body is JSON.
pub proof fn law_answer_needs_a_successful_reply(
    label: Seq<char>,
    reply: Result<ReplyModel, Seq<char>>,
    body: Option<JsonModel>,
)
    ensures
        x_answer(label, reply, body) is Ok <==> reply is Ok && reply->Ok_0.success() && body is Some,
{
}

} // verus!
