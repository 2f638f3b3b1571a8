//! HTTP requests and replies as plain values, and the text that goes into them.
use vstd::prelude::*;
use vstd::utf8::{encode_utf8, is_ascii_chars_encode_utf8};
use crate::json::{Json, JsonModel};
use crate::signature::{hex_value, is_hex};
use crate::text::cat2;

verus! {

/// The method of a request.
#[derive(Debug, Clone, Copy, PartialEq, Eq, Structural)]
pub enum Method {
    Get,
    Post,
    Put,
    Patch,
    Delete,
}

/// A request that is to be sent.
#[derive(Debug)]
pub struct HttpRequest {
    pub method: Method,
    pub url: String,
    pub headers: Vec<(String, String)>,
    pub query: Vec<(String, String)>,
    pub body: Option<Json>,
    pub timeout_secs: Option<u64>,
}

/// What a request says.
#[verifier::ext_equal]
pub struct RequestModel {
    pub method: Method,
    pub url: Seq<char>,
    pub headers: Seq<(Seq<char>, Seq<char>)>,
    pub query: Seq<(Seq<char>, Seq<char>)>,
    pub body: Option<JsonModel>,
    pub timeout_secs: Option<u64>,
}

/// The texts of a list of pairs of strings.
pub open spec fn pair_texts(pairs: Seq<(String, String)>) -> Seq<(Seq<char>, Seq<char>)> {
    Seq::new(pairs.len(), |i: int| (pairs[i].0@, pairs[i].1@))
}

impl View for HttpRequest {
    type V = RequestModel;

    open spec fn view(&self) -> RequestModel {
        RequestModel {
            method: self.method,
            url: self.url@,
            headers: pair_texts(self.headers@),
            query: pair_texts(self.query@),
            body: match self.body {
                Some(body) => Some(body@),
                None => None,
            },
            timeout_secs: self.timeout_secs,
        }
    }
}

/// The reply to a request: its status code, the status as it is displayed, and
/// its body.
#[derive(Debug)]
pub struct HttpReply {
    pub code: u16,
    pub status: String,
    pub body: String,
}

/// What a reply says.
pub struct ReplyModel {
    pub code: u16,
    pub status: Seq<char>,
    pub body: Seq<char>,
}

impl View for HttpReply {
    type V = ReplyModel;

    open spec fn view(&self) -> ReplyModel {
        ReplyModel { code: self.code, status: self.status@, body: self.body@ }
    }
}

impl ReplyModel {
    /// Whether the status code reports success.
    pub open spec fn success(self) -> bool {
        200 <= self.code < 300
    }
}

impl HttpReply {
    /// Whether the status code reports success.
    pub fn is_success(&self) -> (success: bool)
        ensures
            success == self@.success(),
    {
        200 <= self.code && self.code < 300
    }
}

/// What came of a request: a reply, or the text of the error that prevented one.
pub open spec fn reply_model(reply: Result<HttpReply, String>) -> Result<ReplyModel, Seq<char>> {
    match reply {
        Ok(r) => Ok(r@),
        Err(e) => Err(e@),
    }
}

/// What a computation on a reply came to: a value, or the text of an error.
pub open spec fn json_result(result: Result<Json, String>) -> Result<JsonModel, Seq<char>> {
    match result {
        Ok(value) => Ok(value@),
        Err(e) => Err(e@),
    }
}

/// The header that carries a bearer token.
pub open spec fn bearer_header(token: Seq<char>) -> (Seq<char>, Seq<char>) {
    ("Authorization"@, "Bearer "@ + token)
}

/// A request with headers, without query or body.
pub open spec fn header_request(
    method: Method,
    url: Seq<char>,
    headers: Seq<(Seq<char>, Seq<char>)>,
    timeout_secs: Option<u64>,
) -> RequestModel {
    RequestModel { method, url, headers, query: Seq::empty(), body: None, timeout_secs }
}

/// A request with a bearer token, without query or body.
pub open spec fn plain_request(
    method: Method,
    url: Seq<char>,
    token: Seq<char>,
    timeout_secs: Option<u64>,
) -> RequestModel {
    header_request(method, url, seq![bearer_header(token)], timeout_secs)
}

/// A request with a bearer token and a JSON body.
pub open spec fn body_request(
    method: Method,
    url: Seq<char>,
    token: Seq<char>,
    body: JsonModel,
    timeout_secs: Option<u64>,
) -> RequestModel {
    RequestModel { body: Some(body), ..plain_request(method, url, token, timeout_secs) }
}

impl HttpRequest {
    /// A request with headers, without query or body.
    pub fn with_headers(
        method: Method,
        url: String,
        headers: Vec<(String, String)>,
        timeout_secs: Option<u64>,
    ) -> (request: HttpRequest)
        ensures
            request@ == header_request(method, url@, pair_texts(headers@), timeout_secs),
    {
        let request = HttpRequest {
            method,
            url,
            headers,
            query: Vec::new(),
            body: None,
            timeout_secs,
        };
        assert(request@ =~= header_request(method, url@, pair_texts(headers@), timeout_secs));
        request
    }

    /// A request with a bearer token, without query or body.
    pub fn new(method: Method, url: String, token: &str, timeout_secs: Option<u64>) -> (request:
        HttpRequest)
        ensures
            request@ == plain_request(method, url@, token@, timeout_secs),
    {
        let mut headers: Vec<(String, String)> = Vec::new();
        headers.push(("Authorization".to_string(), cat2("Bearer ", token)));
        assert(pair_texts(headers@) =~= seq![bearer_header(token@)]);
        HttpRequest::with_headers(method, url, headers, timeout_secs)
    }

    /// The request with a JSON body.
    pub fn with_body(self, body: Json) -> (request: HttpRequest)
        ensures
            request@ == (RequestModel { body: Some(body@), ..self@ }),
    {
        HttpRequest {
            method: self.method,
            url: self.url,
            headers: self.headers,
            query: self.query,
            body: Some(body),
            timeout_secs: self.timeout_secs,
        }
    }

    /// The request with one more query parameter.
    pub fn with_query(self, key: &str, value: &str) -> (request: HttpRequest)
        ensures
            request@ == (RequestModel { query: self@.query.push((key@, value@)), ..self@ }),
    {
        let ghost before = self@;
        let mut query = self.query;
        query.push((key.to_string(), value.to_string()));
        let request = HttpRequest {
            method: self.method,
            url: self.url,
            headers: self.headers,
            query,
            body: self.body,
            timeout_secs: self.timeout_secs,
        };
        assert(request@ =~= (RequestModel { query: before.query.push((key@, value@)), ..before }));
        request
    }
}

/// Whether a byte may stand in a URL segment as it is.
pub open spec fn unreserved(b: u8) -> bool {
    ||| 0x30 <= b <= 0x39
    ||| 0x41 <= b <= 0x5a
    ||| 0x61 <= b <= 0x7a
    ||| b == 0x2d
    ||| b == 0x2e
    ||| b == 0x5f
    ||| b == 0x7e
}

/// The upper-case hexadecimal digit of a number below 16.
pub open spec fn upper_hex(n: int) -> char {
    if n < 10 {
        (0x30 + n) as char
    } else {
        (0x37 + n) as char
    }
}

/// A byte in percent-encoding.
pub open spec fn percent_byte(b: u8) -> Seq<char> {
    if unreserved(b) {
        seq![b as char]
    } else {
        seq!['%', upper_hex(b as int / 16), upper_hex(b as int % 16)]
    }
}

/// Bytes in percent-encoding.
pub open spec fn percent_encoded(bytes: Seq<u8>) -> Seq<char>
    decreases bytes.len(),
{
    if bytes.len() == 0 {
        Seq::empty()
    } else {
        percent_encoded(bytes.drop_last()) + percent_byte(bytes.last())
    }
}

/// A text in percent-encoding.
pub open spec fn url_encoded(s: Seq<char>) -> Seq<char> {
    percent_encoded(encode_utf8(s))
}

/// `urlencoding::encode`: every byte of the UTF-8 encoding is percent-encoded,
/// except letters, digits and `-`, `_`, `.`, `~`.
#[verifier::external_body]
pub(crate) fn url_encode(s: &str) -> (encoded: String)
    ensures
        encoded@ == url_encoded(s@),
{
    urlencoding::encode(s).into_owned()
}

/// Whether a byte may stand in a header: no control character but the tab.
pub open spec fn header_byte(b: u8) -> bool {
    b >= 32 && b != 127 || b == 9
}

/// Whether a text may stand in a header.
pub open spec fn header_text(s: Seq<char>) -> bool {
    forall|i: int| 0 <= i < encode_utf8(s).len() ==> header_byte(#[trigger] encode_utf8(s)[i])
}

/// `reqwest::header::HeaderValue::from_str`: a text is a header value when none
/// of its bytes is a control character other than a tab, and the error is
/// displayed by a fixed message.
#[verifier::external_body]
pub(crate) fn check_header_value(s: &str) -> (error: Option<String>)
    ensures
        error is None <==> header_text(s@),
        error matches Some(message) ==> message@ == "failed to parse header value"@,
{
    reqwest::header::HeaderValue::from_str(s).err().map(|e| e.to_string())
}

/// Whether a character has no meaning of its own in a URL but to stand for
/// itself or to begin an escape.
pub open spec fn segment_char(c: char) -> bool {
    c == '%' || (c as u32 <= 0x7f && unreserved(c as u8))
}

/// A percent-encoded text stays one path segment: it holds no `/`, and no `?`
/// or `#` that would end the path.
pub proof fn law_encoded_text_is_one_segment(s: Seq<char>)
    ensures
        forall|i: int|
            0 <= i < url_encoded(s).len() ==> {
                &&& segment_char(#[trigger] url_encoded(s)[i])
                &&& url_encoded(s)[i] != '/'
                &&& url_encoded(s)[i] != '?'
                &&& url_encoded(s)[i] != '#'
            },
{
    lemma_percent_encoded_chars(encode_utf8(s));
}

proof fn lemma_percent_encoded_chars(bytes: Seq<u8>)
    ensures
        forall|i: int|
            0 <= i < percent_encoded(bytes).len() ==> {
                &&& segment_char(#[trigger] percent_encoded(bytes)[i])
                &&& percent_encoded(bytes)[i] != '/'
                &&& percent_encoded(bytes)[i] != '?'
                &&& percent_encoded(bytes)[i] != '#'
            },
    decreases bytes.len(),
{
    if bytes.len() > 0 {
        let head = percent_encoded(bytes.drop_last());
        let tail = percent_byte(bytes.last());
        lemma_percent_encoded_chars(bytes.drop_last());
        assert forall|i: int| 0 <= i < percent_encoded(bytes).len() implies {
            &&& segment_char(#[trigger] percent_encoded(bytes)[i])
            &&& percent_encoded(bytes)[i] != '/'
            &&& percent_encoded(bytes)[i] != '?'
            &&& percent_encoded(bytes)[i] != '#'
        } by {
            if i < head.len() {
                assert(percent_encoded(bytes)[i] == head[i]);
            } else {
                assert(percent_encoded(bytes)[i] == tail[i - head.len()]);
            }
        }
    }
}

/// The bytes that a text in percent-encoding stands for. A `%` that no two
/// hexadecimal digits follow stands for itself.
pub open spec fn percent_decoded(text: Seq<char>) -> Seq<u8>
    decreases text.len(),
{
    if text.len() == 0 {
        Seq::empty()
    } else if text[0] == '%' && text.len() >= 3 && is_hex(text[1]) && is_hex(text[2]) {
        seq![(16 * hex_value(text[1]) + hex_value(text[2])) as u8] + percent_decoded(text.skip(3))
    } else {
        encode_utf8(text.take(1)) + percent_decoded(text.skip(1))
    }
}

/// Decoding a text in percent-encoding gives the text back.
pub proof fn law_encoding_is_undone(s: Seq<char>)
    ensures
        percent_decoded(url_encoded(s)) == encode_utf8(s),
{
    lemma_decodes_bytes(encode_utf8(s));
}

proof fn lemma_first_byte(bytes: Seq<u8>)
    requires
        bytes.len() > 0,
    ensures
        percent_encoded(bytes) == percent_byte(bytes[0]) + percent_encoded(bytes.skip(1)),
    decreases bytes.len(),
{
    let rest = bytes.skip(1);
    if bytes.len() == 1 {
        assert(bytes.drop_last() =~= Seq::empty());
        assert(rest =~= Seq::empty());
        assert(percent_encoded(bytes) =~= percent_byte(bytes[0]) + percent_encoded(rest));
    } else {
        lemma_first_byte(bytes.drop_last());
        assert(bytes.drop_last().skip(1) =~= rest.drop_last());
        assert(percent_encoded(bytes) =~= percent_byte(bytes[0]) + percent_encoded(rest));
    }
}

proof fn lemma_decodes_bytes(bytes: Seq<u8>)
    ensures
        percent_decoded(percent_encoded(bytes)) == bytes,
    decreases bytes.len(),
{
    let text = percent_encoded(bytes);
    if bytes.len() == 0 {
        assert(percent_decoded(text) =~= bytes);
    } else {
        let b = bytes[0];
        let rest = bytes.skip(1);
        lemma_first_byte(bytes);
        lemma_decodes_bytes(rest);
        assert(seq![b] + rest =~= bytes);
        if unreserved(b) {
            assert(text.skip(1) =~= percent_encoded(rest));
            assert(text.take(1) =~= seq![b as char]);
            is_ascii_chars_encode_utf8(text.take(1));
            assert(encode_utf8(text.take(1)) =~= seq![b]);
        } else {
            assert(text.skip(3) =~= percent_encoded(rest));
            assert(hex_value(text[1]) == b as int / 16);
            assert(hex_value(text[2]) == b as int % 16);
        }
    }
}

/// Whether a path segment stands for a step in place or a step up.
pub open spec fn dot_segment(s: Seq<char>) -> bool {
    s == "."@ || s == ".."@
}

/// Whether a dot in percent-encoding begins at `i`, which a reader of URLs takes
/// for the dot itself.
pub open spec fn escaped_dot_at(s: Seq<char>, i: int) -> bool {
    0 <= i && i + 2 < s.len() && s[i] == '%' && s[i + 1] == '2' && (s[i + 2] == 'E' || s[i + 2]
        == 'e')
}

/// Whether a text is one path segment that stands for itself: it neither ends
/// the segment nor the path, and it is no step up or in place, written out or
/// in percent-encoding.
pub open spec fn plain_segment(s: Seq<char>) -> bool {
    &&& forall|i: int| 0 <= i < s.len() ==> #[trigger] s[i] != '/' && s[i] != '?' && s[i] != '#'
    &&& forall|i: int| !#[trigger] escaped_dot_at(s, i)
    &&& !dot_segment(s)
}

/// Whether the text from `i` up to `j` is a segment of a path.
pub open spec fn segment_at(path: Seq<char>, i: int, j: int) -> bool {
    &&& 0 <= i <= j <= path.len()
    &&& i == 0 || path[i - 1] == '/'
    &&& j == path.len() || path[j] == '/'
}

/// Whether a text is a path that leads nowhere but down: none of its segments
/// is a step up or in place, written out or in percent-encoding.
pub open spec fn plain_path(path: Seq<char>) -> bool {
    &&& forall|i: int, j: int| #[trigger]
        segment_at(path, i, j) ==> !dot_segment(path.subrange(i, j))
    &&& forall|i: int| !#[trigger] escaped_dot_at(path, i)
    &&& forall|i: int| 0 <= i < path.len() ==> #[trigger] path[i] != '?' && path[i] != '#'
}

/// A text as a path segment: in percent-encoding, which leaves dots as they are.
/// The two texts that would be a step up or in place have their dots encoded
/// twice, as a dot that is encoded once is read as a dot.
pub open spec fn path_segment(s: Seq<char>) -> Seq<char> {
    if s == "."@ {
        "%252E"@
    } else if s == ".."@ {
        "%252E%252E"@
    } else {
        url_encoded(s)
    }
}

/// Whatever a text holds, as a path segment it is one segment, and no step up or
/// in place.
pub proof fn law_path_segment_is_plain(s: Seq<char>)
    ensures
        plain_segment(path_segment(s)),
{
    reveal_strlit(".");
    reveal_strlit("..");
    reveal_strlit("%252E");
    reveal_strlit("%252E%252E");
    assert("%252E"@ =~= seq!['%', '2', '5', '2', 'E']);
    assert("%252E%252E"@ =~= seq!['%', '2', '5', '2', 'E', '%', '2', '5', '2', 'E']);
    if s != "."@ && s != ".."@ {
        law_encoded_text_is_one_segment(s);
        lemma_no_escaped_dot(encode_utf8(s));
        lemma_dots_are_not_encoded();
        law_encoding_keeps_texts_apart(s, "."@);
        law_encoding_keeps_texts_apart(s, ".."@);
    }
}

/// The text that is percent-encoded for a path segment.
spec fn guarded(s: Seq<char>) -> Seq<char> {
    if s == "."@ {
        "%2E"@
    } else if s == ".."@ {
        "%2E%2E"@
    } else {
        s
    }
}

/// Decoding a path segment gives the text back, but for the two texts that would
/// be a step up or in place: for these it gives their dots in percent-encoding.
pub proof fn law_path_segment_is_undone(s: Seq<char>)
    ensures
        !dot_segment(s) ==> percent_decoded(path_segment(s)) == encode_utf8(s),
        s == "."@ ==> percent_decoded(path_segment(s)) == encode_utf8("%2E"@),
        s == ".."@ ==> percent_decoded(path_segment(s)) == encode_utf8("%2E%2E"@),
{
    reveal_strlit(".");
    reveal_strlit("..");
    assert("."@.len() != ".."@.len());
    lemma_escaped_dots_are_encoded();
    law_encoding_is_undone(guarded(s));
}

/// Different texts stay different as path segments, but for a text that is
/// itself nothing but one or two dots in percent-encoding: it shares its segment
/// with the dots.
pub proof fn law_path_segments_stay_apart(a: Seq<char>, b: Seq<char>)
    requires
        a != "%2E"@ && a != "%2E%2E"@,
        b != "%2E"@ && b != "%2E%2E"@,
    ensures
        path_segment(a) == path_segment(b) ==> a == b,
{
    reveal_strlit("%2E");
    reveal_strlit("%2E%2E");
    lemma_escaped_dots_are_encoded();
    law_encoding_keeps_texts_apart(guarded(a), guarded(b));
    assert("%2E"@.len() != "%2E%2E"@.len());
}

proof fn lemma_escaped_dots_are_encoded()
    ensures
        url_encoded("%2E"@) == "%252E"@,
        url_encoded("%2E%2E"@) == "%252E%252E"@,
{
    reveal_strlit("%2E");
    reveal_strlit("%2E%2E");
    reveal_strlit("%252E");
    reveal_strlit("%252E%252E");
    is_ascii_chars_encode_utf8("%2E"@);
    is_ascii_chars_encode_utf8("%2E%2E"@);
    let one = encode_utf8("%2E"@);
    let two = encode_utf8("%2E%2E"@);
    assert(one =~= seq![0x25u8, 0x32u8, 0x45u8]);
    assert(two =~= one + one);
    lemma_three_more(Seq::empty());
    lemma_three_more(one);
    assert(Seq::<u8>::empty() + one =~= one);
    assert(percent_encoded(one) =~= "%252E"@);
    assert(percent_encoded(two) =~= "%252E%252E"@);
}

proof fn lemma_three_more(bytes: Seq<u8>)
    ensures
        percent_encoded(bytes + seq![0x25u8, 0x32u8, 0x45u8]) == percent_encoded(bytes) + seq![
            '%',
            '2',
            '5',
            '2',
            'E',
        ],
{
    reveal_with_fuel(percent_encoded, 4);
    let three = bytes + seq![0x25u8, 0x32u8, 0x45u8];
    assert(three.drop_last() =~= bytes + seq![0x25u8, 0x32u8]);
    assert(three.drop_last().drop_last() =~= bytes + seq![0x25u8]);
    assert(three.drop_last().drop_last().drop_last() =~= bytes);
    assert(percent_byte(0x25) =~= seq!['%', '2', '5']);
    assert(percent_byte(0x32) =~= seq!['2']);
    assert(percent_byte(0x45) =~= seq!['E']);
}

proof fn lemma_dots_are_not_encoded()
    ensures
        url_encoded("."@) == "."@,
        url_encoded(".."@) == ".."@,
{
    reveal_strlit(".");
    reveal_strlit("..");
    is_ascii_chars_encode_utf8("."@);
    is_ascii_chars_encode_utf8(".."@);
    reveal_with_fuel(percent_encoded, 3);
    let one = encode_utf8("."@);
    let two = encode_utf8(".."@);
    assert(one =~= seq![0x2eu8]);
    assert(two =~= seq![0x2eu8, 0x2eu8]);
    assert(one.drop_last() =~= Seq::empty());
    assert(two.drop_last() =~= one);
    assert(percent_byte(0x2e) =~= "."@);
    assert(percent_encoded(one) =~= "."@);
    assert(percent_encoded(two) =~= ".."@);
}

proof fn lemma_no_escaped_dot(bytes: Seq<u8>)
    ensures
        forall|i: int| !#[trigger] escaped_dot_at(percent_encoded(bytes), i),
    decreases bytes.len(),
{
    if bytes.len() > 0 {
        let head = percent_encoded(bytes.drop_last());
        let tail = percent_byte(bytes.last());
        let text = percent_encoded(bytes);
        lemma_no_escaped_dot(bytes.drop_last());
        lemma_percent_not_near_the_end(bytes.drop_last());
        assert(text == head + tail);
        assert forall|i: int| !#[trigger] escaped_dot_at(text, i) by {
            if i + 2 < head.len() {
                assert(!escaped_dot_at(head, i));
            }
        }
    }
}

/// A plain path stays one when a plain segment is put behind it.
pub(crate) proof fn lemma_longer_path(path: Seq<char>, segment: Seq<char>)
    requires
        plain_path(path),
        plain_segment(segment),
    ensures
        plain_path(path + "/"@ + segment),
{
    reveal_strlit("/");
    reveal_strlit(".");
    reveal_strlit("..");
    let longer = path + "/"@ + segment;
    let n: int = path.len() as int;
    assert(longer[n] == '/');
    assert forall|i: int, j: int| #[trigger] segment_at(longer, i, j) implies !dot_segment(
        longer.subrange(i, j),
    ) by {
        if j <= n {
            assert(segment_at(path, i, j));
            assert(longer.subrange(i, j) =~= path.subrange(i, j));
        } else if i > n {
            if i - 1 > n {
                assert(longer[i - 1] == segment[i - 1 - (n + 1)]);
            }
            if j < longer.len() {
                assert(longer[j] == segment[j - (n + 1)]);
            }
            assert(longer.subrange(i, j) =~= segment);
        } else {
            assert(longer.subrange(i, j)[n - i] == '/');
        }
    }
    assert forall|i: int| !#[trigger] escaped_dot_at(longer, i) by {
        if i + 2 < n {
            assert(!escaped_dot_at(path, i));
        } else if i > n {
            assert(!escaped_dot_at(segment, i - (n + 1)));
        }
    }
    assert forall|i: int| 0 <= i < longer.len() implies #[trigger] longer[i] != '?' && longer[i]
        != '#' by {
        if i < n {
            assert(longer[i] == path[i]);
        } else if i > n {
            assert(longer[i] == segment[i - (n + 1)]);
        }
    }
}

/// Different texts stay different in percent-encoding.
pub proof fn law_encoding_keeps_texts_apart(a: Seq<char>, b: Seq<char>)
    ensures
        url_encoded(a) == url_encoded(b) ==> a == b,
{
    if url_encoded(a) == url_encoded(b) {
        lemma_percent_encoded_injective(encode_utf8(a), encode_utf8(b));
        vstd::utf8::encode_utf8_decode_utf8(a);
        vstd::utf8::encode_utf8_decode_utf8(b);
    }
}

proof fn lemma_percent_not_near_the_end(bytes: Seq<u8>)
    ensures
        percent_encoded(bytes).len() >= bytes.len(),
        percent_encoded(bytes).len() >= 1 ==> percent_encoded(bytes).last() != '%',
        percent_encoded(bytes).len() >= 2 ==> percent_encoded(bytes)[percent_encoded(bytes).len()
            - 2] != '%',
    decreases bytes.len(),
{
    if bytes.len() > 0 {
        lemma_percent_not_near_the_end(bytes.drop_last());
    }
}

proof fn lemma_percent_encoded_injective(a: Seq<u8>, b: Seq<u8>)
    requires
        percent_encoded(a) == percent_encoded(b),
    ensures
        a == b,
    decreases a.len(),
{
    lemma_percent_not_near_the_end(a);
    lemma_percent_not_near_the_end(b);
    if a.len() == 0 || b.len() == 0 {
        assert(a =~= b);
    } else {
        let text = percent_encoded(a);
        let head_a = percent_encoded(a.drop_last());
        let head_b = percent_encoded(b.drop_last());
        lemma_percent_not_near_the_end(a.drop_last());
        lemma_percent_not_near_the_end(b.drop_last());
        let tail_a = percent_byte(a.last());
        let tail_b = percent_byte(b.last());
        assert(text == head_a + tail_a && text == head_b + tail_b);
        assert(tail_a.len() == tail_b.len()) by {
            if tail_a.len() == 1 && tail_b.len() == 3 {
                assert(text[text.len() - 3] == '%');
                assert(head_a[head_a.len() - 2] == text[text.len() - 3]);
            }
            if tail_a.len() == 3 && tail_b.len() == 1 {
                assert(text[text.len() - 3] == '%');
                assert(head_b[head_b.len() - 2] == text[text.len() - 3]);
            }
        }
        assert(head_a =~= text.take(text.len() - tail_a.len()));
        assert(head_b =~= text.take(text.len() - tail_b.len()));
        assert(tail_a =~= text.skip(text.len() - tail_a.len()));
        assert(tail_b =~= text.skip(text.len() - tail_b.len()));
        lemma_percent_encoded_injective(a.drop_last(), b.drop_last());
        lemma_percent_byte_injective(a.last(), b.last());
        assert(a =~= a.drop_last().push(a.last()));
        assert(b =~= b.drop_last().push(b.last()));
    }
}

proof fn lemma_percent_byte_injective(a: u8, b: u8)
    requires
        percent_byte(a) == percent_byte(b),
    ensures
        a == b,
{
    if unreserved(a) {
        assert(percent_byte(a).len() == 1 && percent_byte(a)[0] == a as char);
        assert(percent_byte(b)[0] == b as char);
    } else {
        assert(percent_byte(a).len() == 3 && percent_byte(b).len() == 3);
        assert(percent_byte(a)[1] == upper_hex(a as int / 16));
        assert(percent_byte(a)[2] == upper_hex(a as int % 16));
        assert(percent_byte(b)[1] == upper_hex(b as int / 16));
        assert(percent_byte(b)[2] == upper_hex(b as int % 16));
        assert(a as int / 16 == b as int / 16);
        assert(a as int % 16 == b as int % 16);
    }
}

/// A request goes where it is sent to, with its token, and with nothing else;
/// with a body it differs in the body alone.
pub proof fn law_request_says_what_it_is_made_of(
    method: Method,
    url: Seq<char>,
    token: Seq<char>,
    body: JsonModel,
    timeout_secs: Option<u64>,
)
    ensures
        ({
            let plain = plain_request(method, url, token, timeout_secs);
            let full = body_request(method, url, token, body, timeout_secs);
            &&& plain.method == method && full.method == method
            &&& plain.url == url && full.url == url
            &&& plain.headers == seq![("Authorization"@, "Bearer "@ + token)]
            &&& full.headers == plain.headers
            &&& plain.query.len() == 0 && full.query.len() == 0
            &&& plain.body is None && full.body == Some(body)
            &&& plain.timeout_secs == timeout_secs && full.timeout_secs == timeout_secs
        }),
{
}

/// A reply is a success exactly when its code is one of the two hundreds.
pub proof fn law_success_codes(reply: ReplyModel)
    ensures
        reply.success() <==> reply.code / 100 == 2,
{
}

} // verus!
