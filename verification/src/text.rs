//! Text helpers: concatenation, decimal numbers, cutting and joining, each
//! stated over the character sequence that a string holds.
use vstd::prelude::*;
use vstd::string::{StrSliceExecFns, StringExecFns, StringSliceAdditionalSpecFns};
use vstd::utf8::{decode_utf8, encode_utf8, is_char_boundary, valid_utf8};

verus! {

/// `<str as PartialEq>::eq` of the standard library: two string slices are
/// equal exactly when they hold the same characters.
pub assume_specification[ <str as PartialEq>::eq ](s: &str, other: &str) -> (equal: bool)
    ensures
        equal == (s@ == other@),
;

/// The characters that `String::from_utf8_lossy` makes of a byte sequence.
pub uninterp spec fn lossy_text(bytes: Seq<u8>) -> Seq<char>;

/// `String::from_utf8_lossy` of the standard library. The text is determined by
/// the bytes, and bytes that are valid UTF-8 are decoded as they stand. What
/// stands in for an invalid sequence is left to the name.
#[verifier::external_body]
pub(crate) fn text_from_bytes(bytes: &[u8]) -> (text: String)
    ensures
        text@ == lossy_text(bytes@),
        valid_utf8(bytes@) ==> text@ == decode_utf8(bytes@),
{
    String::from_utf8_lossy(bytes).into_owned()
}

/// The characters behind an optional string slice.
pub open spec fn opt_str(value: Option<&str>) -> Option<Seq<char>> {
    match value {
        Some(s) => Some(s@),
        None => None,
    }
}

/// The characters behind an optional owned string.
pub open spec fn opt_string(value: Option<String>) -> Option<Seq<char>> {
    match value {
        Some(s) => Some(s@),
        None => None,
    }
}

/// The first of two optional values that is there.
pub open spec fn first_of(a: Option<Seq<char>>, b: Option<Seq<char>>) -> Option<Seq<char>> {
    match a {
        Some(s) => Some(s),
        None => b,
    }
}

/// The value, or a fallback text.
pub open spec fn text_or(value: Option<Seq<char>>, fallback: Seq<char>) -> Seq<char> {
    match value {
        Some(s) => s,
        None => fallback,
    }
}

/// The character sequences of a list of strings.
pub open spec fn texts(items: Seq<String>) -> Seq<Seq<char>> {
    Seq::new(items.len(), |i: int| items[i]@)
}

/// Whether two strings hold the same characters.
pub fn same(a: &str, b: &str) -> (equal: bool)
    ensures
        equal == (a@ == b@),
{
    *a == *b
}

/// An owned copy of an optional string slice.
pub fn owned(value: Option<&str>) -> (copy: Option<String>)
    ensures
        opt_string(copy) == opt_str(value),
{
    match value {
        Some(s) => Some(s.to_string()),
        None => None,
    }
}

/// A borrowed view of an optional string.
pub fn borrowed(value: &Option<String>) -> (slice: Option<&str>)
    ensures
        opt_str(slice) == opt_string(*value),
{
    match value {
        Some(s) => Some(s.as_str()),
        None => None,
    }
}

/// The first of two optional string slices that is there.
pub fn either<'a>(a: Option<&'a str>, b: Option<&'a str>) -> (slice: Option<&'a str>)
    ensures
        opt_str(slice) == first_of(opt_str(a), opt_str(b)),
{
    match a {
        Some(s) => Some(s),
        None => b,
    }
}

/// The slice, or a fallback.
pub fn or_text<'a>(value: Option<&'a str>, fallback: &'a str) -> (slice: &'a str)
    ensures
        slice@ == text_or(opt_str(value), fallback@),
{
    match value {
        Some(s) => s,
        None => fallback,
    }
}

/// Two texts, one after the other.
pub fn cat2(a: &str, b: &str) -> (text: String)
    ensures
        text@ == a@ + b@,
{
    let mut text = a.to_string();
    text.append(b);
    text
}

/// Three texts, one after the other.
pub fn cat3(a: &str, b: &str, c: &str) -> (text: String)
    ensures
        text@ == a@ + b@ + c@,
{
    let mut text = cat2(a, b);
    text.append(c);
    text
}

/// Four texts, one after the other.
pub fn cat4(a: &str, b: &str, c: &str, d: &str) -> (text: String)
    ensures
        text@ == a@ + b@ + c@ + d@,
{
    let mut text = cat3(a, b, c);
    text.append(d);
    text
}

/// Five texts, one after the other.
pub fn cat5(a: &str, b: &str, c: &str, d: &str, e: &str) -> (text: String)
    ensures
        text@ == a@ + b@ + c@ + d@ + e@,
{
    let mut text = cat4(a, b, c, d);
    text.append(e);
    text
}

/// The texts joined by a separator.
pub open spec fn joined(parts: Seq<Seq<char>>, separator: Seq<char>) -> Seq<char>
    decreases parts.len(),
{
    if parts.len() == 0 {
        Seq::empty()
    } else if parts.len() == 1 {
        parts[0]
    } else {
        joined(parts.drop_last(), separator) + separator + parts.last()
    }
}

/// Joins strings with a separator between each two.
pub fn join(parts: &Vec<String>, separator: &str) -> (text: String)
    ensures
        text@ == joined(texts(parts@), separator@),
{
    let mut text = String::new();
    let mut i: usize = 0;
    let ghost all = texts(parts@);
    while i < parts.len()
        invariant
            i <= parts.len(),
            all == texts(parts@),
            text@ == joined(all.take(i as int), separator@),
        decreases parts.len() - i,
    {
        if i > 0 {
            text.append(separator);
        }
        text.append(parts[i].as_str());
        proof {
            assert(all.take(i + 1).drop_last() =~= all.take(i as int));
            assert(all.take(i + 1).last() == parts@[i as int]@);
            if i == 0 {
                assert(all.take(0) =~= Seq::empty());
                assert(text@ =~= all.take(1)[0]);
            }
        }
        i = i + 1;
    }
    assert(all.take(parts.len() as int) =~= all);
    text
}

/// The characters of a string, in order.
pub fn chars_of(s: &str) -> (chars: Vec<char>)
    ensures
        chars@ == s@,
{
    let mut chars: Vec<char> = Vec::new();
    for c in it: s.chars()
        invariant
            chars@ == s@.take(it.index() as int),
            it.seq() == s@,
    {
        chars.push(c);
        assert(chars@ =~= s@.take(it.index() + 1));
    }
    assert(s@.take(s@.len() as int) =~= s@);
    chars
}

/// Whether a text begins with a given prefix.
pub open spec fn has_prefix(s: Seq<char>, prefix: Seq<char>) -> bool {
    prefix.len() <= s.len() && s.take(prefix.len() as int) == prefix
}

/// What follows a prefix, where the text begins with it.
pub open spec fn after_prefix(s: Seq<char>, prefix: Seq<char>) -> Option<Seq<char>> {
    if has_prefix(s, prefix) {
        Some(s.skip(prefix.len() as int))
    } else {
        None
    }
}

/// What follows `prefix` in `s`, if `s` begins with it.
pub fn strip_prefix<'a>(s: &'a str, prefix: &str) -> (rest: Option<&'a str>)
    ensures
        opt_str(rest) == after_prefix(s@, prefix@),
{
    let n: usize = prefix.unicode_len();
    let len: usize = s.unicode_len();
    if len < n {
        return None;
    }
    let head = s.substring_char(0, n);
    assert(head@ =~= s@.take(n as int));
    if same(head, prefix) {
        let tail = s.substring_char(n, len);
        assert(tail@ =~= s@.skip(n as int));
        Some(tail)
    } else {
        None
    }
}

/// The text of the first `n` bytes of a string.
pub open spec fn byte_prefix(s: Seq<char>, n: int) -> Seq<char> {
    decode_utf8(encode_utf8(s).subrange(0, n))
}

/// Whether a text can be cut to `max` bytes: it is no longer than that, or the
/// cut falls between two characters.
pub open spec fn can_cut(s: Seq<char>, max: int) -> bool {
    encode_utf8(s).len() <= max || is_char_boundary(encode_utf8(s), max)
}

/// The text itself when it has at most `max` bytes, else its first `max` bytes
/// and a mark that something is missing.
pub open spec fn cut(s: Seq<char>, max: int, mark: Seq<char>) -> Seq<char> {
    if encode_utf8(s).len() <= max {
        s
    } else {
        byte_prefix(s, max) + mark
    }
}

/// Whether `s` can be cut to `max` bytes without splitting a character.
pub fn can_truncate(s: &str, max: usize) -> (possible: bool)
    ensures
        possible == can_cut(s@, max as int),
{
    s.as_bytes().len() <= max || s.is_char_boundary(max)
}

/// The text of the first `n` bytes of `s`.
pub fn take_bytes(s: &str, n: usize) -> (head: &str)
    requires
        is_char_boundary(encode_utf8(s@), n as int),
    ensures
        head@ == byte_prefix(s@, n as int),
{
    let (head, tail) = s.split_at(n);
    proof {
        vstd::utf8::encode_utf8_decode_utf8(head@);
        assert(encode_utf8(head@) == encode_utf8(s@).subrange(0, n as int));
    }
    head
}

/// Cuts `s` to `max` bytes, with `mark` behind it where something was cut off.
pub fn cut_text(s: &str, max: usize, mark: &str) -> (text: String)
    requires
        can_cut(s@, max as int),
    ensures
        text@ == cut(s@, max as int, mark@),
{
    if s.as_bytes().len() <= max {
        s.to_string()
    } else {
        cat2(take_bytes(s, max), mark)
    }
}

/// Cuts `s` to `max` bytes, with `...` behind it where something was cut off.
pub fn truncate(s: &str, max: usize) -> (text: String)
    requires
        can_cut(s@, max as int),
    ensures
        text@ == cut(s@, max as int, "..."@),
{
    cut_text(s, max, "...")
}

/// The text itself when it has at most `max` characters, else its first `max`
/// characters and `...`.
pub open spec fn ellipsized(s: Seq<char>, max: int) -> Seq<char> {
    if s.len() <= max {
        s
    } else {
        s.take(max) + "..."@
    }
}

/// Cuts `s` to `max` characters, with `...` behind it where something was cut off.
pub fn truncate_with_ellipsis(s: &str, max: usize) -> (text: String)
    ensures
        text@ == ellipsized(s@, max as int),
{
    if s.unicode_len() <= max {
        s.to_string()
    } else {
        let head = s.substring_char(0, max);
        assert(head@ =~= s@.take(max as int));
        cat2(head, "...")
    }
}

/// The character of a decimal digit.
pub open spec fn digit_char(d: int) -> char {
    (48 + d) as char
}

/// A natural number in decimal digits.
pub open spec fn decimal(n: nat) -> Seq<char>
    decreases n,
{
    if n < 10 {
        seq![digit_char(n as int)]
    } else {
        decimal(n / 10) + seq![digit_char((n % 10) as int)]
    }
}

/// An integer in decimal digits, with a sign where it is negative.
pub open spec fn signed_decimal(n: int) -> Seq<char> {
    if n < 0 {
        seq!['-'] + decimal((-n) as nat)
    } else {
        decimal(n as nat)
    }
}

fn digit_text(d: u64) -> (text: &'static str)
    requires
        d < 10,
    ensures
        text@ == seq![digit_char(d as int)],
{
    proof {
        reveal_strlit("0");
        reveal_strlit("1");
        reveal_strlit("2");
        reveal_strlit("3");
        reveal_strlit("4");
        reveal_strlit("5");
        reveal_strlit("6");
        reveal_strlit("7");
        reveal_strlit("8");
        reveal_strlit("9");
    }
    match d {
        0 => "0",
        1 => "1",
        2 => "2",
        3 => "3",
        4 => "4",
        5 => "5",
        6 => "6",
        7 => "7",
        8 => "8",
        _ => "9",
    }
}

/// Writes a number in decimal.
pub fn u64_text(n: u64) -> (text: String)
    ensures
        text@ == decimal(n as nat),
    decreases n,
{
    if n < 10 {
        digit_text(n).to_string()
    } else {
        let mut text = u64_text(n / 10);
        text.append(digit_text(n % 10));
        text
    }
}

/// Writes a signed number in decimal.
pub fn i64_text(n: i64) -> (text: String)
    ensures
        text@ == signed_decimal(n as int),
{
    if n < 0 {
        proof {
            reveal_strlit("-");
            assert("-"@ =~= seq!['-']);
        }
        let magnitude: u64 = (-(n + 1)) as u64 + 1;
        cat2("-", u64_text(magnitude).as_str())
    } else {
        u64_text(n as u64)
    }
}

/// Whether a character is a decimal digit.
pub open spec fn is_digit(c: char) -> bool {
    '0' <= c <= '9'
}

/// Whether a text is one or more decimal digits.
pub open spec fn all_digits(s: Seq<char>) -> bool {
    s.len() > 0 && forall|i: int| 0 <= i < s.len() ==> is_digit(#[trigger] s[i])
}

/// The number that a sequence of decimal digits stands for.
pub open spec fn digits_value(s: Seq<char>) -> int
    decreases s.len(),
{
    if s.len() == 0 {
        0
    } else {
        digits_value(s.drop_last()) * 10 + (s.last() as int - 48)
    }
}

/// The digits of a number, without a leading sign.
pub open spec fn unsigned_part(s: Seq<char>) -> Seq<char> {
    if s.len() > 0 && (s[0] == '-' || s[0] == '+') {
        s.drop_first()
    } else {
        s
    }
}

/// The 64-bit integer that a text stands for: an optional sign and digits, in
/// range.
pub open spec fn parsed_i64(s: Seq<char>) -> Option<int> {
    let digits = unsigned_part(s);
    let value = if s.len() > 0 && s[0] == '-' {
        -digits_value(digits)
    } else {
        digits_value(digits)
    };
    if all_digits(digits) && i64::MIN <= value <= i64::MAX {
        Some(value)
    } else {
        None
    }
}

proof fn lemma_digits_value_grows(s: Seq<char>, n: int)
    requires
        0 <= n <= s.len(),
        forall|i: int| 0 <= i < s.len() ==> is_digit(#[trigger] s[i]),
    ensures
        0 <= digits_value(s.take(n)) <= digits_value(s),
    decreases s.len(),
{
    if n < s.len() {
        lemma_digits_value_grows(s.drop_last(), n);
        assert(s.drop_last().take(n) =~= s.take(n));
        assert(is_digit(s[s.len() - 1]));
    } else {
        assert(s.take(n) =~= s);
        if s.len() > 0 {
            lemma_digits_value_grows(s.drop_last(), n - 1);
            assert(is_digit(s[s.len() - 1]));
        }
    }
}

/// Reads a signed decimal integer.
pub fn parse_i64(s: &str) -> (number: Option<i64>)
    ensures
        match number {
            Some(n) => parsed_i64(s@) == Some(n as int),
            None => parsed_i64(s@) is None,
        },
{
    let chars = chars_of(s);
    let negative: bool = chars.len() > 0 && chars[0] == '-';
    let start: usize = if chars.len() > 0 && (chars[0] == '-' || chars[0] == '+') {
        1
    } else {
        0
    };
    let ghost digits = unsigned_part(s@);
    assert(digits =~= s@.skip(start as int));
    if start == chars.len() {
        return None;
    }
    let limit: i128 = 9223372036854775808;
    let mut value: i128 = 0;
    let mut i: usize = start;
    assert(digits.take(0) =~= Seq::empty());
    while i < chars.len()
        invariant
            chars@ == s@,
            start <= i <= chars.len(),
            digits == s@.skip(start as int),
            digits == unsigned_part(s@),
            limit == 9223372036854775808,
            0 <= value <= limit,
            value == digits_value(digits.take(i - start)),
            forall|k: int| 0 <= k < i - start ==> is_digit(#[trigger] digits[k]),
        decreases chars.len() - i,
    {
        let c = chars[i];
        let ghost k = i - start;
        assert(digits[k] == c);
        if c < '0' || c > '9' {
            assert(!is_digit(digits[k]));
            return None;
        }
        value = value * 10 + (c as u32 as i128 - 48);
        proof {
            assert(digits.take(k + 1).drop_last() =~= digits.take(k));
        }
        if value > limit {
            proof {
                if all_digits(digits) {
                    lemma_digits_value_grows(digits, k + 1);
                }
            }
            return None;
        }
        i = i + 1;
    }
    proof {
        assert(digits.take(digits.len() as int) =~= digits);
        assert(all_digits(digits));
    }
    if negative {
        Some((-value) as i64)
    } else if value < limit {
        Some(value as i64)
    } else {
        None
    }
}

/// Whether a character has the Unicode property `White_Space`.
pub open spec fn is_white(c: char) -> bool {
    let n = c as u32;
    ||| 0x9 <= n <= 0xd
    ||| n == 0x20
    ||| n == 0x85
    ||| n == 0xa0
    ||| n == 0x1680
    ||| 0x2000 <= n <= 0x200a
    ||| n == 0x2028
    ||| n == 0x2029
    ||| n == 0x202f
    ||| n == 0x205f
    ||| n == 0x3000
}

/// Whether a text is empty but for white space.
pub open spec fn blank(s: Seq<char>) -> bool {
    forall|i: int| 0 <= i < s.len() ==> is_white(#[trigger] s[i])
}

/// Whether `s` is empty but for white space.
pub fn is_blank(s: &str) -> (empty: bool)
    ensures
        empty == blank(s@),
{
    let chars = chars_of(s);
    let mut i: usize = 0;
    while i < chars.len()
        invariant
            chars@ == s@,
            i <= chars.len(),
            forall|k: int| 0 <= k < i ==> is_white(#[trigger] s@[k]),
        decreases chars.len() - i,
    {
        let n: u32 = chars[i] as u32;
        let white: bool = (0x9 <= n && n <= 0xd) || n == 0x20 || n == 0x85 || n == 0xa0
            || n == 0x1680 || (0x2000 <= n && n <= 0x200a) || n == 0x2028 || n == 0x2029
            || n == 0x202f || n == 0x205f || n == 0x3000;
        if !white {
            assert(!is_white(s@[i as int]));
            return false;
        }
        i = i + 1;
    }
    true
}

proof fn lemma_decimal_digits(n: nat)
    ensures
        all_digits(decimal(n)),
        digits_value(decimal(n)) == n,
    decreases n,
{
    let s = decimal(n);
    if n < 10 {
        assert(s.drop_last() =~= Seq::empty());
        assert(is_digit(s[0]));
        assert(digits_value(s.drop_last()) == 0);
    } else {
        lemma_decimal_digits(n / 10);
        assert(s.drop_last() =~= decimal(n / 10));
        assert(s.last() == digit_char((n % 10) as int));
        assert forall|i: int| 0 <= i < s.len() implies is_digit(#[trigger] s[i]) by {
            if i < s.len() - 1 {
                assert(s[i] == decimal(n / 10)[i]);
            }
        }
    }
}

/// A 64-bit integer that is written in decimal is read back as itself.
pub proof fn law_decimal_reads_back(n: int)
    requires
        i64::MIN <= n <= i64::MAX,
    ensures
        parsed_i64(signed_decimal(n)) == Some(n),
{
    let s = signed_decimal(n);
    if n < 0 {
        lemma_decimal_digits((-n) as nat);
        assert(s[0] == '-');
        assert(s.drop_first() =~= decimal((-n) as nat));
    } else {
        lemma_decimal_digits(n as nat);
        assert(is_digit(s[0]));
    }
}

/// A cut text is at most as long, in characters, as what was allowed and the
/// mark, and a text that is short enough is kept.
pub proof fn law_ellipsized_is_bounded(s: Seq<char>, max: nat)
    ensures
        ellipsized(s, max as int).len() <= max + 3,
        s.len() <= max ==> ellipsized(s, max as int) == s,
        s.len() > max ==> has_prefix(s, ellipsized(s, max as int).take(max as int)),
{
    reveal_strlit("...");
    if s.len() > max {
        assert(ellipsized(s, max as int).take(max as int) =~= s.take(max as int));
    }
}

/// A text that fits is kept whole; of one that does not fit, the beginning is
/// kept, and the mark follows it.
pub proof fn law_cut_keeps_the_beginning(s: Seq<char>, max: int, mark: Seq<char>)
    requires
        can_cut(s, max),
        0 <= max,
    ensures
        encode_utf8(s).len() <= max ==> cut(s, max, mark) == s,
        encode_utf8(s).len() > max ==> {
            &&& cut(s, max, mark) == byte_prefix(s, max) + mark
            &&& encode_utf8(byte_prefix(s, max)) == encode_utf8(s).subrange(0, max)
            &&& encode_utf8(byte_prefix(s, max)).len() == max
        },
{
    if encode_utf8(s).len() > max {
        vstd::utf8::encode_utf8_valid_utf8(s);
        vstd::utf8::valid_utf8_split(encode_utf8(s), max);
        vstd::utf8::decode_utf8_encode_utf8(encode_utf8(s).subrange(0, max));
    }
}

/// One text is joined to itself, and lists of texts that are joined one behind
/// the other are joined by the separator.
pub proof fn law_joined_lists(a: Seq<Seq<char>>, b: Seq<Seq<char>>, separator: Seq<char>)
    ensures
        a.len() == 1 ==> joined(a, separator) == a[0],
        a.len() == 0 ==> joined(a, separator).len() == 0,
        a.len() > 0 && b.len() > 0 ==> joined(a + b, separator) == joined(a, separator) + separator
            + joined(b, separator),
    decreases b.len(),
{
    if a.len() > 0 && b.len() > 0 {
        assert((a + b).drop_last() =~= a + b.drop_last());
        assert((a + b).last() == b.last());
        if b.len() == 1 {
            assert(a + b.drop_last() =~= a);
        } else {
            law_joined_lists(a, b.drop_last(), separator);
        }
        assert(joined(a + b, separator) =~= joined(a, separator) + separator + joined(
            b,
            separator,
        ));
    }
}

/// A text has a prefix and a rest exactly when it is the prefix with the rest
/// behind it.
pub proof fn law_prefix_and_rest(s: Seq<char>, prefix: Seq<char>, rest: Seq<char>)
    ensures
        after_prefix(s, prefix) == Some(rest) <==> s == prefix + rest,
        after_prefix(s, prefix) is Some <==> has_prefix(s, prefix),
{
    if after_prefix(s, prefix) == Some(rest) {
        assert(s =~= prefix + rest);
    }
    if s == prefix + rest {
        assert(s.take(prefix.len() as int) =~= prefix);
        assert(s.skip(prefix.len() as int) =~= rest);
    }
}

/// A number in decimal is digits, that stand for the number, and does not begin
/// with a zero unless it is zero.
pub proof fn law_decimal_is_the_number(n: nat)
    ensures
        all_digits(decimal(n)),
        digits_value(decimal(n)) == n,
        n > 0 ==> decimal(n)[0] != '0',
        n == 0 ==> decimal(n) == seq!['0'],
    decreases n,
{
    lemma_decimal_digits(n);
    if n >= 10 {
        law_decimal_is_the_number(n / 10);
        assert(decimal(n)[0] == decimal(n / 10)[0]);
    }
}

/// The first of two texts that is there is taken, and a fallback only where there
/// is none.
pub proof fn law_first_wins(a: Option<Seq<char>>, b: Option<Seq<char>>, fallback: Seq<char>)
    ensures
        a is Some ==> first_of(a, b) == a,
        a is None ==> first_of(a, b) == b,
        a is Some ==> a == Some(text_or(a, fallback)),
        a is None ==> text_or(a, fallback) == fallback,
{
}

/// What is too long by characters is kept up to the limit and marked.
pub proof fn law_ellipsized_is_marked(s: Seq<char>, max: nat)
    requires
        s.len() > max,
    ensures
        ({
            let short = ellipsized(s, max as int);
            &&& short.len() == max + 3
            &&& forall|i: int| 0 <= i < max ==> #[trigger] short[i] == s[i]
            &&& forall|i: int| max <= i < max + 3 ==> #[trigger] short[i] == '.'
        }),
{
    reveal_strlit("...");
}

/// Blanks, tabs and line ends are blank; a text with a printed ASCII character
/// is not.
pub proof fn law_blank_text(s: Seq<char>)
    ensures
        (forall|i: int|
            0 <= i < s.len() ==> #[trigger] s[i] == ' ' || s[i] == '\t' || s[i] == '\n' || s[i]
                == '\r') ==> blank(s),
        (exists|i: int| 0 <= i < s.len() && '!' <= #[trigger] s[i] <= '~') ==> !blank(s),
{
    if exists|i: int| 0 <= i < s.len() && '!' <= #[trigger] s[i] <= '~' {
        let i = choose|i: int| 0 <= i < s.len() && '!' <= #[trigger] s[i] <= '~';
        assert(!is_white(s[i]));
    }
}

/// A text can be cut where it is short enough, or where the first byte that is cut
/// off is no continuation byte.
pub proof fn law_where_a_text_can_be_cut(s: Seq<char>, max: int)
    requires
        0 <= max,
    ensures
        can_cut(s, max) <==> encode_utf8(s).len() <= max || !(0x80 <= encode_utf8(s)[max] <= 0xbf),
{
    vstd::utf8::encode_utf8_valid_utf8(s);
    if max < encode_utf8(s).len() {
        vstd::utf8::is_char_boundary_iff_not_is_continuation_byte(encode_utf8(s), max);
    }
}

/// An ASCII text is cut to as many characters as there may be bytes.
pub proof fn law_ascii_is_cut_by_characters(s: Seq<char>, max: int, mark: Seq<char>)
    requires
        vstd::utf8::is_ascii_chars(s),
        0 <= max < s.len(),
    ensures
        can_cut(s, max),
        cut(s, max, mark) == s.take(max) + mark,
{
    vstd::utf8::is_ascii_chars_encode_utf8(s);
    law_where_a_text_can_be_cut(s, max);
    let bytes = encode_utf8(s);
    assert(bytes[max] == s[max] as u8);
    let head = s.take(max);
    assert(vstd::utf8::is_ascii_chars(head));
    vstd::utf8::is_ascii_chars_encode_utf8(head);
    assert forall|i: int| 0 <= i < max implies encode_utf8(head)[i] == bytes[i] by {
        assert(head[i] == s[i]);
    }
    assert(encode_utf8(head) =~= bytes.subrange(0, max));
    vstd::utf8::encode_utf8_decode_utf8(head);
}

/// Only a sign and digits are read as a number; a plus sign changes nothing, and a
/// number that does not fit is not read.
pub proof fn law_only_numbers_are_read(s: Seq<char>, n: nat, i: int)
    ensures
        s.len() == 0 ==> parsed_i64(s) is None,
        0 <= i < s.len() && !('0' <= s[i] <= '9') && (i > 0 || (s[i] != '-' && s[i] != '+'))
            ==> parsed_i64(s) is None,
        n <= i64::MAX ==> parsed_i64(seq!['+'] + decimal(n)) == Some(n as int),
        n > i64::MAX ==> parsed_i64(decimal(n)) is None,
{
    if 0 <= i < s.len() && !('0' <= s[i] <= '9') && (i > 0 || (s[i] != '-' && s[i] != '+')) {
        let digits = unsigned_part(s);
        if s[0] == '-' || s[0] == '+' {
            assert(digits[i - 1] == s[i]);
            assert(!is_digit(digits[i - 1]));
        } else {
            assert(!is_digit(digits[i]));
        }
    }
    lemma_decimal_digits(n);
    assert(is_digit(decimal(n)[0]));
    assert((seq!['+'] + decimal(n)).drop_first() =~= decimal(n));
}

} // verus!
