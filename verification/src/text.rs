//! Text helpers: trimming, shortening, and decimal numbers.
use vstd::prelude::*;

verus! {

/// Whether a character has the Unicode `White_Space` property.
pub open spec fn white_space(c: char) -> bool {
    let n = c as u32;
    ||| 0x9 <= n <= 0xd
    ||| n == 0x20
    ||| n == 0x85
    ||| n == 0xa0
    ||| n == 0x1680
    ||| 0x2000 <= n <= 0x200a
    ||| n == 0x2028
    ||| n == 0x2029
    ||| n == 0x202f
    ||| n == 0x205f
    ||| n == 0x3000
}

/// Decides [`white_space`].
pub fn is_white_space(c: char) -> (r: bool)
    ensures
        r == white_space(c),
{
    let n: u32 = c as u32;
    (0x9 <= n && n <= 0xd) || n == 0x20 || n == 0x85 || n == 0xa0 || n == 0x1680 || (0x2000 <= n
        && n <= 0x200a) || n == 0x2028 || n == 0x2029 || n == 0x202f || n == 0x205f || n == 0x3000
}

/// `s` without its leading white space.
pub open spec fn trim_start(s: Seq<char>) -> Seq<char>
    decreases s.len(),
{
    if s.len() > 0 && white_space(s[0]) {
        trim_start(s.skip(1))
    } else {
        s
    }
}

/// `s` without its trailing white space.
pub open spec fn trim_end(s: Seq<char>) -> Seq<char>
    decreases s.len(),
{
    if s.len() > 0 && white_space(s.last()) {
        trim_end(s.drop_last())
    } else {
        s
    }
}

/// `s` without leading and trailing white space.
pub open spec fn trimmed(s: Seq<char>) -> Seq<char> {
    trim_end(trim_start(s))
}

/// The characters of `s`, in order.
pub fn chars(s: &str) -> (r: Vec<char>)
    ensures
        r@ == s@,
{
    let mut out: Vec<char> = Vec::new();
    for c in it: s.chars()
        invariant
            out@ == it.seq().take(it.index() as int),
            it.seq() == s@,
    {
        out.push(c);
    }
    out
}

/// Removes leading and trailing white space.
pub fn trim(s: &str) -> (r: &str)
    ensures
        r@ == trimmed(s@),
{
    let cs: Vec<char> = chars(s);
    let mut from: usize = 0;
    let mut to: usize = cs.len();
    assert(cs@.skip(0) == cs@);
    while from < to && is_white_space(cs[from])
        invariant
            from <= to == cs@.len(),
            trim_start(cs@) == trim_start(cs@.skip(from as int)),
        decreases to - from,
    {
        assert(cs@.skip(from as int).skip(1) == cs@.skip(from + 1));
        from += 1;
    }
    assert(trim_start(cs@) == cs@.subrange(from as int, to as int)) by {
        assert(cs@.skip(from as int) == cs@.subrange(from as int, to as int));
    }
    while from < to && is_white_space(cs[to - 1])
        invariant
            from <= to <= cs@.len(),
            trimmed(cs@) == trim_end(cs@.subrange(from as int, to as int)),
        decreases to - from,
    {
        assert(cs@.subrange(from as int, to as int).drop_last() == cs@.subrange(
            from as int,
            to - 1,
        ));
        to -= 1;
    }
    s.substring_char(from, to)
}

/// Whether two strings hold the same characters.
pub fn same(a: &str, b: &str) -> (r: bool)
    ensures
        r == (a@ == b@),
{
    a.to_owned() == b.to_owned()
}

/// What marks a shortened text.
pub open spec fn ellipse(do_unwrap: bool) -> Seq<char> {
    if do_unwrap {
        "..."@
    } else {
        "[...]"@
    }
}

/// Whether words may be parted after `c`.
pub open spec fn breaks_words(c: char) -> bool {
    c == ' ' || c == '\n'
}

/// The length of the longest prefix of `s` that ends in a character at which words are parted, or
/// the whole length of `s` if it has none.
pub open spec fn cut_length(s: Seq<char>) -> int
    decreases s.len(),
{
    if exists|i: int| 0 <= i < s.len() && breaks_words(#[trigger] s[i]) {
        if breaks_words(s.last()) {
            s.len() as int
        } else {
            cut_length(s.drop_last())
        }
    } else {
        s.len() as int
    }
}

/// `s` shortened to about `approx_chars` characters, without cutting a word where that can be
/// helped. A limit of zero is no limit, and a text that would hardly get shorter is left alone.
pub open spec fn truncated(s: Seq<char>, approx_chars: nat, do_unwrap: bool) -> Seq<char> {
    let mark = ellipse(do_unwrap);
    if approx_chars == 0 || s.len() <= approx_chars + mark.len() {
        s
    } else {
        s.take(cut_length(s.take(approx_chars as int))) + mark
    }
}

/// Shortens a text to about `approx_chars` characters and marks it as shortened.
pub fn dc_truncate(buf: &str, approx_chars: usize, do_unwrap: bool) -> (r: String)
    ensures
        r@ == truncated(buf@, approx_chars as nat, do_unwrap),
{
    proof {
        reveal_strlit("...");
        reveal_strlit("[...]");
    }
    let mark: &str = if do_unwrap {
        "..."
    } else {
        "[...]"
    };
    let cs: Vec<char> = chars(buf);
    let count: usize = cs.len();
    if approx_chars == 0 || count <= approx_chars || count - approx_chars <= mark.unicode_len() {
        return buf.to_owned();
    }
    let ghost head = cs@.take(approx_chars as int);
    let mut end: usize = approx_chars;
    assert(head.take(end as int) == head);
    while end > 0 && !(cs[end - 1] == ' ' || cs[end - 1] == '\n')
        invariant
            end <= approx_chars < cs@.len(),
            head == cs@.take(approx_chars as int),
            forall|i: int| end <= i < head.len() ==> !breaks_words(#[trigger] head[i]),
        decreases end,
    {
        end -= 1;
    }
    if end == 0 {
        end = approx_chars;
    } else {
        proof {
            lemma_cut_length(head, end as int);
        }
    }
    let mut out: String = buf.substring_char(0, end).to_owned();
    out.append(mark);
    out
}

proof fn lemma_cut_length(s: Seq<char>, end: int)
    requires
        0 < end <= s.len(),
        breaks_words(s[end - 1]),
        forall|i: int| end <= i < s.len() ==> !breaks_words(#[trigger] s[i]),
    ensures
        cut_length(s) == end,
    decreases s.len(),
{
    if end < s.len() {
        assert(s.drop_last()[end - 1] == s[end - 1]);
        assert forall|i: int| end <= i < s.drop_last().len() implies !breaks_words(
            #[trigger] s.drop_last()[i],
        ) by {
            assert(s.drop_last()[i] == s[i]);
        }
        lemma_cut_length(s.drop_last(), end);
    }
}

/// The cut never lengthens its text, and leaves something of a text that has something.
proof fn lemma_cut_length_bounds(s: Seq<char>)
    ensures
        0 <= cut_length(s) <= s.len(),
        s.len() > 0 ==> cut_length(s) > 0,
    decreases s.len(),
{
    if exists|i: int| 0 <= i < s.len() && breaks_words(#[trigger] s[i]) {
        let i = choose|i: int| 0 <= i < s.len() && breaks_words(#[trigger] s[i]);
        if !breaks_words(s.last()) {
            assert(s.drop_last()[i] == s[i]);
            lemma_cut_length_bounds(s.drop_last());
        }
    }
}

/// Shortening keeps to its limit, if there is one: a shortened text has at most `approx_chars` characters of the
/// text it came from, and these are its beginning. Shortening it once more changes nothing.
pub proof fn truncation_keeps_its_limit(s: Seq<char>, approx_chars: nat, do_unwrap: bool)
    ensures
        ({
            let t = truncated(s, approx_chars, do_unwrap);
            &&& approx_chars > 0 ==> t.len() <= approx_chars + ellipse(do_unwrap).len()
            &&& t != s ==> exists|n: int|
                0 < n <= approx_chars && t == #[trigger] s.take(n) + ellipse(do_unwrap)
            &&& truncated(t, approx_chars, do_unwrap) == t
        }),
{
    lemma_cut_length_bounds(s.take(approx_chars as int));
}

/// The character of a decimal digit.
pub open spec fn digit_char(d: nat) -> char {
    (48 + d) as char
}

/// A natural number in decimal, without leading zeros.
pub open spec fn decimal(n: nat) -> Seq<char>
    decreases n,
{
    if n < 10 {
        seq![digit_char(n)]
    } else {
        decimal(n / 10).push(digit_char(n % 10))
    }
}

/// An integer in decimal, with a sign if it is negative.
pub open spec fn signed_decimal(i: int) -> Seq<char> {
    if i < 0 {
        seq!['-'] + decimal((-i) as nat)
    } else {
        decimal(i as nat)
    }
}

fn digit_text(d: u64) -> (r: &'static str)
    requires
        d < 10,
    ensures
        r@ == seq![digit_char(d as nat)],
{
    proof {
        reveal_strlit("0");
        reveal_strlit("1");
        reveal_strlit("2");
        reveal_strlit("3");
        reveal_strlit("4");
        reveal_strlit("5");
        reveal_strlit("6");
        reveal_strlit("7");
        reveal_strlit("8");
        reveal_strlit("9");
    }
    match d {
        0 => "0",
        1 => "1",
        2 => "2",
        3 => "3",
        4 => "4",
        5 => "5",
        6 => "6",
        7 => "7",
        8 => "8",
        _ => "9",
    }
}

/// Writes a number in decimal.
pub fn decimal_text(n: u64) -> (r: String)
    ensures
        r@ == decimal(n as nat),
    decreases n,
{
    if n < 10 {
        digit_text(n).to_owned()
    } else {
        let mut out: String = decimal_text(n / 10);
        out.append(digit_text(n % 10));
        assert(out@ == decimal(n as nat / 10).push(digit_char(n as nat % 10)));
        out
    }
}

/// Writes a signed number in decimal.
pub fn signed_text(i: i32) -> (r: String)
    ensures
        r@ == signed_decimal(i as int),
{
    if i < 0 {
        proof {
            reveal_strlit("-");
        }
        let mut out: String = "-".to_owned();
        let n: i64 = -(i as i64);
        let digits: String = decimal_text(n as u64);
        out.append(digits.as_str());
        out
    } else {
        decimal_text(i as u64)
    }
}

/// Whether `c` is one of the ten ASCII digits.
pub open spec fn is_digit(c: char) -> bool {
    '0' <= c <= '9'
}

/// The number that a row of digits stands for.
pub open spec fn digits_value(s: Seq<char>) -> nat
    decreases s.len(),
{
    if s.len() == 0 {
        0
    } else {
        10 * digits_value(s.drop_last()) + (s.last() as nat - 48) as nat
    }
}

/// Whether `s` is one digit or more, and nothing else.
pub open spec fn all_digits(s: Seq<char>) -> bool {
    s.len() > 0 && forall|i: int| 0 <= i < s.len() ==> is_digit(#[trigger] s[i])
}

/// The integer that a decimal with an optional sign stands for, if it is one that fits 32 bits.
pub open spec fn parsed_i32(s: Seq<char>) -> Option<i32> {
    let signed = s.len() > 0 && (s[0] == '-' || s[0] == '+');
    let digits = if signed {
        s.skip(1)
    } else {
        s
    };
    let n = if signed && s[0] == '-' {
        -(digits_value(digits) as int)
    } else {
        digits_value(digits) as int
    };
    if all_digits(digits) && i32::MIN <= n <= i32::MAX {
        Some(n as i32)
    } else {
        None
    }
}

/// Reads a decimal with an optional sign.
pub fn parse_i32(s: &str) -> (r: Option<i32>)
    ensures
        r == parsed_i32(s@),
{
    let cs: Vec<char> = chars(s);
    let signed: bool = cs.len() > 0 && (cs[0] == '-' || cs[0] == '+');
    let from: usize = if signed {
        1
    } else {
        0
    };
    let ghost digits = cs@.skip(from as int);
    assert(cs@.skip(0) == cs@);
    if from == cs.len() {
        return None;
    }
    let mut n: i64 = 0;
    let mut i: usize = from;
    assert(digits.take(0).len() == 0);
    while i < cs.len()
        invariant
            from <= i <= cs@.len(),
            from < cs@.len(),
            digits == cs@.skip(from as int),
            forall|k: int| 0 <= k < i - from ==> is_digit(#[trigger] digits[k]),
            0 <= n <= 4294967296,
            n < 4294967296 ==> n == digits_value(digits.take(i - from)),
            n == 4294967296 ==> digits_value(digits.take(i - from)) >= n,
            parsed_i32(s@) == parsed_i32(cs@),
            signed == (cs@[0] == '-' || cs@[0] == '+'),
            from == (if signed { 1int } else { 0int }),
        decreases cs.len() - i,
    {
        let c: char = cs[i];
        assert(digits[i - from] == c);
        if c < '0' || c > '9' {
            return None;
        }
        let d: i64 = (c as u32 - 48) as i64;
        assert(digits.take(i + 1 - from).drop_last() == digits.take(i - from));
        let next: i64 = 10 * n + d;
        n = if next < 4294967296 {
            next
        } else {
            4294967296
        };
        i += 1;
    }
    assert(digits.take(i - from) == digits);
    if signed && cs[0] == '-' {
        if n <= 2147483648 {
            Some((-n) as i32)
        } else {
            None
        }
    } else {
        if n <= 2147483647 {
            Some(n as i32)
        } else {
            None
        }
    }
}

proof fn lemma_decimal_digits(n: nat)
    ensures
        all_digits(decimal(n)),
        digits_value(decimal(n)) == n,
    decreases n,
{
    let s = decimal(n);
    if n < 10 {
        assert(s.drop_last().len() == 0);
        assert(digits_value(s.drop_last()) == 0);
    } else {
        lemma_decimal_digits(n / 10);
        assert(s.drop_last() == decimal(n / 10));
        assert forall|i: int| 0 <= i < s.len() implies is_digit(#[trigger] s[i]) by {
            if i < s.len() - 1 {
                assert(s[i] == decimal(n / 10)[i]);
            }
        }
    }
}

/// Reading what was written gives the number back.
pub proof fn decimal_round_trip(i: i32)
    ensures
        parsed_i32(signed_decimal(i as int)) == Some(i),
{
    let s = signed_decimal(i as int);
    if i < 0 {
        lemma_decimal_digits((-i) as nat);
        assert(s.skip(1) == decimal((-i) as nat));
    } else {
        lemma_decimal_digits(i as nat);
        assert(is_digit(s[0]));
    }
}

/// What `str::to_lowercase` makes of a text.
pub uninterp spec fn lowercase(s: Seq<char>) -> Seq<char>;

/// `s` with each of the letters `A` to `Z` in lower case.
pub open spec fn ascii_lowercase(s: Seq<char>) -> Seq<char> {
    Seq::new(
        s.len(),
        |i: int|
            if 'A' <= s[i] <= 'Z' {
                (s[i] as u32 + 32) as char
            } else {
                s[i]
            },
    )
}

/// Calls `str::to_lowercase`, which maps a text by the Unicode property `Lowercase`. Believed of
/// it: that the result depends on the text alone, and that of an ASCII text it is the text with
/// the letters `A` to `Z` replaced by those from `a` to `z`.
#[verifier::external_body]
pub(crate) fn to_lowercase(s: &str) -> (r: String)
    ensures
        r@ == lowercase(s@),
        vstd::utf8::is_ascii_chars(s@) ==> r@ == ascii_lowercase(s@),
{
    s.to_lowercase()
}

/// Calls `String::from_utf8`. Believed of it: that it gives a text just where the bytes are valid
/// UTF-8, and that the text is what they encode.
#[verifier::external_body]
pub(crate) fn from_utf8(bytes: &Vec<u8>) -> (r: Option<String>)
    ensures
        r is Some <==> vstd::utf8::valid_utf8(bytes@),
        r matches Some(s) ==> s@ == vstd::utf8::decode_utf8(bytes@),
{
    String::from_utf8(bytes.clone()).ok()
}

/// What `String::from_utf8_lossy` makes of bytes.
pub uninterp spec fn lossy_text(bytes: Seq<u8>) -> Seq<char>;

/// Calls `String::from_utf8_lossy`, which puts a replacement character for what is not UTF-8.
/// Believed of it: that the result depends on the bytes alone, and is what they encode where they
/// are valid UTF-8.
#[verifier::external_body]
pub(crate) fn from_utf8_lossy(bytes: &Vec<u8>) -> (r: String)
    ensures
        r@ == lossy_text(bytes@),
        vstd::utf8::valid_utf8(bytes@) ==> r@ == vstd::utf8::decode_utf8(bytes@),
{
    String::from_utf8_lossy(bytes).into_owned()
}

/// The text, or the failure.
pub open spec fn viewed<E>(r: Result<String, E>) -> Result<Seq<char>, E> {
    match r {
        Ok(s) => Ok(s@),
        Err(e) => Err(e),
    }
}

/// The text, if there is one.
pub open spec fn viewed_option(s: Option<String>) -> Option<Seq<char>> {
    match s {
        Some(s) => Some(s@),
        None => None,
    }
}

/// A text is left alone if there is no limit, or if it is longer than the limit by no more than the
/// mark. All others are cut within the limit behind the last space or line break there, or at the
/// limit if there is none, and marked.
pub proof fn truncation_cuts_between_words(s: Seq<char>, approx_chars: nat, do_unwrap: bool)
    ensures
        ({
            let t = truncated(s, approx_chars, do_unwrap);
            let mark = if do_unwrap {
                seq!['.', '.', '.']
            } else {
                seq!['[', '.', '.', '.', ']']
            };
            if approx_chars == 0 || s.len() <= approx_chars + mark.len() {
                t == s
            } else {
                exists|n: int|
                    {
                        &&& 0 < n <= approx_chars
                        &&& t == #[trigger] s.take(n) + mark
                        &&& forall|i: int|
                            n <= i < approx_chars ==> s[i] != ' ' && s[i] != '\n'
                        &&& s[n - 1] == ' ' || s[n - 1] == '\n' || (n == approx_chars && forall|
                            i: int,
                        |
                            0 <= i < approx_chars ==> s[i] != ' ' && s[i] != '\n')
                    }
            }
        }),
{
    reveal_strlit("...");
    reveal_strlit("[...]");
    assert("..."@ =~= seq!['.', '.', '.']);
    assert("[...]"@ =~= seq!['[', '.', '.', '.', ']']);
    if approx_chars > 0 && s.len() > approx_chars + ellipse(do_unwrap).len() {
        let head = s.take(approx_chars as int);
        lemma_cut_length_bounds(head);
        lemma_cut_place(head);
        let n = cut_length(head);
        assert(head[n - 1] == s[n - 1]);
        assert forall|i: int| n <= i < approx_chars implies s[i] != ' ' && s[i] != '\n' by {
            assert(head[i] == s[i]);
        }
        if !breaks_words(head[n - 1]) {
            assert forall|i: int| 0 <= i < approx_chars implies s[i] != ' ' && s[i] != '\n' by {
                assert(head[i] == s[i]);
            }
        }
        assert(truncated(s, approx_chars, do_unwrap) == s.take(n) + ellipse(do_unwrap));
    }
}

proof fn lemma_cut_place(s: Seq<char>)
    requires
        s.len() > 0,
    ensures
        0 < cut_length(s) <= s.len(),
        forall|i: int| cut_length(s) <= i < s.len() ==> !breaks_words(#[trigger] s[i]),
        breaks_words(s[cut_length(s) - 1]) || (cut_length(s) == s.len() && forall|i: int|
            0 <= i < s.len() ==> !breaks_words(#[trigger] s[i])),
    decreases s.len(),
{
    lemma_cut_length_bounds(s);
    if exists|i: int| 0 <= i < s.len() && breaks_words(#[trigger] s[i]) {
        let k = choose|i: int| 0 <= i < s.len() && breaks_words(#[trigger] s[i]);
        if !breaks_words(s.last()) {
            let rest = s.drop_last();
            assert(rest[k] == s[k]);
            lemma_cut_place(rest);
            let n = cut_length(rest);
            assert forall|i: int| n <= i < s.len() implies !breaks_words(#[trigger] s[i]) by {
                if i < rest.len() {
                    assert(rest[i] == s[i]);
                }
            }
            assert(rest[n - 1] == s[n - 1]);
        }
    }
}

/// A number is written with digits alone, without a zero in front, and the digits stand for it.
pub proof fn decimal_is_the_number(n: nat)
    ensures
        decimal(n).len() > 0,
        forall|i: int| 0 <= i < decimal(n).len() ==> '0' <= #[trigger] decimal(n)[i] <= '9',
        digits_value(decimal(n)) == n,
        n > 0 ==> decimal(n)[0] != '0',
    decreases n,
{
    lemma_decimal_digits(n);
    assert forall|i: int| 0 <= i < decimal(n).len() implies '0' <= #[trigger] decimal(n)[i]
        <= '9' by {
        assert(is_digit(decimal(n)[i]));
    }
    if n >= 10 {
        decimal_is_the_number(n / 10);
        assert(decimal(n)[0] == decimal(n / 10)[0]);
    }
}

/// Each further digit makes the number ten times as large and adds its own value.
pub proof fn digits_weigh_ten(s: Seq<char>, c: char)
    ensures
        digits_value(Seq::empty()) == 0,
        '0' <= c <= '9' ==> digits_value(s.push(c)) == 10 * digits_value(s) + (c as int - '0' as int),
{
    assert(s.push(c).drop_last() == s);
}

/// What is left of a text without the white space round it is a piece of the text that does not
/// begin or end with white space, and nothing but white space is left out.
pub proof fn trimming_removes_white_space_only(s: Seq<char>)
    ensures
        ({
            let t = trimmed(s);
            &&& t.len() > 0 ==> !white_space(t[0]) && !white_space(t.last())
            &&& exists|i: int, j: int|
                {
                    &&& 0 <= i <= j <= s.len()
                    &&& t == #[trigger] s.subrange(i, j)
                    &&& forall|k: int| 0 <= k < i || j <= k < s.len() ==> white_space(s[k])
                }
        }),
{
    lemma_trim_start(s);
    let a = trim_start(s);
    lemma_trim_end(a);
    let i = s.len() - a.len();
    let j = i + trim_end(a).len();
    assert(a == s.skip(i));
    assert(trim_end(a) == a.take(j - i));
    assert(trimmed(s) =~= s.subrange(i, j));
    assert forall|k: int| 0 <= k < i || j <= k < s.len() implies white_space(s[k]) by {
        if j <= k {
            assert(a[k - i] == s[k]);
        }
    }
    if trimmed(s).len() > 0 {
        assert(trimmed(s)[0] == a[0]);
    }
}

proof fn lemma_trim_start(s: Seq<char>)
    ensures
        trim_start(s).len() <= s.len(),
        trim_start(s) == s.skip(s.len() - trim_start(s).len()),
        forall|k: int| 0 <= k < s.len() - trim_start(s).len() ==> white_space(#[trigger] s[k]),
        trim_start(s).len() > 0 ==> !white_space(trim_start(s)[0]),
    decreases s.len(),
{
    if s.len() > 0 && white_space(s[0]) {
        let rest = s.skip(1);
        lemma_trim_start(rest);
        let n = s.len() - trim_start(s).len();
        assert(s.skip(n) =~= rest.skip(n - 1));
        assert forall|k: int| 0 <= k < n implies white_space(#[trigger] s[k]) by {
            if k > 0 {
                assert(rest[k - 1] == s[k]);
            }
        }
    } else {
        assert(s.skip(0) =~= s);
    }
}

proof fn lemma_trim_end(s: Seq<char>)
    ensures
        trim_end(s).len() <= s.len(),
        trim_end(s) == s.take(trim_end(s).len() as int),
        forall|k: int| trim_end(s).len() <= k < s.len() ==> white_space(#[trigger] s[k]),
        trim_end(s).len() > 0 ==> !white_space(trim_end(s).last()),
    decreases s.len(),
{
    if s.len() > 0 && white_space(s.last()) {
        let rest = s.drop_last();
        lemma_trim_end(rest);
        let n = trim_end(s).len() as int;
        assert(s.take(n) =~= rest.take(n));
        assert forall|k: int| n <= k < s.len() implies white_space(#[trigger] s[k]) by {
            if k < rest.len() {
                assert(rest[k] == s[k]);
            }
        }
    } else {
        assert(s.take(s.len() as int) =~= s);
    }
}

/// One digit or more are read as the number that they stand for, with a plus in front as well, and
/// with a minus as the negative of it, if that fits 32 bits.
pub proof fn integers_are_parsed(digits: Seq<char>)
    requires
        digits.len() > 0,
        forall|i: int| 0 <= i < digits.len() ==> '0' <= #[trigger] digits[i] <= '9',
    ensures
        ({
            let n = digits_value(digits);
            let positive = if n <= 2147483647 {
                Some(n as i32)
            } else {
                None
            };
            &&& parsed_i32(digits) == positive
            &&& parsed_i32(seq!['+'] + digits) == positive
            &&& parsed_i32(seq!['-'] + digits) == (if n <= 2147483648 {
                Some((-(n as int)) as i32)
            } else {
                None
            })
        }),
{
    assert((seq!['+'] + digits).skip(1) =~= digits);
    assert((seq!['-'] + digits).skip(1) =~= digits);
    assert(digits[0] != '-' && digits[0] != '+');
    assert forall|i: int| 0 <= i < digits.len() implies is_digit(#[trigger] digits[i]) by {}
    assert(all_digits(digits));
}

/// Nothing is read from a text without a digit, nor from one with something else behind its sign.
pub proof fn other_texts_are_no_integers(s: Seq<char>, i: int)
    ensures
        s.len() == 0 ==> parsed_i32(s) is None,
        s.len() == 1 && !('0' <= s[0] <= '9') ==> parsed_i32(s) is None,
        0 < i < s.len() && !('0' <= s[i] <= '9') ==> parsed_i32(s) is None,
        s.len() > 0 && !('0' <= s[0] <= '9') && s[0] != '-' && s[0] != '+' ==> parsed_i32(s) is None,
{
    if 0 < i < s.len() && !('0' <= s[i] <= '9') {
        assert(!is_digit(s[i]));
        assert(s.skip(1)[i - 1] == s[i]);
    }
    if s.len() > 0 && !('0' <= s[0] <= '9') {
        assert(!is_digit(s[0]));
    }
}

} // verus!
