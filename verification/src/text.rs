//! Small text functions: path segments, short hashes, decimal numbers and relative times.

use vstd::prelude::*;
use vstd::string::*;
use vstd::utf8::*;

verus! {

/// The part of `s` behind its last `/`, or all of `s` where it has none.
pub open spec fn last_segment_of(s: Seq<char>) -> Seq<char>
    decreases s.len(),
{
    if s.len() == 0 || s.last() == '/' {
        Seq::empty()
    } else {
        last_segment_of(s.drop_last()).push(s.last())
    }
}

/// What [`last_segment_of`] gives has no `/` in it, is a suffix of `s`, and begins
/// either where `s` begins or right behind a `/`.
pub proof fn law_last_segment(s: Seq<char>)
    ensures
        !last_segment_of(s).contains('/'),
        last_segment_of(s).len() <= s.len(),
        last_segment_of(s) == s.skip(s.len() - last_segment_of(s).len()),
        last_segment_of(s).len() < s.len() ==> s[s.len() - last_segment_of(s).len() - 1] == '/',
    decreases s.len(),
{
    if s.len() == 0 || s.last() == '/' {
    } else {
        let rest = s.drop_last();
        law_last_segment(rest);
        let seg = last_segment_of(rest);
        assert(last_segment_of(s) == seg.push(s.last()));
        assert forall|i: int| 0 <= i < seg.len() + 1 implies seg.push(s.last())[i] != '/' by {
            if i < seg.len() {
                assert(seg.contains(seg[i]));
            }
        }
    }
}

/// A `/`-free text is its own last segment.
pub proof fn law_last_segment_of_plain_name(s: Seq<char>)
    requires
        !s.contains('/'),
    ensures
        last_segment_of(s) == s,
    decreases s.len(),
{
    if s.len() > 0 {
        assert(s.contains(s[s.len() - 1]));
        assert forall|c: char| s.drop_last().contains(c) implies s.contains(c) by {
            let i = choose|i: int| 0 <= i < s.drop_last().len() && s.drop_last()[i] == c;
            assert(s[i] == c);
        }
        law_last_segment_of_plain_name(s.drop_last());
        assert(s.drop_last().push(s.last()) =~= s);
    }
}

/// The part of `s` behind its last `/`: the display name of a branch reference.
pub fn last_segment(s: &str) -> (r: String)
    ensures
        r@ == last_segment_of(s@),
{
    let mut begin: usize = 0;
    let mut pos: usize = 0;
    let len: usize = s.unicode_len();
    for c in it: s.chars()
        invariant
            it.seq() == s@,
            len == s@.len(),
            pos == it.index(),
            begin <= pos <= len,
            last_segment_of(s@.take(pos as int)) == s@.subrange(begin as int, pos as int),
    {
        pos = pos + 1;
        proof {
            assert(s@.take(pos as int).drop_last() =~= s@.take(pos - 1));
        }
        if c == '/' {
            begin = pos;
        }
        assert(last_segment_of(s@.take(pos as int)) =~= s@.subrange(begin as int, pos as int));
    }
    assert(s@.take(len as int) =~= s@);
    s.substring_char(begin, len).to_string()
}

/// The number of bytes of a hash that are shown.
pub const SHORT_SHA_LEN: usize = 7;

/// How many bytes of a text of `len` bytes [`short_sha`] keeps.
pub open spec fn short_sha_len(len: nat) -> nat {
    if len < SHORT_SHA_LEN { len } else { SHORT_SHA_LEN as nat }
}

/// Whether `sha` can be cut at [`short_sha_len`] without splitting a character. Every
/// text of ASCII characters can.
pub open spec fn has_short_sha(sha: Seq<char>) -> bool {
    is_char_boundary(encode_utf8(sha), short_sha_len(encode_utf8(sha).len()) as int)
}

/// The first bytes of `sha`, as text.
pub open spec fn short_sha_of(sha: Seq<char>) -> Seq<char> {
    decode_utf8(encode_utf8(sha).take(short_sha_len(encode_utf8(sha).len()) as int))
}

/// The abbreviation under which a commit is shown: the first seven bytes of its hash,
/// or all of a shorter one.
pub fn short_sha(sha: &str) -> (r: String)
    requires
        has_short_sha(sha@),
    ensures
        r@ == short_sha_of(sha@),
        encode_utf8(r@) == encode_utf8(sha@).take(short_sha_len(encode_utf8(sha@).len()) as int),
{
    let bytes = sha.as_bytes();
    let len: usize = bytes.len();
    let cut: usize = if len < SHORT_SHA_LEN { len } else { SHORT_SHA_LEN };
    let parts = sha.split_at(cut);
    proof {
        assert(encode_utf8(sha@).subrange(0, cut as int) =~= encode_utf8(sha@).take(cut as int));
        encode_utf8_decode_utf8(parts.0@);
    }
    parts.0.to_string()
}

/// A hash of ASCII characters is cut to its first seven characters.
pub proof fn law_short_sha_of_ascii(sha: Seq<char>)
    requires
        is_ascii_chars(sha),
    ensures
        has_short_sha(sha),
        short_sha_of(sha) == sha.take(short_sha_len(sha.len()) as int),
        short_sha_of(sha) == sha.take(if sha.len() < 7 { sha.len() as int } else { 7 }),
{
    is_ascii_chars_encode_utf8(sha);
    let n = short_sha_len(sha.len()) as int;
    let head = sha.take(n);
    assert(is_ascii_chars(head));
    is_ascii_chars_encode_utf8(head);
    assert(encode_utf8(head) =~= encode_utf8(sha).take(n));
    encode_utf8_decode_utf8(head);
    encode_utf8_valid_utf8(sha);
    if n < sha.len() {
        let c = sha[n];
        assert(encode_utf8(sha)[n] == c as u8);
        is_char_boundary_iff_not_is_continuation_byte(encode_utf8(sha), n);
    } else {
        is_char_boundary_start_end_of_seq(encode_utf8(sha));
    }
}

/// A hash of seven bytes or more is cut to seven, and a shorter one is not cut. It can be cut
/// where no character is split.
pub proof fn law_short_sha_len(sha: Seq<char>)
    ensures
        ({
            let bytes = encode_utf8(sha);
            &&& bytes.len() >= 7 ==> short_sha_len(bytes.len()) == 7
            &&& bytes.len() < 7 ==> short_sha_len(bytes.len()) == bytes.len()
            &&& bytes.len() >= 7 ==> (has_short_sha(sha) <==> is_char_boundary(bytes, 7))
            &&& bytes.len() >= 7 ==> short_sha_of(sha) == decode_utf8(bytes.take(7))
            &&& bytes.len() < 7 ==> has_short_sha(sha) && short_sha_of(sha) == sha
        }),
{
    let bytes = encode_utf8(sha);
    if bytes.len() < 7 {
        encode_utf8_valid_utf8(sha);
        is_char_boundary_start_end_of_seq(bytes);
        assert(bytes.take(bytes.len() as int) =~= bytes);
        encode_utf8_decode_utf8(sha);
    }
}

/// The character of a decimal digit.
pub open spec fn digit_char(d: nat) -> char {
    if d == 0 { '0' } else if d == 1 { '1' } else if d == 2 { '2' } else if d == 3 { '3' }
    else if d == 4 { '4' } else if d == 5 { '5' } else if d == 6 { '6' } else if d == 7 { '7' }
    else if d == 8 { '8' } else { '9' }
}

/// The decimal digits of `n`, without leading zeros.
pub open spec fn decimal_of(n: nat) -> Seq<char>
    decreases n,
{
    if n < 10 {
        seq![digit_char(n)]
    } else {
        decimal_of(n / 10).push(digit_char(n % 10))
    }
}

/// The number that a text of decimal digits stands for.
pub open spec fn number_of(digits: Seq<char>) -> int
    decreases digits.len(),
{
    if digits.len() == 0 {
        0
    } else {
        10 * number_of(digits.drop_last()) + (digits.last() as int - '0' as int)
    }
}

/// A number in decimal is made of digits, stands for that number, and begins with a zero only
/// where it is zero.
pub proof fn law_decimal(n: nat)
    ensures
        number_of(decimal_of(n)) == n,
        decimal_of(n).len() > 0,
        forall|i: int| 0 <= i < decimal_of(n).len() ==> '0' <= #[trigger] decimal_of(n)[i] <= '9',
        n > 0 ==> decimal_of(n)[0] != '0',
        n == 0 ==> decimal_of(n).len() == 1,
    decreases n,
{
    reveal_with_fuel(number_of, 2);
    if n >= 10 {
        law_decimal(n / 10);
        let front = decimal_of(n / 10);
        assert(front.push(digit_char(n % 10)).drop_last() =~= front);
        assert forall|i: int| 0 <= i < decimal_of(n).len() implies '0' <= #[trigger] decimal_of(
            n,
        )[i] <= '9' by {
            if i < front.len() {
                assert(decimal_of(n)[i] == front[i]);
            }
        }
    } else {
        assert(seq![digit_char(n)].drop_last() =~= Seq::<char>::empty());
    }
}

fn digit(d: u64) -> (r: &'static str)
    requires
        d < 10,
    ensures
        r@ == seq![digit_char(d as nat)],
{
    proof {
        reveal_strlit("0"); reveal_strlit("1"); reveal_strlit("2"); reveal_strlit("3");
        reveal_strlit("4"); reveal_strlit("5"); reveal_strlit("6"); reveal_strlit("7");
        reveal_strlit("8"); reveal_strlit("9");
    }
    let r = match d {
        0 => "0",
        1 => "1",
        2 => "2",
        3 => "3",
        4 => "4",
        5 => "5",
        6 => "6",
        7 => "7",
        8 => "8",
        _ => "9",
    };
    assert(r@ =~= seq![digit_char(d as nat)]);
    r
}

/// `n` written in decimal.
pub fn decimal(n: u64) -> (r: String)
    ensures
        r@ == decimal_of(n as nat),
    decreases n,
{
    if n < 10 {
        digit(n).to_string()
    } else {
        let mut r = decimal(n / 10);
        r.append(digit(n % 10));
        assert(r@ =~= decimal_of(n as nat));
        r
    }
}

/// `a`, then `b`, then `c`.
pub fn join3(a: &str, b: &str, c: &str) -> (r: String)
    ensures
        r@ == a@ + b@ + c@,
{
    let mut r = a.to_string();
    r.append(b);
    r.append(c);
    r
}

/// A count between an opening bracket and `end`: `(3)`, or `(3 files)`.
pub fn bracketed_count(count: usize, end: &str) -> (r: String)
    ensures
        r@ == "("@ + decimal_of(count as nat) + end@,
{
    let n = decimal(count as u64);
    join3("(", n.as_str(), end)
}

/// The units that an age is written in, in seconds. A month has thirty days.
pub const MINUTE: i64 = 60;
pub const HOUR: i64 = 3600;
pub const DAY: i64 = 86400;
pub const WEEK: i64 = 604800;
pub const MONTH: i64 = 2592000;

/// How an age of `age` seconds is written: in the largest unit that fits into it at
/// least once, rounded down. What lies in the future counts as no age at all.
pub open spec fn relative_time_of(age: int) -> Seq<char> {
    if age < MINUTE {
        "just now"@
    } else if age < HOUR {
        decimal_of((age / MINUTE as int) as nat) + "m ago"@
    } else if age < DAY {
        decimal_of((age / HOUR as int) as nat) + "h ago"@
    } else if age < WEEK {
        decimal_of((age / DAY as int) as nat) + "d ago"@
    } else if age < MONTH {
        decimal_of((age / WEEK as int) as nat) + "w ago"@
    } else {
        decimal_of((age / MONTH as int) as nat) + "mo ago"@
    }
}

/// An age is written in whole minutes below an hour, in whole hours below a day, in whole days
/// below a week, in whole weeks below thirty days, and in whole months of thirty days from
/// there on. Below a minute, and for what is yet to come, it is "just now".
pub proof fn law_relative_time(age: int)
    ensures
        age < 60 ==> relative_time_of(age) == "just now"@,
        60 <= age < 60 * 60 ==> relative_time_of(age) == decimal_of((age / 60) as nat) + "m ago"@,
        60 * 60 <= age < 24 * 60 * 60 ==> relative_time_of(age) == decimal_of((age / 3600) as nat)
            + "h ago"@,
        24 * 60 * 60 <= age < 7 * 24 * 60 * 60 ==> relative_time_of(age) == decimal_of(
            (age / 86400) as nat,
        ) + "d ago"@,
        7 * 24 * 60 * 60 <= age < 30 * 24 * 60 * 60 ==> relative_time_of(age) == decimal_of(
            (age / 604800) as nat,
        ) + "w ago"@,
        30 * 24 * 60 * 60 <= age ==> relative_time_of(age) == decimal_of((age / 2592000) as nat)
            + "mo ago"@,
{
}

fn units_ago(age: i64, unit: i64, suffix: &str) -> (r: String)
    requires
        0 < unit <= age,
    ensures
        r@ == decimal_of((age as int / unit as int) as nat) + suffix@,
{
    let mut r = decimal((age as u64) / (unit as u64));
    r.append(suffix);
    r
}

/// The age, at `now`, of something that happened at `timestamp`; both in seconds since
/// the Unix epoch.
pub fn format_relative_time(timestamp: i64, now: i64) -> (r: String)
    requires
        i64::MIN <= now - timestamp <= i64::MAX,
    ensures
        r@ == relative_time_of(now - timestamp),
{
    let age: i64 = now - timestamp;
    if age < MINUTE {
        "just now".to_string()
    } else if age < HOUR {
        units_ago(age, MINUTE, "m ago")
    } else if age < DAY {
        units_ago(age, HOUR, "h ago")
    } else if age < WEEK {
        units_ago(age, DAY, "d ago")
    } else if age < MONTH {
        units_ago(age, WEEK, "w ago")
    } else {
        units_ago(age, MONTH, "mo ago")
    }
}

} // verus!
