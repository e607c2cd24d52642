//! Text helpers: character access, comparison, search and the decimal
//! number syntax that `str::parse` accepts for unsigned integers.

use vstd::prelude::*;

verus! {

/// Whether `c` is one of the ASCII digits `0`..`9`.
pub open spec fn is_decimal_digit(c: char) -> bool {
    '0' <= c && c <= '9'
}

/// The numeric value of a decimal digit character.
pub open spec fn digit_value(c: char) -> nat {
    (c as int - '0' as int) as nat
}

/// The value of a run of decimal digits, most significant digit first.
pub open spec fn digits_value(s: Seq<char>) -> nat
    decreases s.len(),
{
    if s.len() == 0 {
        0
    } else {
        digits_value(s.drop_last()) * 10 + digit_value(s.last())
    }
}

/// The text after an optional leading `+` sign.
pub open spec fn unsigned_body(s: Seq<char>) -> Seq<char> {
    if s.len() > 0 && s[0] == '+' {
        s.skip(1)
    } else {
        s
    }
}

/// Whether every character of `s` is a decimal digit.
pub open spec fn all_digits(s: Seq<char>) -> bool {
    forall|i: int| 0 <= i < s.len() ==> is_decimal_digit(#[trigger] s[i])
}

/// The unsigned number that `s` spells, if it is at most `max`: an optional
/// `+` followed by at least one decimal digit and nothing else.
pub open spec fn parse_unsigned(s: Seq<char>, max: nat) -> Option<nat> {
    let body = unsigned_body(s);
    if body.len() > 0 && all_digits(body) && digits_value(body) <= max {
        Some(digits_value(body))
    } else {
        None
    }
}

/// Whether `needle` occurs in `hay` as a contiguous run of characters.
pub open spec fn occurs_in(hay: Seq<char>, needle: Seq<char>) -> bool {
    exists|i: int| 0 <= i <= hay.len() - needle.len() && #[trigger] hay.subrange(i, i + needle.len()) == needle
}

/// Digit runs that start alike: a run of digits is worth at least any of
/// its prefixes.
proof fn lemma_prefix_value(s: Seq<char>, k: int)
    requires
        all_digits(s),
        0 <= k <= s.len(),
    ensures
        digits_value(s.take(k)) <= digits_value(s),
    decreases s.len(),
{
    if k < s.len() {
        let rest = s.drop_last();
        assert(all_digits(rest)) by {
            assert forall|i: int| 0 <= i < rest.len() implies is_decimal_digit(#[trigger] rest[i]) by {
                assert(rest[i] == s[i]);
            }
        }
        lemma_prefix_value(rest, k);
        assert(rest.take(k) =~= s.take(k));
    } else {
        assert(s.take(k) =~= s);
    }
}

/// The number `text` spells, if it is at most `max`: an optional `+`
/// followed by at least one decimal digit and nothing else, which is the
/// syntax std's `FromStr` for unsigned integers documents.
pub fn parse_decimal(text: &str, max: u64) -> (res: Option<u64>)
    ensures
        match parse_unsigned(text@, max as nat) {
            Some(n) => res == Some(n as u64),
            None => res is None,
        },
{
    let chars = chars_of(text);
    let start: usize = if chars.len() > 0 && chars[0] == '+' {
        1
    } else {
        0
    };
    let ghost body = unsigned_body(text@);
    assert(body =~= chars@.subrange(start as int, chars.len() as int));
    if start >= chars.len() {
        return None;
    }
    let mut value: u128 = 0;
    let mut i: usize = start;
    while i < chars.len()
        invariant
            chars@ == text@,
            start <= i <= chars.len(),
            body == chars@.subrange(start as int, chars.len() as int),
            body == unsigned_body(text@),
            all_digits(chars@.subrange(start as int, i as int)),
            value == digits_value(chars@.subrange(start as int, i as int)),
            value <= max,
        decreases chars.len() - i,
    {
        let c = chars[i];
        let prefix = Ghost(chars@.subrange(start as int, i as int));
        let next = Ghost(chars@.subrange(start as int, i + 1));
        assert(body[i - start] == c);
        if c < '0' || c > '9' {
            assert(!all_digits(body));
            return None;
        }
        assert(next@.drop_last() =~= prefix@);
        assert(next@.last() == c);
        value = value * 10 + ((c as u32) - ('0' as u32)) as u128;
        assert(all_digits(next@)) by {
            assert forall|j: int| 0 <= j < next@.len() implies is_decimal_digit(#[trigger] next@[j]) by {
                if j < prefix@.len() {
                    assert(next@[j] == prefix@[j]);
                }
            }
        }
        assert(value == digits_value(next@));
        if value > max as u128 {
            assert(parse_unsigned(text@, max as nat) is None) by {
                if all_digits(body) {
                    lemma_prefix_value(body, i + 1 - start);
                    assert(body.take(i + 1 - start) =~= next@);
                }
            }
            return None;
        }
        i += 1;
    }
    assert(chars@.subrange(start as int, chars.len() as int) == body);
    Some(value as u64)
}

/// The character of a decimal digit `d < 10`.
pub open spec fn digit_char(d: nat) -> char {
    (('0' as nat) + d) as char
}

/// The decimal numeral of `n`: no sign, no leading zeros, `0` for zero.
pub open spec fn decimal_text(n: nat) -> Seq<char>
    decreases n,
{
    if n < 10 {
        seq![digit_char(n)]
    } else {
        decimal_text(n / 10).push(digit_char(n % 10))
    }
}

/// The text of one decimal digit.
fn digit_str(d: u64) -> (res: &'static str)
    requires
        d < 10,
    ensures
        res@ == seq![digit_char(d as nat)],
{
    proof {
        reveal_strlit("0");
        reveal_strlit("1");
        reveal_strlit("2");
        reveal_strlit("3");
        reveal_strlit("4");
        reveal_strlit("5");
        reveal_strlit("6");
        reveal_strlit("7");
        reveal_strlit("8");
        reveal_strlit("9");
    }
    if d == 0 {
        "0"
    } else if d == 1 {
        "1"
    } else if d == 2 {
        "2"
    } else if d == 3 {
        "3"
    } else if d == 4 {
        "4"
    } else if d == 5 {
        "5"
    } else if d == 6 {
        "6"
    } else if d == 7 {
        "7"
    } else if d == 8 {
        "8"
    } else {
        "9"
    }
}

/// Appends the decimal numeral of `n` to `out`.
pub fn append_decimal(out: &mut String, n: u64)
    ensures
        final(out)@ == old(out)@ + decimal_text(n as nat),
    decreases n,
{
    if n >= 10 {
        append_decimal(out, n / 10);
    }
    out.append(digit_str(n % 10));
    proof {
        if n >= 10 {
            assert(old(out)@ + decimal_text((n / 10) as nat) + seq![digit_char((n % 10) as nat)]
                =~= old(out)@ + decimal_text(n as nat));
        } else {
            assert(old(out)@ + seq![digit_char(n as nat)] =~= old(out)@ + decimal_text(n as nat));
        }
    }
}

/// The characters of `s`, in order.
pub fn chars_of(s: &str) -> (v: Vec<char>)
    ensures
        v@ == s@,
{
    let n = s.unicode_len();
    let mut v: Vec<char> = Vec::new();
    let mut i: usize = 0;
    while i < n
        invariant
            n == s@.len(),
            i <= n,
            v@ == s@.take(i as int),
        decreases n - i,
    {
        v.push(s.get_char(i));
        i += 1;
        assert(v@ =~= s@.take(i as int));
    }
    assert(s@.take(n as int) =~= s@);
    v
}

/// Whether `a` and `b` hold the same characters.
pub fn text_eq(a: &str, b: &str) -> (res: bool)
    ensures
        res == (a@ == b@),
{
    let x = chars_of(a);
    let y = chars_of(b);
    if x.len() != y.len() {
        return false;
    }
    let mut i: usize = 0;
    while i < x.len()
        invariant
            x@ == a@,
            y@ == b@,
            x.len() == y.len(),
            i <= x.len(),
            forall|j: int| 0 <= j < i ==> x@[j] == y@[j],
        decreases x.len() - i,
    {
        if x[i] != y[i] {
            return false;
        }
        i += 1;
    }
    assert(x@ =~= y@);
    true
}

/// Whether `needle` occurs in `hay`.
pub fn contains_text(hay: &str, needle: &str) -> (res: bool)
    ensures
        res == occurs_in(hay@, needle@),
{
    let h = chars_of(hay);
    let n = chars_of(needle);
    if n.len() > h.len() {
        return false;
    }
    let last = h.len() - n.len();
    let mut start: usize = 0;
    while start <= last
        invariant
            h@ == hay@,
            n@ == needle@,
            n.len() <= h.len(),
            last == h.len() - n.len(),
            start <= last + 1,
            forall|k: int| 0 <= k < start ==> #[trigger] h@.subrange(k, k + n@.len()) != n@,
        decreases last + 1 - start,
    {
        let mut j: usize = 0;
        let mut same = true;
        while j < n.len()
            invariant
                h@ == hay@,
                n@ == needle@,
                n.len() <= h.len(),
                last == h.len() - n.len(),
                start <= last,
                j <= n.len(),
                same == (forall|m: int| 0 <= m < j ==> h@[start + m] == n@[m]),
            decreases n.len() - j,
        {
            if h[start + j] != n[j] {
                same = false;
            }
            j += 1;
        }
        if same {
            assert(h@.subrange(start as int, start + n@.len()) =~= n@);
            return true;
        }
        assert(h@.subrange(start as int, start + n@.len()) != n@) by {
            let m = choose|m: int| 0 <= m < n.len() && h@[start + m] != n@[m];
            assert(h@.subrange(start as int, start + n@.len())[m] == h@[start + m]);
        }
        start += 1;
    }
    assert forall|i: int| 0 <= i <= hay@.len() - needle@.len() implies
        #[trigger] hay@.subrange(i, i + needle@.len()) != needle@ by {
        assert(0 <= i < start);
    }
    false
}

} // verus!
