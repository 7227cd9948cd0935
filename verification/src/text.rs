//! Decimal text: unsigned integer parsing with the grammar of std's
//! `FromStr` for unsigned types, and decimal formatting.
use vstd::prelude::*;

verus! {

pub open spec fn is_digit(c: char) -> bool {
    '0' <= c && c <= '9'
}

pub open spec fn digit_value(c: char) -> nat {
    (c as int - '0' as int) as nat
}

pub open spec fn all_digits(s: Seq<char>) -> bool {
    forall|i: int| 0 <= i < s.len() ==> #[trigger] is_digit(s[i])
}

/// Value of a run of decimal digits, most significant first.
pub open spec fn digits_value(s: Seq<char>) -> nat
    decreases s.len(),
{
    if s.len() == 0 {
        0
    } else {
        digits_value(s.drop_last()) * 10 + digit_value(s.last())
    }
}

/// What std's unsigned-integer `parse` accepts: an optional single `+`, then at
/// least one ASCII digit and nothing else, with a value not above `max`.
pub open spec fn spec_parse_unsigned(s: Seq<char>, max: nat) -> Option<nat> {
    let d = if s.len() > 0 && s[0] == '+' { s.drop_first() } else { s };
    if d.len() > 0 && all_digits(d) && digits_value(d) <= max {
        Some(digits_value(d))
    } else {
        None
    }
}

proof fn lemma_digits_value_prefix_grows(s: Seq<char>, i: int)
    requires
        0 <= i < s.len(),
        all_digits(s),
    ensures
        digits_value(s.take(i + 1)) == digits_value(s.take(i)) * 10 + digit_value(s[i]),
        digits_value(s.take(i + 1)) >= digits_value(s.take(i)),
{
    assert(s.take(i + 1).drop_last() =~= s.take(i));
}

/// Parses `s` as an unsigned decimal integer not above `max`, as std's
/// `str::parse` does for an unsigned type whose largest value is `max`.
pub fn parse_unsigned(s: &str, max: u64) -> (res: Option<u64>)
    ensures
        match res {
            Some(v) => spec_parse_unsigned(s@, max as nat) == Some(v as nat),
            None => spec_parse_unsigned(s@, max as nat) is None,
        },
{
    let ghost full = s@;
    let ghost plus = full.len() > 0 && full[0] == '+';
    let ghost d = if plus { full.drop_first() } else { full };
    let mut value: u64 = 0;
    let mut over: bool = false;
    let mut first: bool = true;
    let mut any: bool = false;
    let mut saw_other: bool = false;
    for c in it: s.chars()
        invariant
            it.seq() == full,
            it.index() <= full.len(),
            first <==> it.index() == 0,
            d == (if plus { full.drop_first() } else { full }),
            plus == (full.len() > 0 && full[0] == '+'),
            any <==> count_of(it.index() as int, plus) > 0,
            saw_other <==> !all_digits(d.take(count_of(it.index() as int, plus))),
            !saw_other ==> (over <==> digits_value(d.take(count_of(it.index() as int, plus))) > max),
            !saw_other && !over ==> value == digits_value(d.take(count_of(it.index() as int, plus))),
    {
        let ghost k = count_of(it.index() as int, plus);
        if first && c == '+' {
            assert(d.take(0) =~= Seq::<char>::empty());
        } else {
            assert(0 <= k < d.len());
            assert(d[k] == c);
            if '0' <= c && c <= '9' {
                if !saw_other {
                    proof {
                        assert(d.take(k + 1).take(k) =~= d.take(k));
                        assert(all_digits(d.take(k + 1)));
                        lemma_digits_value_prefix_grows(d.take(k + 1), k);
                        assert(d.take(k + 1).take(k + 1) =~= d.take(k + 1));
                    }
                    if !over {
                        let digit: u64 = (c as u64) - ('0' as u64);
                        if digit <= max && value <= (max - digit) / 10 {
                            proof {
                                assert(value * 10 <= max - digit) by (nonlinear_arith)
                                    requires
                                        value <= (max - digit) / 10,
                                        digit <= max,
                                ;
                            }
                            value = value * 10 + digit;
                        } else {
                            proof {
                                if digit <= max {
                                    assert(value * 10 + digit > max) by (nonlinear_arith)
                                        requires
                                            value > (max - digit) / 10,
                                            digit <= max,
                                    ;
                                }
                            }
                            over = true;
                        }
                    }
                } else {
                    assert(!all_digits(d.take(k + 1))) by {
                        let j = choose|j: int| 0 <= j < k && !is_digit(d.take(k)[j]);
                        assert(d.take(k + 1)[j] == d.take(k)[j]);
                    }
                }
            } else {
                saw_other = true;
                assert(!is_digit(d.take(k + 1)[k]));
            }
            any = true;
        }
        first = false;
    }
    assert(d.take(count_of(full.len() as int, plus)) =~= d);
    if !any || saw_other || over {
        None
    } else {
        Some(value)
    }
}

spec fn count_of(index: int, plus: bool) -> int {
    if plus && index > 0 { index - 1 } else if plus { 0 } else { index }
}

/// What the parse accepts is never above the bound it was given.
pub proof fn lemma_parse_unsigned_bound(s: Seq<char>, max: nat)
    ensures
        spec_parse_unsigned(s, max) matches Some(n) ==> n <= max,
{
}

pub open spec fn digit_char(d: nat) -> char {
    ('0' as nat + d) as char
}

proof fn lemma_decimal_text_digits(n: nat)
    ensures
        decimal_text(n).len() > 0,
        all_digits(decimal_text(n)),
        digits_value(decimal_text(n)) == n,
    decreases n,
{
    assert(digit_value(digit_char(n % 10)) == n % 10);
    if n < 10 {
        let t = decimal_text(n);
        assert(t.drop_last() =~= Seq::<char>::empty());
        assert(digits_value(t.drop_last()) == 0);
        assert(t.last() == digit_char(n));
        assert(digits_value(t) == digits_value(t.drop_last()) * 10 + digit_value(t.last()));
    } else {
        lemma_decimal_text_digits(n / 10);
        let t = decimal_text(n);
        assert(t.drop_last() =~= decimal_text(n / 10));
        assert(t.last() == digit_char(n % 10));
        assert(n == (n / 10) * 10 + n % 10);
        assert(digits_value(t) == digits_value(t.drop_last()) * 10 + digit_value(t.last()));
        assert(digits_value(t.drop_last()) == n / 10);
        assert forall|i: int| 0 <= i < t.len() implies #[trigger] is_digit(t[i]) by {
            if i < t.len() - 1 {
                assert(t[i] == decimal_text(n / 10)[i]);
            }
        }
    }
}

/// Reading back the decimal text of a number gives that number, whenever it
/// is within the limit read against; beyond the limit the text is refused.
pub proof fn lemma_parse_reads_decimal_text(n: nat, max: nat)
    ensures
        n <= max ==> spec_parse_unsigned(decimal_text(n), max) == Some(n),
        n > max ==> spec_parse_unsigned(decimal_text(n), max) is None,
{
    lemma_decimal_text_digits(n);
    assert(is_digit(decimal_text(n)[0]));
}

/// Decimal text of `n`, without leading zeros.
pub open spec fn decimal_text(n: nat) -> Seq<char>
    decreases n,
{
    if n < 10 {
        seq![digit_char(n)]
    } else {
        decimal_text(n / 10).push(digit_char(n % 10))
    }
}

fn digit_str(d: u64) -> (s: &'static str)
    requires
        d < 10,
    ensures
        s@ == seq![digit_char(d as nat)],
{
    proof {
        reveal_strlit("0");
        reveal_strlit("1");
        reveal_strlit("2");
        reveal_strlit("3");
        reveal_strlit("4");
        reveal_strlit("5");
        reveal_strlit("6");
        reveal_strlit("7");
        reveal_strlit("8");
        reveal_strlit("9");
    }
    if d == 0 {
        "0"
    } else if d == 1 {
        "1"
    } else if d == 2 {
        "2"
    } else if d == 3 {
        "3"
    } else if d == 4 {
        "4"
    } else if d == 5 {
        "5"
    } else if d == 6 {
        "6"
    } else if d == 7 {
        "7"
    } else if d == 8 {
        "8"
    } else {
        "9"
    }
}

/// Appends the decimal text of `n` to `out`.
pub fn push_decimal(out: &mut String, n: u64)
    ensures
        final(out)@ == old(out)@ + decimal_text(n as nat),
    decreases n,
{
    if n < 10 {
        out.append(digit_str(n));
    } else {
        push_decimal(out, n / 10);
        out.append(digit_str(n % 10));
    }
}

/// The decimal text of `n`.
pub fn decimal(n: u64) -> (s: String)
    ensures
        s@ == decimal_text(n as nat),
{
    let mut s = String::new();
    push_decimal(&mut s, n);
    s
}

/// The decimal text of a signed number: a minus sign before the digits of
/// its magnitude when it is negative.
pub open spec fn signed_decimal_text(n: int) -> Seq<char> {
    if n < 0 {
        "-"@ + decimal_text((-n) as nat)
    } else {
        decimal_text(n as nat)
    }
}

pub fn signed_decimal(n: i32) -> (s: String)
    ensures
        s@ == signed_decimal_text(n as int),
{
    if n < 0 {
        let magnitude: u64 = (-(n as i64)) as u64;
        let mut s = owned("-");
        push_decimal(&mut s, magnitude);
        s
    } else {
        decimal(n as u64)
    }
}

/// A string with the same characters as the literal or slice `s`.
pub fn owned(s: &str) -> (r: String)
    ensures
        r@ == s@,
{
    s.to_owned()
}

/// `a` followed by `b`.
pub fn join2(a: &str, b: &str) -> (r: String)
    ensures
        r@ == a@ + b@,
{
    let mut r = a.to_owned();
    r.append(b);
    r
}


/// The characters of `s`.
pub fn chars_of(s: &str) -> (v: Vec<char>)
    ensures
        v@ == s@,
{
    let mut v: Vec<char> = Vec::new();
    for c in it: s.chars()
        invariant
            it.seq() == s@,
            v@ == s@.subrange(0, it.index() as int),
    {
        v.push(c);
        assert(v@ =~= s@.subrange(0, it.index() + 1));
    }
    assert(v@ =~= s@);
    v
}

/// `s` begins with `prefix`.
pub open spec fn has_prefix(s: Seq<char>, prefix: Seq<char>) -> bool {
    prefix.len() <= s.len() && s.subrange(0, prefix.len() as int) == prefix
}

pub fn starts_with(s: &str, prefix: &str) -> (b: bool)
    ensures
        b == has_prefix(s@, prefix@),
{
    let a = chars_of(s);
    let p = chars_of(prefix);
    if p.len() > a.len() {
        return false;
    }
    let mut i: usize = 0;
    while i < p.len()
        invariant
            a@ == s@,
            p@ == prefix@,
            p@.len() <= a@.len(),
            0 <= i <= p@.len(),
            forall|j: int| 0 <= j < i ==> a@[j] == p@[j],
        decreases p@.len() - i,
    {
        if a[i] != p[i] {
            assert(s@.subrange(0, prefix@.len() as int)[i as int] != prefix@[i as int]);
            return false;
        }
        i = i + 1;
    }
    assert(s@.subrange(0, prefix@.len() as int) =~= prefix@);
    true
}

/// Characters that std's `char::is_whitespace` accepts: those with the Unicode
/// `White_Space` property.
pub open spec fn is_white_space(c: char) -> bool {
    ||| ('\u{9}' <= c && c <= '\u{d}')
    ||| c == ' '
    ||| c == '\u{85}'
    ||| c == '\u{a0}'
    ||| c == '\u{1680}'
    ||| ('\u{2000}' <= c && c <= '\u{200a}')
    ||| c == '\u{2028}'
    ||| c == '\u{2029}'
    ||| c == '\u{202f}'
    ||| c == '\u{205f}'
    ||| c == '\u{3000}'
}

pub fn is_white_space_char(c: char) -> (b: bool)
    ensures
        b == is_white_space(c),
{
    ('\u{9}' <= c && c <= '\u{d}') || c == ' ' || c == '\u{85}' || c == '\u{a0}' || c
        == '\u{1680}' || ('\u{2000}' <= c && c <= '\u{200a}') || c == '\u{2028}' || c
        == '\u{2029}' || c == '\u{202f}' || c == '\u{205f}' || c == '\u{3000}'
}

/// `s.trim()` is empty: every character is white space.
pub open spec fn is_blank(s: Seq<char>) -> bool {
    forall|i: int| 0 <= i < s.len() ==> #[trigger] is_white_space(s[i])
}

pub fn blank(s: &str) -> (b: bool)
    ensures
        b == is_blank(s@),
{
    let mut all = true;
    for c in it: s.chars()
        invariant
            it.seq() == s@,
            all <==> forall|j: int| 0 <= j < it.index() ==> #[trigger] is_white_space(s@[j]),
    {
        if !is_white_space_char(c) {
            all = false;
        }
    }
    all
}

} // verus!
