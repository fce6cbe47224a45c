//! Whole numbers as decimal text.
use crate::text::{chars_of, repeated};
use vstd::arithmetic::div_mod::lemma_div_denominator;
use vstd::arithmetic::power::{lemma_pow0, lemma_pow_positive, pow};
use vstd::prelude::*;

verus! {

/// Whether `c` is one of the ten ASCII digits.
pub open spec fn is_digit(c: char) -> bool {
    '0' <= c <= '9'
}

/// Whether `s` holds digits only.
pub open spec fn all_digits(s: Seq<char>) -> bool {
    forall|i: int| 0 <= i < s.len() ==> is_digit(#[trigger] s[i])
}

/// The number that the digits `s` write.
pub open spec fn digits_value(s: Seq<char>) -> nat
    decreases s.len(),
{
    if s.len() == 0 {
        0
    } else {
        (10 * digits_value(s.drop_last()) + (s.last() as int - '0' as int)) as nat
    }
}

/// `s` without the plus sign that it may start with.
pub open spec fn without_plus(s: Seq<char>) -> Seq<char> {
    if s.len() > 0 && s[0] == '+' {
        s.drop_first()
    } else {
        s
    }
}

/// The number up to `max` that `s` writes: digits, at least one, with an optional plus sign in
/// front of them and nothing else.
pub open spec fn unsigned(s: Seq<char>, max: nat) -> Option<nat> {
    let digits = without_plus(s);
    if digits.len() > 0 && all_digits(digits) && digits_value(digits) <= max {
        Some(digits_value(digits))
    } else {
        None
    }
}

/// The digits of `n`, without leading zeros.
pub open spec fn decimal(n: nat) -> Seq<char>
    decreases n,
{
    if n < 10 {
        seq![('0' as int + n) as char]
    } else {
        decimal(n / 10).push(('0' as int + n % 10) as char)
    }
}

/// Leading digits write no larger number than all of them.
proof fn lemma_digits_value_grows(s: Seq<char>, n: int)
    requires
        all_digits(s),
        0 <= n <= s.len(),
    ensures
        digits_value(s.take(n)) <= digits_value(s),
    decreases s.len() - n,
{
    if n < s.len() {
        lemma_digits_value_grows(s, n + 1);
        assert(s.take(n + 1).drop_last() =~= s.take(n));
        assert(is_digit(s[n]));
    } else {
        assert(s.take(n) =~= s);
    }
}

/// The digits of a number write that number.
pub proof fn lemma_decimal(n: nat)
    ensures
        decimal(n).len() > 0,
        all_digits(decimal(n)),
        digits_value(decimal(n)) == n,
    decreases n,
{
    if n < 10 {
        let d = ('0' as int + n) as char;
        assert(seq![d].drop_last() =~= Seq::empty());
        assert(digits_value(Seq::empty()) == 0);
    } else {
        lemma_decimal(n / 10);
        let d = ('0' as int + n % 10) as char;
        assert(decimal(n).drop_last() =~= decimal(n / 10));
        assert forall|i: int| 0 <= i < decimal(n).len() implies is_digit(
            #[trigger] decimal(n)[i],
        ) by {
            if i < decimal(n / 10).len() {
                assert(decimal(n)[i] == decimal(n / 10)[i]);
            }
        }
    }
}

/// Reading a number back: the decimal text of a number is read as that number.
pub proof fn law_decimal_is_read_back(n: nat, max: nat)
    requires
        n <= max,
    ensures
        unsigned(decimal(n), max) == Some(n),
{
    lemma_decimal(n);
    assert(is_digit(decimal(n)[0]));
}

/// A plus sign in front of digits changes nothing.
pub proof fn law_plus_sign_is_ignored(s: Seq<char>, max: nat)
    requires
        s.len() > 0,
        s[0] != '+',
    ensures
        unsigned(seq!['+'] + s, max) == unsigned(s, max),
{
    assert((seq!['+'] + s).drop_first() =~= s);
}

/// The number up to `max` that `s` writes.
pub fn parse_unsigned(s: &str, max: u64) -> (r: Option<u64>)
    ensures
        match r {
            Some(n) => unsigned(s@, max as nat) == Some(n as nat),
            None => unsigned(s@, max as nat) is None,
        },
{
    let v = chars_of(s);
    let mut i: usize = 0;
    if v.len() > 0 && v[0] == '+' {
        i = 1;
    }
    let ghost digits = without_plus(s@);
    let ghost start: int = i as int;
    assert(digits =~= v@.skip(start));
    if i == v.len() {
        return None;
    }
    let mut n: u64 = 0;
    assert(digits.take(0) =~= Seq::empty());
    while i < v.len()
        invariant
            0 <= start <= i <= v@.len(),
            digits == v@.skip(start),
            digits == without_plus(s@),
            all_digits(digits.take(i - start)),
            n == digits_value(digits.take(i - start)),
            n <= max,
        decreases v@.len() - i,
    {
        let c = v[i];
        let ghost k = i - start;
        assert(digits[k] == c);
        if c < '0' || c > '9' {
            return None;
        }
        let d: u64 = (c as u32 - '0' as u32) as u64;
        assert(digits.take(k + 1).drop_last() =~= digits.take(k));
        assert(digits_value(digits.take(k + 1)) == 10 * n + d);
        let next: u128 = 10 * (n as u128) + d as u128;
        if next > max as u128 {
            proof {
                if all_digits(digits) {
                    lemma_digits_value_grows(digits, k + 1);
                }
            }
            return None;
        }
        n = next as u64;
        i = i + 1;
    }
    assert(digits.take(i - start) =~= digits);
    Some(n)
}

/// The `u8` that `s` writes.
pub fn parse_u8(s: &str) -> (r: Option<u8>)
    ensures
        match r {
            Some(n) => unsigned(s@, u8::MAX as nat) == Some(n as nat),
            None => unsigned(s@, u8::MAX as nat) is None,
        },
{
    match parse_unsigned(s, 255) {
        Some(n) => Some(n as u8),
        None => None,
    }
}

/// The `u16` that `s` writes.
pub fn parse_u16(s: &str) -> (r: Option<u16>)
    ensures
        match r {
            Some(n) => unsigned(s@, u16::MAX as nat) == Some(n as nat),
            None => unsigned(s@, u16::MAX as nat) is None,
        },
{
    match parse_unsigned(s, 65535) {
        Some(n) => Some(n as u16),
        None => None,
    }
}

/// The digit `d` as text.
fn digit_text(d: u64) -> (r: &'static str)
    requires
        d < 10,
    ensures
        r@ == seq![('0' as int + d) as char],
{
    let r: &'static str = if d == 0 {
        "0"
    } else if d == 1 {
        "1"
    } else if d == 2 {
        "2"
    } else if d == 3 {
        "3"
    } else if d == 4 {
        "4"
    } else if d == 5 {
        "5"
    } else if d == 6 {
        "6"
    } else if d == 7 {
        "7"
    } else if d == 8 {
        "8"
    } else {
        "9"
    };
    proof {
        reveal_strlit("0");
        reveal_strlit("1");
        reveal_strlit("2");
        reveal_strlit("3");
        reveal_strlit("4");
        reveal_strlit("5");
        reveal_strlit("6");
        reveal_strlit("7");
        reveal_strlit("8");
        reveal_strlit("9");
    }
    assert(r@ =~= seq![('0' as int + d) as char]);
    r
}

/// `n` as decimal text.
pub fn decimal_text(n: u64) -> (r: String)
    ensures
        r@ == decimal(n as nat),
    decreases n,
{
    if n < 10 {
        digit_text(n).to_owned()
    } else {
        let mut r = decimal_text(n / 10);
        r.append(digit_text(n % 10));
        assert(r@ =~= decimal(n as nat));
        r
    }
}

// ── Laws ──────────────────────────────────────────────────────────────────────

/// The digit with the weight `10^i` in the decimal text of `n` is that of the number, and the text
/// has no more digits than the number.
pub proof fn law_decimal_is_positional(n: nat, i: nat)
    requires
        i < decimal(n).len(),
    ensures
        decimal(n)[decimal(n).len() - 1 - i] as int == '0' as int + (n as int / pow(10, i)) % 10,
        n >= 10 || decimal(n).len() == 1,
        n > 0 ==> decimal(n)[0] != '0',
    decreases n,
{
    lemma_leading_digit(n);
    if i == 0 {
        lemma_pow0(10);
    } else {
        let m = n / 10;
        law_decimal_is_positional(m, (i - 1) as nat);
        assert(decimal(n)[decimal(n).len() - 1 - i] == decimal(m)[decimal(m).len() - 1 - (i - 1)]);
        lemma_pow_positive(10, (i - 1) as nat);
        assert(pow(10, i) == 10 * pow(10, (i - 1) as nat)) by {
            reveal(pow);
        }
        lemma_div_denominator(n as int, 10, pow(10, (i - 1) as nat));
    }
}

proof fn lemma_leading_digit(n: nat)
    ensures
        n > 0 ==> decimal(n)[0] != '0',
        decimal(n).len() > 0,
    decreases n,
{
    if n >= 10 {
        lemma_leading_digit(n / 10);
        assert(decimal(n)[0] == decimal(n / 10)[0]);
    }
}

proof fn lemma_leading_zeros(k: nat, t: Seq<char>)
    ensures
        digits_value(repeated('0', k) + t) == digits_value(t),
    decreases k + t.len(),
{
    let s = repeated('0', k) + t;
    if t.len() > 0 {
        lemma_leading_zeros(k, t.drop_last());
        assert(s.drop_last() =~= repeated('0', k) + t.drop_last());
    } else if k > 0 {
        lemma_leading_zeros((k - 1) as nat, t);
        assert(s.drop_last() =~= repeated('0', (k - 1) as nat) + t);
    } else {
        assert(s =~= t);
    }
}

/// Digits are zeros in front of the decimal text of the number that they write.
proof fn lemma_digits_are_decimal(t: Seq<char>) -> (k: nat)
    requires
        t.len() > 0,
        all_digits(t),
    ensures
        t == repeated('0', k) + decimal(digits_value(t)),
    decreases t.len(),
{
    let c = t.last();
    let p = t.drop_last();
    assert(is_digit(t[t.len() - 1]));
    let d = (c as int - '0' as int) as nat;
    if p.len() == 0 {
        assert(digits_value(p) == 0);
        assert(digits_value(t) == d);
        assert(t =~= repeated('0', 0) + decimal(d));
        0
    } else {
        assert forall|i: int| 0 <= i < p.len() implies is_digit(#[trigger] p[i]) by {
            assert(p[i] == t[i]);
        }
        let k = lemma_digits_are_decimal(p);
        let v = digits_value(p);
        assert(digits_value(t) == 10 * v + d);
        assert(t =~= p.push(c));
        if v > 0 {
            assert((10 * v + d) / 10 == v);
            assert((10 * v + d) % 10 == d);
            assert(t =~= repeated('0', k) + decimal(10 * v + d));
            k
        } else {
            assert(decimal(0) =~= seq!['0']);
            assert(t =~= repeated('0', k + 1) + decimal(d));
            k + 1
        }
    }
}

/// A text is read as the number `n` exactly if `n` is in range and the text is the decimal text of
/// `n`, with any number of zeros and at most one plus sign in front of it.
pub proof fn law_what_is_read_as_a_number(s: Seq<char>, max: nat, n: nat)
    ensures
        unsigned(s, max) == Some(n) <==> n <= max && exists|k: nat|
            s == #[trigger] repeated('0', k) + decimal(n) || s == seq!['+'] + (repeated('0', k)
                + decimal(n)),
{
    let t = without_plus(s);
    if unsigned(s, max) == Some(n) {
        let k = lemma_digits_are_decimal(t);
        assert(t == repeated('0', k) + decimal(n));
        if s.len() > 0 && s[0] == '+' {
            assert(s =~= seq!['+'] + t);
        }
    }
    if n <= max {
        lemma_decimal(n);
        assert forall|k: nat|
            s == #[trigger] repeated('0', k) + decimal(n) || s == seq!['+'] + (repeated('0', k)
                + decimal(n)) implies unsigned(s, max) == Some(n) by {
            let w = repeated('0', k) + decimal(n);
            lemma_leading_zeros(k, decimal(n));
            assert forall|i: int| 0 <= i < w.len() implies is_digit(#[trigger] w[i]) by {
                if i >= k {
                    assert(w[i] == decimal(n)[i - k]);
                }
            }
            assert(is_digit(w[0]));
            if s != w {
                assert(s.drop_first() =~= w);
            }
        }
    }
}

/// Numbers are read back as they are written, and are read by each function up to the largest
/// number that it can hold.
pub proof fn law_numbers_in_full(
    n: u64,
    text: String,
    s: &str,
    max: u64,
    any: Option<u64>,
    small: Option<u8>,
    middle: Option<u16>,
)
    requires
        call_ensures(decimal_text, (n,), text),
        call_ensures(parse_unsigned, (s, max), any),
        call_ensures(parse_u8, (s,), small),
        call_ensures(parse_u16, (s,), middle),
    ensures
        s@ == text@ ==> (any == Some(n) <==> n <= max),
        s@ == text@ ==> (small is Some <==> n <= 255),
        s@ == text@ ==> (middle is Some <==> n <= 65535),
        s@ == text@ && small is Some ==> small->0 == n,
        s@ == text@ && middle is Some ==> middle->0 == n,
        any is Some <==> unsigned(s@, max as nat) is Some,
        any is Some ==> unsigned(s@, max as nat) == Some(any->0 as nat),
{
    law_written_number_is_read_up_to(n as nat, max as nat);
    law_written_number_is_read_up_to(n as nat, 255);
    law_written_number_is_read_up_to(n as nat, 65535);
}

/// The text of a number is read as that number exactly up to the largest number that is accepted.
pub proof fn law_written_number_is_read_up_to(n: nat, max: nat)
    ensures
        n <= max ==> unsigned(decimal(n), max) == Some(n),
        n > max ==> unsigned(decimal(n), max) is None,
{
    if n <= max {
        law_decimal_is_read_back(n, max);
    } else {
        law_decimal_is_read_back(n, n);
    }
}

} // verus!
