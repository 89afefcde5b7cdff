//! Decimal rendering of integers, as the pages put counters and indices into
//! their labels, and the joining of label pieces.

use vstd::prelude::*;
use vstd::string::*;

verus! {

/// The character of a single decimal digit.
pub open spec fn digit_char(d: nat) -> char {
    if d == 0 { '0' }
    else if d == 1 { '1' }
    else if d == 2 { '2' }
    else if d == 3 { '3' }
    else if d == 4 { '4' }
    else if d == 5 { '5' }
    else if d == 6 { '6' }
    else if d == 7 { '7' }
    else if d == 8 { '8' }
    else { '9' }
}

/// The decimal digits of `n`, most significant first, without leading zeros.
pub open spec fn decimal(n: nat) -> Seq<char>
    decreases n,
{
    if n < 10 {
        seq![digit_char(n)]
    } else {
        decimal(n / 10).push(digit_char(n % 10))
    }
}

/// The decimal rendering of a signed integer: a minus sign before the digits
/// of its magnitude when it is negative.
pub open spec fn signed_decimal(n: int) -> Seq<char> {
    if n < 0 {
        seq!['-'] + decimal((-n) as nat)
    } else {
        decimal(n as nat)
    }
}

/// Whether `c` is one of the ten decimal digits.
pub open spec fn is_digit(c: char) -> bool {
    '0' <= c && c <= '9'
}

/// Every rendering has at least one character, and all of them are digits.
pub proof fn lemma_decimal_digits(n: nat)
    ensures
        decimal(n).len() >= 1,
        forall|i: int| 0 <= i < decimal(n).len() ==> is_digit(#[trigger] decimal(n)[i]),
    decreases n,
{
    if n >= 10 {
        lemma_decimal_digits(n / 10);
    }
}

/// A number below ten renders as one character, any other as more.
pub proof fn lemma_decimal_len(n: nat)
    ensures
        n < 10 <==> decimal(n).len() == 1,
    decreases n,
{
    if n >= 10 {
        lemma_decimal_digits(n / 10);
    }
}

proof fn lemma_digit_char_injective(a: nat, b: nat)
    requires
        a < 10,
        b < 10,
        digit_char(a) == digit_char(b),
    ensures
        a == b,
{
}

/// Distinct numbers have distinct renderings.
pub proof fn lemma_decimal_injective(a: nat, b: nat)
    requires
        decimal(a) == decimal(b),
    ensures
        a == b,
    decreases a,
{
    lemma_decimal_len(a);
    lemma_decimal_len(b);
    if a < 10 {
        assert(b < 10);
        assert(decimal(a)[0] == digit_char(a));
        assert(decimal(b)[0] == digit_char(b));
        lemma_digit_char_injective(a, b);
    } else {
        let pa = decimal(a / 10);
        let pb = decimal(b / 10);
        assert(decimal(a).last() == digit_char(a % 10));
        assert(decimal(b).last() == digit_char(b % 10));
        lemma_digit_char_injective(a % 10, b % 10);
        assert(decimal(a).drop_last() =~= pa);
        assert(decimal(b).drop_last() =~= pb);
        lemma_decimal_injective(a / 10, b / 10);
    }
}

/// The one-character string of the digit `d`.
fn digit_str(d: u64) -> (s: &'static str)
    requires
        d < 10,
    ensures
        s@ == seq![digit_char(d as nat)],
{
    if d == 0 {
        proof { reveal_strlit("0"); }
        "0"
    } else if d == 1 {
        proof { reveal_strlit("1"); }
        "1"
    } else if d == 2 {
        proof { reveal_strlit("2"); }
        "2"
    } else if d == 3 {
        proof { reveal_strlit("3"); }
        "3"
    } else if d == 4 {
        proof { reveal_strlit("4"); }
        "4"
    } else if d == 5 {
        proof { reveal_strlit("5"); }
        "5"
    } else if d == 6 {
        proof { reveal_strlit("6"); }
        "6"
    } else if d == 7 {
        proof { reveal_strlit("7"); }
        "7"
    } else if d == 8 {
        proof { reveal_strlit("8"); }
        "8"
    } else {
        proof { reveal_strlit("9"); }
        "9"
    }
}

/// The decimal rendering of `n`, as `n.to_string()` gives it.
pub fn decimal_text(n: u64) -> (s: String)
    ensures
        s@ == decimal(n as nat),
    decreases n,
{
    if n < 10 {
        String::from_str(digit_str(n))
    } else {
        let mut s = decimal_text(n / 10);
        s.append(digit_str(n % 10));
        s
    }
}

/// The decimal rendering of a signed `n`, as `n.to_string()` gives it.
pub fn signed_text(n: i64) -> (s: String)
    ensures
        s@ == signed_decimal(n as int),
{
    if n < 0 {
        let magnitude: u64 = (0i128 - (n as i128)) as u64;
        proof { reveal_strlit("-"); }
        let mut s = String::from_str("-");
        let digits = decimal_text(magnitude);
        s.append(digits.as_str());
        s
    } else {
        decimal_text(n as u64)
    }
}

/// `prefix`, then `rest`, as one string.
pub fn join2(prefix: &str, rest: &str) -> (s: String)
    ensures
        s@ == prefix@ + rest@,
{
    let mut s = String::from_str(prefix);
    s.append(rest);
    s
}

/// `prefix`, then `middle`, then `suffix`, as one string.
pub fn join3(prefix: &str, middle: &str, suffix: &str) -> (s: String)
    ensures
        s@ == prefix@ + middle@ + suffix@,
{
    let mut s = String::from_str(prefix);
    s.append(middle);
    s.append(suffix);
    s
}

/// Two digit strings joined by a separator that is not a digit split back
/// into the same two parts.
pub proof fn lemma_split_at_separator(a: Seq<char>, b: Seq<char>, c: Seq<char>, d: Seq<char>, sep: char)
    requires
        forall|k: int| 0 <= k < a.len() ==> is_digit(#[trigger] a[k]),
        forall|k: int| 0 <= k < c.len() ==> is_digit(#[trigger] c[k]),
        !is_digit(sep),
        a + seq![sep] + b == c + seq![sep] + d,
    ensures
        a == c,
        b == d,
{
    let x = a + seq![sep] + b;
    let y = c + seq![sep] + d;
    if a.len() < c.len() {
        assert(x[a.len() as int] == sep);
        assert(y[a.len() as int] == c[a.len() as int]);
    } else if c.len() < a.len() {
        assert(y[c.len() as int] == sep);
        assert(x[c.len() as int] == a[c.len() as int]);
    }
    assert(a =~= x.subrange(0, a.len() as int));
    assert(c =~= y.subrange(0, c.len() as int));
    assert(b =~= x.subrange(a.len() as int + 1, x.len() as int));
    assert(d =~= y.subrange(c.len() as int + 1, y.len() as int));
}

/// `s` is empty or starts with something other than a digit, so it cannot
/// be mistaken for more digits of a number before it.
pub open spec fn starts_non_digit(s: Seq<char>) -> bool {
    s.len() == 0 || !is_digit(s[0])
}

/// All characters of `s` are digits.
pub open spec fn all_digits(s: Seq<char>) -> bool {
    forall|k: int| 0 <= k < s.len() ==> is_digit(#[trigger] s[k])
}

/// A run of digits followed by a tail that does not start with a digit
/// splits back into the same run and tail.
pub proof fn lemma_digits_split(a: Seq<char>, b: Seq<char>, c: Seq<char>, d: Seq<char>)
    requires
        all_digits(a),
        all_digits(c),
        starts_non_digit(b),
        starts_non_digit(d),
        a + b == c + d,
    ensures
        a == c,
        b == d,
{
    let x = a + b;
    let y = c + d;
    if a.len() < c.len() {
        assert(y[a.len() as int] == c[a.len() as int]);
        assert(x[a.len() as int] == b[0]);
    } else if c.len() < a.len() {
        assert(x[c.len() as int] == a[c.len() as int]);
        assert(y[c.len() as int] == d[0]);
    }
    assert(a =~= x.subrange(0, a.len() as int));
    assert(c =~= y.subrange(0, c.len() as int));
    assert(b =~= x.subrange(a.len() as int, x.len() as int));
    assert(d =~= y.subrange(c.len() as int, y.len() as int));
}

/// Equal texts with the same prefix agree after it.
pub proof fn lemma_cancel_prefix(p: Seq<char>, x: Seq<char>, y: Seq<char>)
    requires
        p + x == p + y,
    ensures
        x == y,
{
    assert(x =~= (p + x).subrange(p.len() as int, (p + x).len() as int));
    assert(y =~= (p + y).subrange(p.len() as int, (p + y).len() as int));
}

/// A rendered number followed by a tail that does not start with a digit
/// determines both the number and the tail.
pub proof fn lemma_decimal_tail_injective(m: nat, s: Seq<char>, n: nat, t: Seq<char>)
    requires
        starts_non_digit(s),
        starts_non_digit(t),
        decimal(m) + s == decimal(n) + t,
    ensures
        m == n,
        s == t,
{
    lemma_decimal_digits(m);
    lemma_decimal_digits(n);
    lemma_digits_split(decimal(m), s, decimal(n), t);
    lemma_decimal_injective(m, n);
}

/// A rendered signed number followed by a tail that does not start with a
/// digit determines both the number and the tail.
pub proof fn lemma_signed_tail_injective(m: int, s: Seq<char>, n: int, t: Seq<char>)
    requires
        starts_non_digit(s),
        starts_non_digit(t),
        signed_decimal(m) + s == signed_decimal(n) + t,
    ensures
        m == n,
        s == t,
{
    lemma_decimal_digits((if m < 0 { -m } else { m }) as nat);
    lemma_decimal_digits((if n < 0 { -n } else { n }) as nat);
    let x = signed_decimal(m) + s;
    if m < 0 && n < 0 {
        assert(x =~= seq!['-'] + (decimal((-m) as nat) + s));
        assert(x =~= seq!['-'] + (decimal((-n) as nat) + t));
        lemma_cancel_prefix(seq!['-'], decimal((-m) as nat) + s, decimal((-n) as nat) + t);
        lemma_decimal_tail_injective((-m) as nat, s, (-n) as nat, t);
    } else if m < 0 {
        assert(x[0] == '-');
        assert(x[0] == decimal(n as nat)[0]);
    } else if n < 0 {
        assert(x[0] == decimal(m as nat)[0]);
        assert((signed_decimal(n) + t)[0] == '-');
    } else {
        lemma_decimal_tail_injective(m as nat, s, n as nat, t);
    }
}

/// Distinct signed numbers render differently.
pub proof fn lemma_signed_injective(m: int, n: int)
    requires
        signed_decimal(m) == signed_decimal(n),
    ensures
        m == n,
{
    assert(signed_decimal(m) + Seq::<char>::empty() =~= signed_decimal(m));
    assert(signed_decimal(n) + Seq::<char>::empty() =~= signed_decimal(n));
    lemma_signed_tail_injective(m, Seq::<char>::empty(), n, Seq::<char>::empty());
}

} // verus!
