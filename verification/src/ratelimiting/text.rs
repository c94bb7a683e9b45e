//! Reading the values of rate-limit headers: whole numbers, flags, and
//! decimal numbers of seconds, which are taken as milliseconds.

use vstd::prelude::*;
use vstd::std_specs::iter::IteratorSpec;

verus! {

broadcast use vstd::string::group_string_axioms;

/// The value of a decimal digit.
pub open spec fn digit_of(c: char) -> Option<nat> {
    match c {
        '0' => Some(0),
        '1' => Some(1),
        '2' => Some(2),
        '3' => Some(3),
        '4' => Some(4),
        '5' => Some(5),
        '6' => Some(6),
        '7' => Some(7),
        '8' => Some(8),
        '9' => Some(9),
        _ => None,
    }
}

/// Whether every character is a decimal digit.
pub open spec fn all_digits(s: Seq<char>) -> bool {
    forall|i: int| 0 <= i < s.len() ==> (#[trigger] digit_of(s[i])).is_some()
}

/// The number that a row of decimal digits writes; anything else counts as
/// a zero.
pub open spec fn number(s: Seq<char>) -> nat
    decreases s.len(),
{
    if s.len() == 0 {
        0
    } else {
        number(s.drop_last()) * 10 + match digit_of(s.last()) {
            Some(d) => d,
            None => 0,
        }
    }
}

/// The whole number that a text writes: one or more decimal digits, with or
/// without a plus sign before them.
pub open spec fn whole_number(s: Seq<char>) -> Option<nat> {
    let digits = if s.len() > 0 && s[0] == '+' {
        s.drop_first()
    } else {
        s
    };
    if digits.len() > 0 && all_digits(digits) {
        Some(number(digits))
    } else {
        None
    }
}

/// The flag that a text writes.
pub open spec fn flag(s: Seq<char>) -> Option<bool> {
    if s == seq!['t', 'r', 'u', 'e'] {
        Some(true)
    } else if s == seq!['f', 'a', 'l', 's', 'e'] {
        Some(false)
    } else {
        None
    }
}

/// The place of the first decimal point: the length of the text where it
/// has none.
pub open spec fn point(s: Seq<char>) -> int
    decreases s.len(),
{
    if s.len() == 0 || s[0] == '.' {
        0
    } else {
        1 + point(s.drop_first())
    }
}

/// A decimal number as it is written: a sign, the digits before the decimal
/// point and the digits after it.
pub struct Decimal {
    pub negative: bool,
    pub whole: Seq<char>,
    pub fraction: Seq<char>,
}

/// The decimal number that a text writes: digits with or without a sign
/// before them and with at most one decimal point among, before or after
/// them. Nothing else writes a number here: a text with an exponent, such as
/// `1e3`, and the words `inf`, `infinity` and `nan` write none, and are
/// faults where a header holds them.
pub open spec fn decimal(s: Seq<char>) -> Option<Decimal> {
    let signed = s.len() > 0 && (s[0] == '+' || s[0] == '-');
    let body = if signed {
        s.drop_first()
    } else {
        s
    };
    let at = point(body);
    let whole = body.subrange(0, at);
    let fraction = if at < body.len() {
        body.subrange(at + 1, body.len() as int)
    } else {
        Seq::empty()
    };
    if all_digits(whole) && all_digits(fraction) && whole.len() + fraction.len() > 0 {
        Some(Decimal { negative: signed && s[0] == '-', whole, fraction })
    } else {
        None
    }
}

/// The first `n` digits after the decimal point, with zeros where the text
/// has fewer.
pub open spec fn padded(fraction: Seq<char>, n: nat) -> Seq<char> {
    Seq::new(
        n,
        |i: int|
            if i < fraction.len() {
                fraction[i]
            } else {
                '0'
            },
    )
}

/// Whether a digit other than zero stands at or after the place `from`.
pub open spec fn nonzero_from(fraction: Seq<char>, from: int) -> bool {
    exists|i: int| from <= i < fraction.len() && fraction[i] != '0'
}

/// The least number of thousandths that is no less than the number written
/// by the digits `whole` before and `fraction` after the decimal point.
pub open spec fn thousandths(whole: Seq<char>, fraction: Seq<char>) -> nat {
    number(whole) * 1000 + number(padded(fraction, 3)) + if nonzero_from(fraction, 3) {
        1nat
    } else {
        0nat
    }
}

/// The milliseconds that a text of seconds comes to: the seconds times a
/// thousand, rounded up, and kept within what 64 bits hold, so that a
/// negative number comes to zero.
pub open spec fn millis(s: Seq<char>) -> Option<u64> {
    match decimal(s) {
        Some(d) => if d.negative {
            Some(0)
        } else if thousandths(d.whole, d.fraction) > u64::MAX {
            Some(u64::MAX)
        } else {
            Some(thousandths(d.whole, d.fraction) as u64)
        },
        None => None,
    }
}

/// The first place at which a decimal point stands is the place of the point.
pub proof fn point_found(s: Seq<char>, at: int)
    requires
        0 <= at <= s.len(),
        forall|k: int| 0 <= k < at ==> s[k] != '.',
        at < s.len() ==> s[at] == '.',
    ensures
        point(s) == at,
    decreases s.len(),
{
    if s.len() == 0 || s[0] == '.' {
    } else {
        let rest = s.drop_first();
        assert forall|k: int| 0 <= k < at - 1 implies rest[k] != '.' by {
            assert(rest[k] == s[k + 1]);
        }
        point_found(rest, at - 1);
    }
}

/// The place of the point is a place in the text or its length; no point
/// stands before it, and one stands at it if it is in the text.
pub proof fn point_bounds(s: Seq<char>)
    ensures
        0 <= point(s) <= s.len(),
        forall|k: int| 0 <= k < point(s) ==> s[k] != '.',
        point(s) < s.len() ==> s[point(s)] == '.',
    decreases s.len(),
{
    if s.len() == 0 || s[0] == '.' {
    } else {
        point_bounds(s.drop_first());
        assert forall|k: int| 0 <= k < point(s) implies s[k] != '.' by {
            if k > 0 {
                assert(s[k] == s.drop_first()[k - 1]);
            }
        }
    }
}

/// A row of at most three digits writes a number below a thousand.
pub proof fn number_below(s: Seq<char>)
    requires
        s.len() <= 3,
    ensures
        s.len() == 0 ==> number(s) == 0,
        s.len() == 1 ==> number(s) <= 9,
        s.len() == 2 ==> number(s) <= 99,
        s.len() == 3 ==> number(s) <= 999,
    decreases s.len(),
{
    if s.len() > 0 {
        number_below(s.drop_last());
    }
}

/// Ten to the power of `n`.
pub open spec fn pow10(n: nat) -> nat
    decreases n,
{
    if n == 0 {
        1
    } else {
        10 * pow10((n - 1) as nat)
    }
}

/// Digits written after digits shift them to the left.
pub proof fn number_of_joined(a: Seq<char>, b: Seq<char>)
    ensures
        number(a + b) == number(a) * pow10(b.len()) + number(b),
    decreases b.len(),
{
    if b.len() == 0 {
        assert(a + b =~= a);
        assert(pow10(b.len()) == 1);
        assert(number(b) == 0);
        assert(number(a) * 1 == number(a)) by (nonlinear_arith);
    } else {
        number_of_joined(a, b.drop_last());
        assert((a + b).drop_last() =~= a + b.drop_last());
        assert((a + b).last() == b.last());
        let x = number(a);
        let p = pow10(b.drop_last().len());
        let y = number(b.drop_last());
        assert(pow10(b.len()) == 10 * p);
        assert(number(a + b.drop_last()) == x * p + y);
        assert((x * p + y) * 10 == x * (10 * p) + y * 10) by (nonlinear_arith);
        assert(x * pow10(b.len()) == x * (10 * p));
    }
}

/// A row of digits writes a number below ten to the power of its length.
pub proof fn number_is_short(s: Seq<char>)
    ensures
        number(s) < pow10(s.len()),
    decreases s.len(),
{
    if s.len() > 0 {
        number_is_short(s.drop_last());
    }
}

/// A row of digits writes zero exactly if each of them is a zero.
pub proof fn zero_means_zeros(s: Seq<char>)
    requires
        all_digits(s),
    ensures
        number(s) == 0 <==> forall|i: int| 0 <= i < s.len() ==> s[i] == '0',
    decreases s.len(),
{
    if s.len() > 0 {
        let rest = s.drop_last();
        assert forall|i: int| 0 <= i < rest.len() implies (#[trigger] digit_of(
            rest[i],
        )).is_some() by {
            assert(rest[i] == s[i]);
        }
        zero_means_zeros(rest);
        assert(digit_of(s.last()).is_some());
        if number(s) == 0 {
            assert forall|i: int| 0 <= i < s.len() implies s[i] == '0' by {
                if i < rest.len() {
                    assert(rest[i] == s[i]);
                }
            }
        } else if forall|i: int| 0 <= i < s.len() ==> s[i] == '0' {
            assert forall|i: int| 0 <= i < rest.len() implies rest[i] == '0' by {
                assert(rest[i] == s[i]);
            }
            assert(s.last() == s[s.len() - 1]);
        }
    }
}

/// The thousandths of a decimal number are the number times a thousand,
/// rounded up: they are the least whole number that, divided by a thousand,
/// is no less than the number that the digits write.
pub proof fn thousandths_are_rounded_up(whole: Seq<char>, fraction: Seq<char>)
    requires
        all_digits(whole),
        all_digits(fraction),
    ensures
        ({
            let t = thousandths(whole, fraction);
            let n = number(whole + fraction);
            let d = pow10(fraction.len());
            &&& d > 0
            &&& t * d >= 1000 * n
            &&& t * d < 1000 * n + d
        }),
{
    let k = fraction.len();
    let w = number(whole);
    let f = number(fraction);
    let d = pow10(k);
    let n = number(whole + fraction);
    let t = thousandths(whole, fraction);
    number_of_joined(whole, fraction);
    number_is_short(fraction);
    reveal_with_fuel(pow10, 4);
    reveal_with_fuel(number, 4);
    if k >= 3 {
        let head = fraction.subrange(0, 3);
        let tail = fraction.subrange(3, k as int);
        assert(head =~= padded(fraction, 3));
        assert(head + tail =~= fraction);
        number_of_joined(head, tail);
        number_is_short(tail);
        assert forall|i: int| 0 <= i < tail.len() implies (#[trigger] digit_of(
            tail[i],
        )).is_some() by {
            assert(tail[i] == fraction[i + 3]);
        }
        zero_means_zeros(tail);
        let p = number(head);
        let r = number(tail);
        let e = pow10(tail.len());
        assert(d == 1000 * e) by {
            pow10_of_sum(3, tail.len());
        }
        if nonzero_from(fraction, 3) {
            let i = choose|i: int| 3 <= i < fraction.len() && fraction[i] != '0';
            assert(tail[i - 3] == fraction[i]);
            assert(r > 0);
        } else {
            assert forall|i: int| 0 <= i < tail.len() implies tail[i] == '0' by {
                assert(tail[i] == fraction[i + 3]);
            }
            assert(r == 0);
        }
        let c: nat = if nonzero_from(fraction, 3) {
            1
        } else {
            0
        };
        assert(t == w * 1000 + p + c);
        assert(n == w * d + (p * e + r));
        assert(t * d >= 1000 * n && t * d < 1000 * n + d) by (nonlinear_arith)
            requires
                t == w * 1000 + p + c,
                n == w * d + (p * e + r),
                d == 1000 * e,
                r < e,
                c == 1 ==> r > 0,
                c == 0 ==> r == 0,
                c == 0 || c == 1,
        ;
    } else {
        assert(!nonzero_from(fraction, 3));
        let zeros = padded(fraction, 3).subrange(k as int, 3);
        assert(fraction + zeros =~= padded(fraction, 3));
        number_of_joined(fraction, zeros);
        assert(number(zeros) == 0) by {
            if zeros.len() == 1 {
                assert(zeros.drop_last().len() == 0);
            } else if zeros.len() == 2 {
                assert(zeros.drop_last().len() == 1);
                assert(zeros.drop_last().drop_last().len() == 0);
            } else {
                assert(zeros.drop_last().len() == 2);
                assert(zeros.drop_last().drop_last().len() == 1);
                assert(zeros.drop_last().drop_last().drop_last().len() == 0);
            }
        }
        let e = pow10(zeros.len());
        assert(d * e == 1000) by {
            pow10_of_sum(k, zeros.len());
        }
        assert(t == w * 1000 + f * e);
        assert(n == w * d + f);
        assert(t * d == 1000 * n) by (nonlinear_arith)
            requires
                t == w * 1000 + f * e,
                n == w * d + f,
                d * e == 1000,
        ;
    }
}

/// Ten to the power of a sum is the product of the powers.
pub proof fn pow10_of_sum(a: nat, b: nat)
    ensures
        pow10(a + b) == pow10(a) * pow10(b),
        pow10(a) > 0,
    decreases a,
{
    if a > 0 {
        pow10_of_sum((a - 1) as nat, b);
        let x = pow10((a - 1) as nat);
        let y = pow10(b);
        assert(10 * (x * y) == (10 * x) * y) by (nonlinear_arith);
        assert(pow10(a + b) == 10 * pow10((a + b - 1) as nat));
        assert((a + b - 1) as nat == ((a - 1) as nat) + b);
        assert(pow10(a) == 10 * x);
    } else {
        assert(pow10(a) == 1);
        assert(1 * pow10(b) == pow10(b)) by (nonlinear_arith);
    }
}

/// A number grows with every digit written after it.
pub proof fn number_grows(s: Seq<char>, i: int)
    requires
        0 <= i <= s.len(),
    ensures
        number(s.subrange(0, i)) <= number(s),
    decreases s.len() - i,
{
    if i < s.len() {
        number_grows(s, i + 1);
        assert(s.subrange(0, i + 1).drop_last() =~= s.subrange(0, i));
    } else {
        assert(s.subrange(0, i) =~= s);
    }
}

/// The characters of a text.
pub fn chars_of(text: &str) -> (chars: Vec<char>)
    ensures
        chars@ == text@,
{
    let mut chars: Vec<char> = Vec::new();
    for c in it: text.chars()
        invariant
            it.seq() == text@,
            chars@ == text@.subrange(0, it.index()),
    {
        chars.push(c);
        assert(chars@ =~= text@.subrange(0, it.index() + 1));
    }
    assert(text@.subrange(0, text@.len() as int) =~= text@);
    chars
}

/// Decides [`digit_of`].
pub fn digit(c: char) -> (d: Option<u64>)
    ensures
        match d {
            Some(d) => digit_of(c) == Some(d as nat) && d <= 9,
            None => digit_of(c).is_none(),
        },
{
    match c {
        '0' => Some(0),
        '1' => Some(1),
        '2' => Some(2),
        '3' => Some(3),
        '4' => Some(4),
        '5' => Some(5),
        '6' => Some(6),
        '7' => Some(7),
        '8' => Some(8),
        '9' => Some(9),
        _ => None,
    }
}

/// Reads a whole number. A text that writes none, or one beyond what 64 bits
/// hold, gives nothing.
pub fn parse_int(text: &str) -> (value: Option<u64>)
    ensures
        value == match whole_number(text@) {
            Some(n) => if n <= u64::MAX {
                Some(n as u64)
            } else {
                None
            },
            None => None,
        },
{
    let chars = chars_of(text);
    let start: usize = if chars.len() > 0 && chars[0] == '+' {
        1
    } else {
        0
    };
    if start == chars.len() {
        return None;
    }
    let ghost digits = chars@.subrange(start as int, chars@.len() as int);
    assert(digits =~= if chars@.len() > 0 && chars@[0] == '+' {
        chars@.drop_first()
    } else {
        chars@
    });
    let mut value: u64 = 0;
    let mut i: usize = start;
    while i < chars.len()
        invariant
            start <= i <= chars@.len(),
            chars@ == text@,
            digits.len() > 0,
            digits == chars@.subrange(start as int, chars@.len() as int),
            digits == (if text@.len() > 0 && text@[0] == '+' {
                text@.drop_first()
            } else {
                text@
            }),
            all_digits(digits.subrange(0, i - start)),
            value == number(digits.subrange(0, i - start)),
        decreases chars@.len() - i,
    {
        let ghost before = digits.subrange(0, i - start);
        let ghost next = digits.subrange(0, i - start + 1);
        proof {
            assert(next.drop_last() =~= before);
            assert(next.last() == chars@[i as int]);
        }
        match digit(chars[i]) {
            Some(d) => {
                proof {
                    assert forall|k: int| 0 <= k < next.len() implies (#[trigger] digit_of(
                        next[k],
                    )).is_some() by {
                        if k < before.len() {
                            assert(next[k] == before[k]);
                        }
                    }
                }
                if value > (u64::MAX - d) / 10 {
                    proof {
                        number_grows(digits, i - start + 1);
                    }
                    return None;
                }
                value = value * 10 + d;
            },
            None => {
                proof {
                    assert(digit_of(digits[i - start]).is_none());
                }
                return None;
            },
        }
        i = i + 1;
    }
    proof {
        assert(digits.subrange(0, i - start) =~= digits);
    }
    Some(value)
}

/// The greatest number of whole seconds whose milliseconds 64 bits hold.
pub const MOST_SECONDS: u64 = 18_446_744_073_709_551;

/// Reads the digits from `start` up to the decimal point or the end. Gives
/// the place where they end and the number they write, or no number where
/// it is beyond [`MOST_SECONDS`]; gives nothing where they are not all
/// digits.
fn read_whole(chars: &Vec<char>, start: usize) -> (read: Option<(usize, Option<u64>)>)
    requires
        start <= chars@.len(),
    ensures
        ({
            let body = chars@.subrange(start as int, chars@.len() as int);
            let whole = body.subrange(0, point(body));
            match read {
                Some((dot, seconds)) => {
                    &&& dot == start + point(body)
                    &&& dot <= chars@.len()
                    &&& all_digits(whole)
                    &&& match seconds {
                        Some(n) => n == number(whole) && n <= MOST_SECONDS,
                        None => number(whole) > MOST_SECONDS,
                    }
                },
                None => !all_digits(whole),
            }
        }),
{
    let n = chars.len();
    let ghost body = chars@.subrange(start as int, n as int);
    let mut seconds: u64 = 0;
    let mut huge = false;
    let mut i: usize = start;
    while i < n && chars[i] != '.'
        invariant
            start <= i <= n,
            n == chars@.len(),
            body == chars@.subrange(start as int, n as int),
            forall|k: int| 0 <= k < i - start ==> body[k] != '.',
            all_digits(body.subrange(0, i - start)),
            !huge ==> seconds == number(body.subrange(0, i - start)) && seconds
                <= MOST_SECONDS,
            huge ==> number(body.subrange(0, i - start)) > MOST_SECONDS,
        decreases n - i,
    {
        let ghost before = body.subrange(0, i - start);
        let ghost next = body.subrange(0, i - start + 1);
        proof {
            assert(next.drop_last() =~= before);
            assert(next.last() == chars@[i as int]);
        }
        match digit(chars[i]) {
            Some(d) => {
                proof {
                    assert forall|k: int| 0 <= k < next.len() implies (#[trigger] digit_of(
                        next[k],
                    )).is_some() by {
                        if k < before.len() {
                            assert(next[k] == before[k]);
                        }
                    }
                }
                if !huge {
                    if seconds * 10 + d > MOST_SECONDS {
                        huge = true;
                    } else {
                        seconds = seconds * 10 + d;
                    }
                }
            },
            None => {
                proof {
                    let at = point(body);
                    point_bounds(body);
                    assert(digit_of(body[i - start]).is_none());
                    if at > i - start {
                        assert(body.subrange(0, at)[i - start] == body[i - start]);
                    } else if at < i - start {
                        assert(body[at] != '.');
                    }
                }
                return None;
            },
        }
        i = i + 1;
    }
    proof {
        point_found(body, i - start);
    }
    if huge {
        Some((i, None))
    } else {
        Some((i, Some(seconds)))
    }
}

/// Reads the digits from `from` to the end as thousandths. Gives the number
/// that the first three write, with zeros for those that are missing, and
/// whether a digit other than zero follows them; gives nothing where they
/// are not all digits.
fn read_fraction(chars: &Vec<char>, from: usize) -> (read: Option<(u64, bool)>)
    requires
        from <= chars@.len(),
    ensures
        ({
            let fraction = chars@.subrange(from as int, chars@.len() as int);
            match read {
                Some((thousandth, more)) => {
                    &&& all_digits(fraction)
                    &&& thousandth == number(padded(fraction, 3))
                    &&& thousandth <= 999
                    &&& more == nonzero_from(fraction, 3)
                },
                None => !all_digits(fraction),
            }
        }),
{
    let n = chars.len();
    let ghost fraction = chars@.subrange(from as int, n as int);
    let mut thousandth: u64 = 0;
    let mut taken: usize = 0;
    let mut more = false;
    let mut i: usize = from;
    while i < n
        invariant
            from <= i <= n,
            n == chars@.len(),
            fraction == chars@.subrange(from as int, n as int),
            all_digits(fraction.subrange(0, i - from)),
            taken <= 3,
            taken == (if i - from < 3 {
                i - from
            } else {
                3
            }),
            thousandth == number(fraction.subrange(0, taken as int)),
            thousandth <= 999,
            more == exists|k: int| 3 <= k < i - from && fraction[k] != '0',
        decreases n - i,
    {
        let ghost j = i - from;
        let ghost before = fraction.subrange(0, j);
        let ghost next = fraction.subrange(0, j + 1);
        proof {
            assert(next.drop_last() =~= before);
            assert(next.last() == chars@[i as int]);
        }
        match digit(chars[i]) {
            Some(d) => {
                proof {
                    assert forall|k: int| 0 <= k < next.len() implies (#[trigger] digit_of(
                        next[k],
                    )).is_some() by {
                        if k < before.len() {
                            assert(next[k] == before[k]);
                        }
                    }
                }
                if taken < 3 {
                    proof {
                        number_below(before);
                    }
                    thousandth = thousandth * 10 + d;
                    taken = taken + 1;
                    proof {
                        number_below(next);
                    }
                } else if d != 0 {
                    more = true;
                } else {
                    proof {
                        assert(fraction[j] == '0');
                    }
                }
            },
            None => {
                proof {
                    assert(digit_of(fraction[j]).is_none());
                }
                return None;
            },
        }
        i = i + 1;
    }
    proof {
        assert(fraction.subrange(0, i - from) =~= fraction);
        assert(padded(fraction, taken as nat) =~= fraction.subrange(0, taken as int));
    }
    while taken < 3
        invariant
            taken <= 3,
            taken >= fraction.len() || taken == 3,
            thousandth == number(padded(fraction, taken as nat)),
            all_digits(padded(fraction, taken as nat)),
        decreases 3 - taken,
    {
        proof {
            number_below(padded(fraction, taken as nat));
            assert(padded(fraction, (taken + 1) as nat).drop_last() =~= padded(
                fraction,
                taken as nat,
            ));
        }
        thousandth = thousandth * 10;
        taken = taken + 1;
        proof {
            assert forall|k: int| 0 <= k < taken implies (#[trigger] digit_of(
                padded(fraction, taken as nat)[k],
            )).is_some() by {
                if k < taken - 1 {
                    assert(padded(fraction, taken as nat)[k] == padded(
                        fraction,
                        (taken - 1) as nat,
                    )[k]);
                }
            }
        }
    }
    proof {
        number_below(padded(fraction, 3));
    }
    Some((thousandth, more))
}

/// Reads a decimal number of seconds as milliseconds, rounded up. A text
/// that writes no decimal number gives nothing; so do a number with an
/// exponent and the words `inf`, `infinity` and `nan`, which the platform
/// does not send.
pub fn parse_millis(text: &str) -> (value: Option<u64>)
    ensures
        value == millis(text@),
{
    let chars = chars_of(text);
    let n = chars.len();
    let signed = n > 0 && (chars[0] == '+' || chars[0] == '-');
    let negative = signed && chars[0] == '-';
    let start: usize = if signed {
        1
    } else {
        0
    };
    let ghost body = chars@.subrange(start as int, n as int);
    assert(body =~= if signed {
        text@.drop_first()
    } else {
        text@
    });
    let (dot, seconds) = match read_whole(&chars, start) {
        Some(read) => read,
        None => {
            return None;
        },
    };
    let from: usize = if dot < n {
        dot + 1
    } else {
        n
    };
    let ghost fraction = chars@.subrange(from as int, n as int);
    assert(fraction =~= if point(body) < body.len() {
        body.subrange(point(body) + 1, body.len() as int)
    } else {
        Seq::<char>::empty()
    });
    let (thousandth, more) = match read_fraction(&chars, from) {
        Some(read) => read,
        None => {
            return None;
        },
    };
    proof {
        point_bounds(body);
    }
    if dot == start && from == n {
        return None;
    }
    if negative {
        return Some(0);
    }
    match seconds {
        Some(seconds) => {
            let extra: u128 = if more {
                1
            } else {
                0
            };
            let total: u128 = seconds as u128 * 1000 + thousandth as u128 + extra;
            if total > 0xffff_ffff_ffff_ffff {
                Some(u64::MAX)
            } else {
                Some(total as u64)
            }
        },
        None => {
            proof {
                let whole = body.subrange(0, point(body));
                assert(number(whole) * 1000 > u64::MAX) by (nonlinear_arith)
                    requires
                        number(whole) > MOST_SECONDS,
                ;
            }
            Some(u64::MAX)
        },
    }
}

/// Reads a flag: `true` or `false`, and nothing else.
pub fn parse_bool(text: &str) -> (value: Option<bool>)
    ensures
        value == flag(text@),
{
    let chars = chars_of(text);
    if chars.len() == 4 && chars[0] == 't' && chars[1] == 'r' && chars[2] == 'u' && chars[3]
        == 'e' {
        assert(chars@ =~= seq!['t', 'r', 'u', 'e']);
        Some(true)
    } else if chars.len() == 5 && chars[0] == 'f' && chars[1] == 'a' && chars[2] == 'l'
        && chars[3] == 's' && chars[4] == 'e' {
        assert(chars@ =~= seq!['f', 'a', 'l', 's', 'e']);
        Some(false)
    } else {
        proof {
            if chars@ == seq!['t', 'r', 'u', 'e'] {
                assert(seq!['t', 'r', 'u', 'e'].len() == 4);
                assert(seq!['t', 'r', 'u', 'e'][0] == 't');
                assert(seq!['t', 'r', 'u', 'e'][1] == 'r');
                assert(seq!['t', 'r', 'u', 'e'][2] == 'u');
                assert(seq!['t', 'r', 'u', 'e'][3] == 'e');
            }
            if chars@ == seq!['f', 'a', 'l', 's', 'e'] {
                assert(seq!['f', 'a', 'l', 's', 'e'].len() == 5);
                assert(seq!['f', 'a', 'l', 's', 'e'][0] == 'f');
                assert(seq!['f', 'a', 'l', 's', 'e'][1] == 'a');
                assert(seq!['f', 'a', 'l', 's', 'e'][2] == 'l');
                assert(seq!['f', 'a', 'l', 's', 'e'][3] == 's');
                assert(seq!['f', 'a', 'l', 's', 'e'][4] == 'e');
            }
        }
        None
    }
}

} // verus!
