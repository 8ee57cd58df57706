//! Reading a decimal number from its numeral.

use vstd::prelude::*;
use vstd::string::StrSliceExecFns;
use crate::decimal::magnitude_text;
use crate::decimal::sign_text;
use crate::decimal::Decimal;
use crate::text::decimal_text;
use crate::text::digit;
use crate::text::digit_value;
use crate::text::is_digit;
use crate::text::lemma_decimal_text_digits;
use crate::text::lemma_decimal_text_leading;
use crate::text::zeros;
use crate::text::Render;

verus! {

/// The number that a string of digits denotes; zero for the empty string.
pub open spec fn numeral_value(s: Seq<char>) -> nat
    decreases s.len(),
{
    if s.len() == 0 {
        0
    } else {
        10 * numeral_value(s.drop_last()) + digit_value(s.last())
    }
}

/// Where the run of digits that begins at `from` ends: the place of the
/// first character at or behind `from` that is no digit, or the length of
/// `s`.
pub open spec fn digit_run_end(s: Seq<char>, from: int) -> int
    decreases s.len() - from,
{
    if 0 <= from < s.len() && is_digit(s[from]) {
        digit_run_end(s, from + 1)
    } else {
        from
    }
}

/// How many zeros stand at the end of `s`.
pub open spec fn trailing_zeros(s: Seq<char>) -> nat
    decreases s.len(),
{
    if s.len() > 0 && s.last() == '0' {
        1 + trailing_zeros(s.drop_last())
    } else {
        0
    }
}

/// The number that the numeral `s` denotes, if `s` is a numeral that a
/// [`Decimal`] can hold.
///
/// A numeral is an optional minus sign, one or more digits and, optionally, a
/// point followed by one or more digits. Before the point stands a single
/// zero or a number that does not begin with zero.
///
/// A numeral with a point gives the number with all its digits as
/// coefficient and the count of digits behind the point, negated, as
/// exponent. A numeral without a point gives the number with its trailing
/// zeros counted in the exponent, and plain zero for zero. There is no number
/// where the coefficient does not fit in 64 bits or the exponent in 32.
pub open spec fn parse_text(s: Seq<char>) -> Option<Decimal> {
    let negative = s.len() > 0 && s[0] == '-';
    let start: int = if negative {
        1
    } else {
        0
    };
    let point = digit_run_end(s, start);
    let whole = s.subrange(start, point);
    if whole.len() == 0 || (whole.len() > 1 && whole[0] == '0') {
        None
    } else if point == s.len() {
        let zeros = trailing_zeros(whole);
        if zeros == whole.len() {
            Some(Decimal { negative, digits: 0, exponent: 0 })
        } else {
            let digits = numeral_value(whole.subrange(0, whole.len() - zeros));
            if digits <= u64::MAX && zeros <= i32::MAX {
                Some(Decimal { negative, digits: digits as u64, exponent: zeros as i32 })
            } else {
                None
            }
        }
    } else if s[point] == '.' && point + 1 < s.len() && digit_run_end(s, point + 1) == s.len() {
        let fraction = s.subrange(point + 1, s.len() as int);
        let digits = numeral_value(whole + fraction);
        if digits <= u64::MAX && -fraction.len() >= i32::MIN {
            Some(Decimal { negative, digits: digits as u64, exponent: (-fraction.len()) as i32 })
        } else {
            None
        }
    } else {
        None
    }
}

/// The value of a string of digits does not shrink when digits are added
/// behind it.
pub proof fn lemma_numeral_value_grows(s: Seq<char>, k: int)
    requires
        0 <= k <= s.len(),
    ensures
        numeral_value(s.subrange(0, k)) <= numeral_value(s),
    decreases s.len(),
{
    if k < s.len() {
        lemma_numeral_value_grows(s.drop_last(), k);
        assert(s.drop_last().subrange(0, k) =~= s.subrange(0, k));
    } else {
        assert(s.subrange(0, k) =~= s);
    }
}

/// The numeral of the value of a string of digits is that string without its
/// leading zeros: filled up with zeros in front it gives the string back.
pub proof fn lemma_decimal_text_of_value(t: Seq<char>)
    requires
        t.len() >= 1,
        forall|i: int| 0 <= i < t.len() ==> is_digit(#[trigger] t[i]),
    ensures
        decimal_text(numeral_value(t)).len() <= t.len(),
        zeros((t.len() - decimal_text(numeral_value(t)).len()) as nat) + decimal_text(
            numeral_value(t),
        ) == t,
        t[0] != '0' || t.len() == 1 ==> decimal_text(numeral_value(t)) == t,
    decreases t.len(),
{
    let front = t.drop_last();
    let c = t.last();
    let value = numeral_value(t);
    assert(is_digit(t[t.len() - 1]));
    assert(digit(digit_value(c)) == c);
    assert(numeral_value(Seq::<char>::empty()) == 0);
    if front.len() == 0 {
        assert(value == digit_value(c));
        assert(decimal_text(value) =~= t);
        assert(zeros(0) + decimal_text(value) =~= t);
    } else {
        assert forall|i: int| 0 <= i < front.len() implies is_digit(#[trigger] front[i]) by {
            assert(front[i] == t[i]);
        }
        lemma_decimal_text_of_value(front);
        let inner = decimal_text(numeral_value(front));
        let fill = (front.len() - inner.len()) as nat;
        if numeral_value(front) == 0 {
            assert(inner =~= seq!['0']);
            assert(decimal_text(value) =~= seq![c]);
            assert(zeros((t.len() - 1) as nat) + seq![c] =~= (zeros(fill) + inner).push(c));
            assert(front.push(c) =~= t);
            assert(t[0] == front[0]);
            assert((zeros(fill) + inner)[0] == '0');
        } else {
            assert(value / 10 == numeral_value(front) && value % 10 == digit_value(c));
            assert(decimal_text(value) =~= inner.push(c));
            assert(zeros(fill) + inner.push(c) =~= (zeros(fill) + inner).push(c));
            assert(front.push(c) =~= t);
        }
        if t[0] != '0' {
            let numeral = decimal_text(value);
            let pad = (t.len() - numeral.len()) as nat;
            if pad > 0 {
                assert((zeros(pad) + numeral)[0] == '0');
            }
            assert(zeros(0) + numeral =~= numeral);
        }
    }
}

/// The last characters of a string, as many as it has trailing zeros, are
/// zeros, and the character in front of them is none.
pub proof fn lemma_trailing_zeros(s: Seq<char>)
    ensures
        trailing_zeros(s) <= s.len(),
        s.subrange(s.len() - trailing_zeros(s), s.len() as int) == zeros(trailing_zeros(s)),
        trailing_zeros(s) < s.len() ==> s[s.len() - trailing_zeros(s) - 1] != '0',
    decreases s.len(),
{
    if s.len() > 0 && s.last() == '0' {
        lemma_trailing_zeros(s.drop_last());
        let front = s.drop_last();
        let z = trailing_zeros(front);
        let tail = s.subrange(s.len() - z - 1, s.len() as int);
        assert forall|i: int| 0 <= i < z + 1 implies #[trigger] tail[i] == '0' by {
            if i < z {
                assert(front.subrange(front.len() - z, front.len() as int)[i] == front[front.len()
                    - z + i]);
                assert(zeros(z)[i] == '0');
            }
        }
        assert(tail =~= zeros(z + 1));
    } else {
        assert(s.subrange(s.len() as int, s.len() as int) =~= zeros(0));
    }
}

/// The value of a string of digits that ends in another digit than zero is
/// not zero.
proof fn lemma_numeral_value_positive(t: Seq<char>)
    requires
        t.len() >= 1,
        is_digit(t.last()),
        t.last() != '0',
    ensures
        numeral_value(t) > 0,
{
}

/// A number that is read from digits alone is written as those digits.
proof fn lemma_whole_sound(whole: Seq<char>)
    requires
        whole.len() >= 1,
        forall|i: int| 0 <= i < whole.len() ==> is_digit(#[trigger] whole[i]),
        whole.len() > 1 ==> whole[0] != '0',
    ensures
        ({
            let zeros = trailing_zeros(whole);
            let stem = whole.subrange(0, whole.len() - zeros);
            &&& zeros <= whole.len()
            &&& zeros == whole.len() ==> whole == decimal_text(0)
            &&& zeros < whole.len() ==> numeral_value(stem) > 0 && decimal_text(
                numeral_value(stem),
            ) + crate::text::zeros(zeros) == whole
        }),
{
    let z = trailing_zeros(whole);
    lemma_trailing_zeros(whole);
    if z == whole.len() {
        assert(whole.subrange(0, whole.len() as int)[0] == zeros(z)[0]);
        assert(whole[0] == '0');
        assert(whole =~= decimal_text(0));
    } else {
        let stem = whole.subrange(0, whole.len() - z);
        assert forall|i: int| 0 <= i < stem.len() implies is_digit(#[trigger] stem[i]) by {
            assert(stem[i] == whole[i]);
        }
        assert(stem.last() == whole[whole.len() - z - 1]);
        lemma_numeral_value_positive(stem);
        assert(stem[0] == whole[0]);
        lemma_decimal_text_of_value(stem);
        assert(stem + zeros(z) =~= whole);
    }
}

/// A number that is read from digits around a point is written as those
/// digits around the point.
proof fn lemma_fraction_sound(whole: Seq<char>, fraction: Seq<char>)
    requires
        whole.len() >= 1,
        fraction.len() >= 1,
        forall|i: int| 0 <= i < whole.len() ==> is_digit(#[trigger] whole[i]),
        forall|i: int| 0 <= i < fraction.len() ==> is_digit(#[trigger] fraction[i]),
        whole.len() > 1 ==> whole[0] != '0',
    ensures
        magnitude_text(numeral_value(whole + fraction), -fraction.len()) == whole + seq!['.']
            + fraction,
{
    let all = whole + fraction;
    let k = fraction.len();
    assert forall|i: int| 0 <= i < all.len() implies is_digit(#[trigger] all[i]) by {
        if i < whole.len() {
            assert(all[i] == whole[i]);
        } else {
            assert(all[i] == fraction[i - whole.len()]);
        }
    }
    lemma_decimal_text_of_value(all);
    let numeral = decimal_text(numeral_value(all));
    let padded = if numeral.len() > k {
        numeral
    } else {
        zeros((k + 1 - numeral.len()) as nat) + numeral
    };
    assert(all[0] == whole[0]);
    if whole.len() == 1 {
        assert(all.len() == k + 1);
        if numeral.len() > k {
            assert(zeros(0) + numeral =~= numeral);
        }
    }
    assert(padded == all);
    assert(padded.subrange(0, padded.len() - k) =~= whole);
    assert(padded.subrange(padded.len() - k, padded.len() as int) =~= fraction);
}

/// What is read from a numeral is written as that numeral.
pub proof fn lemma_parse_text_sound(s: Seq<char>)
    ensures
        parse_text(s) matches Some(d) ==> d.text() == s,
{
    if let Some(d) = parse_text(s) {
        let negative = s.len() > 0 && s[0] == '-';
        let start: int = if negative {
            1
        } else {
            0
        };
        let point = digit_run_end(s, start);
        lemma_digit_run(s, start);
        let whole = s.subrange(start, point);
        assert(s.subrange(0, start) =~= sign_text(negative));
        assert forall|i: int| 0 <= i < whole.len() implies is_digit(#[trigger] whole[i]) by {
            assert(whole[i] == s[start + i]);
        }
        if point == s.len() {
            lemma_whole_sound(whole);
            assert(s =~= sign_text(negative) + whole);
        } else {
            lemma_digit_run(s, point + 1);
            let fraction = s.subrange(point + 1, s.len() as int);
            assert forall|i: int| 0 <= i < fraction.len() implies is_digit(
                #[trigger] fraction[i],
            ) by {
                assert(fraction[i] == s[point + 1 + i]);
            }
            lemma_fraction_sound(whole, fraction);
            assert(s =~= sign_text(negative) + (whole + seq!['.'] + fraction));
        }
    }
}

/// A run of digits holds digits only, and ends at the end of the string or
/// in front of a character that is no digit.
pub proof fn lemma_digit_run(s: Seq<char>, from: int)
    requires
        0 <= from <= s.len(),
    ensures
        from <= digit_run_end(s, from) <= s.len(),
        forall|i: int| from <= i < digit_run_end(s, from) ==> is_digit(#[trigger] s[i]),
        digit_run_end(s, from) < s.len() ==> !is_digit(s[digit_run_end(s, from)]),
    decreases s.len() - from,
{
    if from < s.len() && is_digit(s[from]) {
        lemma_digit_run(s, from + 1);
    }
}

/// The value of the numeral of a number is that number.
pub proof fn lemma_value_of_decimal_text(n: nat)
    ensures
        numeral_value(decimal_text(n)) == n,
    decreases n,
{
    let numeral = decimal_text(n);
    if n < 10 {
        assert(numeral.drop_last() =~= Seq::<char>::empty());
        assert(numeral.last() == digit(n));
        assert(digit_value(digit(n)) == n);
        assert(numeral_value(numeral.drop_last()) == 0);
    } else {
        lemma_value_of_decimal_text(n / 10);
        assert(numeral.drop_last() =~= decimal_text(n / 10));
        assert(numeral.last() == digit(n % 10));
        assert(digit_value(digit(n % 10)) == n % 10);
    }
}

/// Zeros in front of a string of digits do not change its value.
pub proof fn lemma_value_with_leading_zeros(count: nat, t: Seq<char>)
    ensures
        numeral_value(zeros(count) + t) == numeral_value(t),
    decreases t.len(), count,
{
    if t.len() > 0 {
        lemma_value_with_leading_zeros(count, t.drop_last());
        assert((zeros(count) + t).drop_last() =~= zeros(count) + t.drop_last());
        assert((zeros(count) + t).last() == t.last());
    } else if count > 0 {
        lemma_value_with_leading_zeros((count - 1) as nat, t);
        assert((zeros(count) + t).drop_last() =~= zeros((count - 1) as nat) + t);
        assert((zeros(count) + t).last() == '0');
    } else {
        assert(zeros(0) + t =~= t);
    }
}

/// Zeros behind a string add to its trailing zeros.
pub proof fn lemma_trailing_zeros_appended(t: Seq<char>, count: nat)
    ensures
        trailing_zeros(t + zeros(count)) == count + trailing_zeros(t),
    decreases count,
{
    if count > 0 {
        lemma_trailing_zeros_appended(t, (count - 1) as nat);
        assert((t + zeros(count)).drop_last() =~= t + zeros((count - 1) as nat));
        assert((t + zeros(count)).last() == '0');
    } else {
        assert(t + zeros(0) =~= t);
    }
}

/// A stretch of digits that ends at the end of the string, or in front of a
/// character that is no digit, is a whole run of digits.
pub proof fn lemma_digit_run_end(s: Seq<char>, from: int, to: int)
    requires
        0 <= from <= to <= s.len(),
        forall|i: int| from <= i < to ==> is_digit(#[trigger] s[i]),
        to < s.len() ==> !is_digit(s[to]),
    ensures
        digit_run_end(s, from) == to,
    decreases to - from,
{
    if from < to {
        lemma_digit_run_end(s, from + 1, to);
    }
}

impl Decimal {
    /// Whether the number is written in the one way in which a numeral is
    /// read: with an exponent of zero or more, the coefficient does not end
    /// in a zero, and zero has the exponent zero.
    pub open spec fn is_standard(self) -> bool {
        self.exponent >= 0 ==> (self.digits % 10 != 0 || (self.digits == 0 && self.exponent == 0))
    }
}

/// The magnitude of a number is written with a digit in front.
proof fn lemma_magnitude_begins_with_digit(digits: nat, exponent: int)
    ensures
        magnitude_text(digits, exponent).len() >= 1,
        is_digit(magnitude_text(digits, exponent)[0]),
{
    let numeral = decimal_text(digits);
    lemma_decimal_text_digits(digits);
    assert(is_digit(numeral[0]));
    if exponent >= 0 {
        assert(magnitude_text(digits, exponent)[0] == numeral[0]);
    } else {
        let k = -exponent;
        if numeral.len() > k {
            assert(magnitude_text(digits, exponent)[0] == numeral[0]);
        } else {
            let padded = zeros((k + 1 - numeral.len()) as nat) + numeral;
            assert(padded[0] == '0');
            assert(magnitude_text(digits, exponent)[0] == padded[0]);
        }
    }
}

/// A whole number in standard form is read from its magnitude as it was
/// written.
proof fn lemma_parse_whole(s: Seq<char>, start: int, d: Decimal)
    requires
        d.is_standard(),
        d.exponent >= 0,
        0 <= start <= 1,
        s.len() > start,
        s.subrange(start, s.len() as int) == magnitude_text(d.digits as nat, d.exponent as int),
        start == 1 <==> s[0] == '-',
    ensures
        parse_text(s) == Some(Decimal { negative: start == 1, ..d }),
{
    let magnitude = magnitude_text(d.digits as nat, d.exponent as int);
    let numeral = decimal_text(d.digits as nat);
    lemma_decimal_text_digits(d.digits as nat);
    lemma_decimal_text_leading(d.digits as nat);
    lemma_value_of_decimal_text(d.digits as nat);
    assert forall|i: int| 0 <= i < magnitude.len() implies is_digit(#[trigger] magnitude[i]) by {
        if d.digits != 0 && i >= numeral.len() {
            assert(magnitude[i] == zeros(d.exponent as nat)[i - numeral.len()]);
        } else {
            assert(magnitude[i] == numeral[i]);
        }
    }
    assert forall|i: int| start <= i < s.len() implies is_digit(#[trigger] s[i]) by {
        assert(s[i] == s.subrange(start, s.len() as int)[i - start]);
    }
    lemma_digit_run_end(s, start, s.len() as int);
    assert(magnitude[0] == numeral[0]);
    if d.digits == 0 {
        assert(magnitude =~= seq!['0']);
        assert(trailing_zeros(magnitude.drop_last()) == 0);
        assert(trailing_zeros(magnitude) == 1);
    } else {
        lemma_trailing_zeros_appended(numeral, d.exponent as nat);
        assert(numeral.last() == digit((d.digits % 10) as nat));
        assert(trailing_zeros(numeral) == 0);
        assert(trailing_zeros(magnitude) == d.exponent);
        assert(magnitude.subrange(0, magnitude.len() - d.exponent) =~= numeral);
    }
}

/// The numeral of a number with a fraction part: digits, a point, and as
/// many digits as the exponent asks for. Before the point stands a single
/// digit or a number that does not begin with zero, and the digits taken
/// together have the coefficient as their value.
pub proof fn lemma_fraction_shape(digits: nat, exponent: int)
    requires
        exponent < 0,
    ensures
        ({
            let m = magnitude_text(digits, exponent);
            let point = m.len() - 1 + exponent;
            &&& point >= 1
            &&& m[point] == '.'
            &&& forall|i: int| 0 <= i < m.len() && i != point ==> is_digit(#[trigger] m[i])
            &&& point > 1 ==> m[0] != '0'
            &&& numeral_value(m.subrange(0, point) + m.subrange(point + 1, m.len() as int))
                == digits
        }),
{
    let m = magnitude_text(digits, exponent);
    let numeral = decimal_text(digits);
    lemma_decimal_text_digits(digits);
    lemma_decimal_text_leading(digits);
    lemma_value_of_decimal_text(digits);
    let k = -exponent;
    let fill = if numeral.len() > k {
        0nat
    } else {
        (k + 1 - numeral.len()) as nat
    };
    let padded = zeros(fill) + numeral;
    assert(numeral.len() > k ==> padded =~= numeral);
    let point = padded.len() - k;
    let whole = padded.subrange(0, point);
    let fraction = padded.subrange(point, padded.len() as int);
    assert(m =~= whole + seq!['.'] + fraction);
    assert(point == m.len() - 1 + exponent);
    assert forall|i: int| 0 <= i < padded.len() implies is_digit(#[trigger] padded[i]) by {
        if i < fill {
            assert(padded[i] == '0');
        } else {
            assert(padded[i] == numeral[i - fill]);
        }
    }
    assert forall|i: int| 0 <= i < m.len() && i != point implies is_digit(#[trigger] m[i]) by {
        if i < point {
            assert(m[i] == padded[i]);
        } else {
            assert(m[i] == padded[i - 1]);
        }
    }
    assert(m.subrange(0, point) =~= whole);
    assert(m.subrange(point + 1, m.len() as int) =~= fraction);
    assert(whole + fraction =~= padded);
    lemma_value_with_leading_zeros(fill, numeral);
    if point > 1 {
        assert(fill == 0);
        assert(m[0] == numeral[0]);
    }
}

/// A number with a fraction part is read from its magnitude as it was
/// written.
proof fn lemma_parse_fraction(s: Seq<char>, start: int, d: Decimal)
    requires
        d.exponent < 0,
        0 <= start <= 1,
        s.len() > start,
        s.subrange(start, s.len() as int) == magnitude_text(d.digits as nat, d.exponent as int),
        start == 1 <==> s[0] == '-',
    ensures
        parse_text(s) == Some(Decimal { negative: start == 1, ..d }),
{
    let m = magnitude_text(d.digits as nat, d.exponent as int);
    lemma_fraction_shape(d.digits as nat, d.exponent as int);
    let inner = m.len() - 1 + d.exponent;
    let point = start + inner;
    assert forall|i: int| start <= i < s.len() implies #[trigger] s[i] == m[i - start] by {
        assert(s[i] == s.subrange(start, s.len() as int)[i - start]);
    }
    assert(digit_run_end(s, start) == point) by {
        assert forall|i: int| start <= i < point implies is_digit(#[trigger] s[i]) by {
            assert(s[i] == m[i - start]);
        }
        assert(s[point] == m[inner]);
        lemma_digit_run_end(s, start, point);
    }
    assert(s[point] == '.') by {
        assert(s[point] == m[inner]);
    }
    assert(digit_run_end(s, point + 1) == s.len()) by {
        assert forall|i: int| point + 1 <= i < s.len() implies is_digit(#[trigger] s[i]) by {
            assert(s[i] == m[i - start]);
        }
        lemma_digit_run_end(s, point + 1, s.len() as int);
    }
    let whole = s.subrange(start, point);
    let fraction = s.subrange(point + 1, s.len() as int);
    assert(whole =~= m.subrange(0, inner));
    assert(fraction =~= m.subrange(inner + 1, m.len() as int));
    assert(whole.len() > 1 ==> whole[0] != '0') by {
        if whole.len() > 1 {
            assert(whole[0] == m[0]);
        }
    }
    assert(numeral_value(whole + fraction) == d.digits);
    assert(fraction.len() == -d.exponent);
}

/// What is written of a number in standard form is read as that number.
pub proof fn lemma_parse_text_of_text(d: Decimal)
    requires
        d.is_standard(),
    ensures
        parse_text(d.text()) == Some(d),
{
    let s = d.text();
    let sign = sign_text(d.negative);
    let magnitude = magnitude_text(d.digits as nat, d.exponent as int);
    let start = sign.len() as int;
    lemma_magnitude_begins_with_digit(d.digits as nat, d.exponent as int);
    assert(s.subrange(start, s.len() as int) =~= magnitude);
    assert(s[start] == magnitude[0]);
    if d.exponent >= 0 {
        lemma_parse_whole(s, start, d);
    } else {
        lemma_parse_fraction(s, start, d);
    }
}

/// Returns where the run of digits that begins at `from` ends.
fn scan_digits(s: &str, from: usize, len: usize) -> (end: usize)
    requires
        from <= len,
        len == s@.len(),
    ensures
        from <= end <= len,
        end == digit_run_end(s@, from as int),
        forall|i: int| from <= i < end ==> is_digit(#[trigger] s@[i]),
{
    let mut i = from;
    while i < len
        invariant
            from <= i <= len,
            len == s@.len(),
            digit_run_end(s@, from as int) == digit_run_end(s@, i as int),
            forall|j: int| from <= j < i ==> is_digit(#[trigger] s@[j]),
        decreases len - i,
    {
        let code = s.get_char(i) as u32;
        if !(48 <= code && code <= 57) {
            return i;
        }
        i = i + 1;
    }
    i
}

/// Returns the number that the digits of `s` from `from` up to `to` denote,
/// leaving out the character at `skip` if it lies between them, or nothing
/// where that number does not fit in 64 bits.
fn value_of_digits(s: &str, from: usize, to: usize, skip: usize) -> (value: Option<u64>)
    requires
        from <= to <= s@.len(),
        forall|i: int| from <= i < to && i != skip ==> is_digit(#[trigger] s@[i]),
        from <= skip < to ==> from < skip,
    ensures
        value is Some <==> numeral_value(digits_between(s@, from as int, to as int, skip as int))
            <= u64::MAX,
        value is Some ==> value->0 == numeral_value(
            digits_between(s@, from as int, to as int, skip as int),
        ),
{
    let mut value: u64 = 0;
    let mut i = from;
    proof {
        assert(digits_between(s@, from as int, from as int, skip as int) =~= Seq::<char>::empty());
    }
    while i < to
        invariant
            from <= i <= to <= s@.len(),
            forall|j: int| from <= j < to && j != skip ==> is_digit(#[trigger] s@[j]),
            value == numeral_value(digits_between(s@, from as int, i as int, skip as int)),
        decreases to - i,
    {
        let ghost all = digits_between(s@, from as int, to as int, skip as int);
        let ghost next = digits_between(s@, from as int, i + 1, skip as int);
        proof {
            lemma_digits_between_prefix(s@, from as int, i + 1, to as int, skip as int);
            lemma_numeral_value_grows(all, next.len() as int);
        }
        if i != skip {
            let code = s.get_char(i) as u32;
            let d: u64 = (code - 48) as u64;
            proof {
                assert(next.drop_last() =~= digits_between(s@, from as int, i as int, skip as int));
                assert(next.last() == s@[i as int]);
                assert(d == digit_value(s@[i as int]));
            }
            if value > (u64::MAX - d) / 10 {
                return None;
            }
            value = value * 10 + d;
        } else {
            proof {
                assert(next =~= digits_between(s@, from as int, i as int, skip as int));
            }
        }
        i = i + 1;
    }
    Some(value)
}

/// The characters of `s` from `from` up to `to`, without the one at `skip`.
pub open spec fn digits_between(s: Seq<char>, from: int, to: int, skip: int) -> Seq<char> {
    if from <= skip < to {
        s.subrange(from, skip) + s.subrange(skip + 1, to)
    } else {
        s.subrange(from, to)
    }
}

/// The characters up to `mid` are the front of the characters up to `to`.
proof fn lemma_digits_between_prefix(s: Seq<char>, from: int, mid: int, to: int, skip: int)
    requires
        0 <= from <= mid <= to <= s.len(),
    ensures
        digits_between(s, from, mid, skip) == digits_between(s, from, to, skip).subrange(
            0,
            digits_between(s, from, mid, skip).len() as int,
        ),
{
    assert(digits_between(s, from, mid, skip) =~= digits_between(s, from, to, skip).subrange(
        0,
        digits_between(s, from, mid, skip).len() as int,
    ));
}

/// Returns how many zeros stand at the end of the digits of `s` between
/// `from` and `to`.
fn count_trailing_zeros(s: &str, from: usize, to: usize) -> (zeros: usize)
    requires
        from <= to <= s@.len(),
    ensures
        zeros == trailing_zeros(s@.subrange(from as int, to as int)),
        zeros <= to - from,
{
    let mut zeros: usize = 0;
    while zeros < to - from
        invariant
            from <= to <= s@.len(),
            zeros <= to - from,
            trailing_zeros(s@.subrange(from as int, to as int)) == zeros + trailing_zeros(
                s@.subrange(from as int, to - zeros),
            ),
        decreases to - from - zeros,
    {
        let ghost rest = s@.subrange(from as int, to - zeros);
        if s.get_char(to - zeros - 1) as u32 != 48 {
            assert(rest.last() != '0');
            return zeros;
        }
        proof {
            assert(rest.last() == '0');
            assert(rest.drop_last() =~= s@.subrange(from as int, to - zeros - 1));
        }
        zeros = zeros + 1;
    }
    proof {
        assert(s@.subrange(from as int, to - zeros).len() == 0);
    }
    zeros
}

impl Decimal {
    /// Reads the number that the numeral `s` denotes. The result is nothing
    /// where `s` is no numeral, and where the number does not fit. A number
    /// that was read is written as the same numeral again.
    pub fn parse(s: &str) -> (r: Option<Decimal>)
        ensures
            r == parse_text(s@),
            r matches Some(d) ==> d.text() == s@,
    {
        proof {
            lemma_parse_text_sound(s@);
        }
        let len = s.unicode_len();
        let negative = len > 0 && s.get_char(0) as u32 == 45;
        let start: usize = if negative {
            1
        } else {
            0
        };
        let point = scan_digits(s, start, len);
        let ghost whole = s@.subrange(start as int, point as int);
        if point == start {
            return None;
        }
        if point - start > 1 && s.get_char(start) as u32 == 48 {
            assert(whole[0] == '0');
            return None;
        }
        assert(whole.len() > 1 ==> whole[0] == s@[start as int]);
        if point == len {
            let zeros = count_trailing_zeros(s, start, point);
            if zeros == point - start {
                return Some(Decimal { negative, digits: 0, exponent: 0 });
            }
            let value = value_of_digits(s, start, point - zeros, point);
            proof {
                assert(digits_between(s@, start as int, point - zeros, point as int) =~= whole.subrange(
                    0,
                    whole.len() - zeros,
                ));
            }
            match value {
                Some(digits) => {
                    if zeros <= 2147483647 {
                        Some(Decimal { negative, digits, exponent: zeros as i32 })
                    } else {
                        None
                    }
                },
                None => None,
            }
        } else {
            if s.get_char(point) as u32 != 46 {
                return None;
            }
            if point + 1 >= len {
                return None;
            }
            let end = scan_digits(s, point + 1, len);
            if end != len {
                return None;
            }
            let value = value_of_digits(s, start, len, point);
            let ghost fraction = s@.subrange(point + 1, len as int);
            proof {
                assert(digits_between(s@, start as int, len as int, point as int) =~= whole
                    + fraction);
            }
            match value {
                Some(digits) => {
                    let count = len - point - 1;
                    if count <= 2147483648 {
                        Some(Decimal { negative, digits, exponent: (-(count as i64)) as i32 })
                    } else {
                        None
                    }
                },
                None => None,
            }
        }
    }
}

} // verus!
