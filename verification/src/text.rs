//! The canonical text of values.
//!
//! Every value that can appear in a configuration line has one text, given by
//! the spec function [`Render::text`]; [`Render::render`] computes it. The
//! texts of integers, booleans and strings are defined here.

use vstd::prelude::*;
use vstd::string::StringExecFns;

verus! {

/// A value with a canonical text.
pub trait Render {
    /// The text of the value: a function of the value alone.
    spec fn text(&self) -> Seq<char>;

    /// Returns the text of the value.
    fn render(&self) -> (out: String)
        ensures
            out@ == self.text(),
    ;
}

/// The text depends on the value alone: equal values have equal texts, so
/// rendering a value twice gives the same text twice.
pub proof fn lemma_text_of_equal_values<T: Render>(a: T, b: T)
    requires
        a == b,
    ensures
        a.text() == b.text(),
{
}

/// Appends the text of `value` to `out`.
pub fn write_value<T: Render>(out: &mut String, value: &T)
    ensures
        final(out)@ == old(out)@ + value.text(),
{
    let piece = value.render();
    out.append(piece.as_str());
}

/// The character of the decimal digit `d`, for `d` below ten.
pub open spec fn digit(d: nat) -> char {
    if d == 0 {
        '0'
    } else if d == 1 {
        '1'
    } else if d == 2 {
        '2'
    } else if d == 3 {
        '3'
    } else if d == 4 {
        '4'
    } else if d == 5 {
        '5'
    } else if d == 6 {
        '6'
    } else if d == 7 {
        '7'
    } else if d == 8 {
        '8'
    } else {
        '9'
    }
}

/// Whether `c` is one of the ten decimal digits.
pub open spec fn is_digit(c: char) -> bool {
    '0' <= c <= '9'
}

/// The number that the digit character `c` stands for.
pub open spec fn digit_value(c: char) -> nat
    recommends
        is_digit(c),
{
    (c as nat - '0' as nat) as nat
}

/// The decimal numeral of `n`, without leading zeros.
pub open spec fn decimal_text(n: nat) -> Seq<char>
    decreases n,
{
    if n < 10 {
        seq![digit(n)]
    } else {
        decimal_text(n / 10).push(digit(n % 10))
    }
}

/// The decimal numeral of `i`, with a minus sign in front when `i` is negative.
pub open spec fn int_text(i: int) -> Seq<char> {
    if i < 0 {
        seq!['-'] + decimal_text((-i) as nat)
    } else {
        decimal_text(i as nat)
    }
}

/// `count` zeros.
pub open spec fn zeros(count: nat) -> Seq<char> {
    Seq::new(count, |i: int| '0')
}

/// A decimal numeral is never empty and holds digits only.
pub proof fn lemma_decimal_text_digits(n: nat)
    ensures
        decimal_text(n).len() >= 1,
        forall|i: int| 0 <= i < decimal_text(n).len() ==> is_digit(#[trigger] decimal_text(n)[i]),
    decreases n,
{
    if n >= 10 {
        lemma_decimal_text_digits(n / 10);
    }
}

/// A decimal numeral starts with a zero only when it is the numeral of zero.
pub proof fn lemma_decimal_text_leading(n: nat)
    ensures
        decimal_text(n)[0] == '0' <==> n == 0,
    decreases n,
{
    if n >= 10 {
        lemma_decimal_text_digits(n / 10);
        lemma_decimal_text_leading(n / 10);
    }
}

/// The one-character string of a decimal digit.
pub fn digit_str(d: u8) -> (s: &'static str)
    requires
        d < 10,
    ensures
        s@ == seq![digit(d as nat)],
{
    proof {
        reveal_strlit("0");
        reveal_strlit("1");
        reveal_strlit("2");
        reveal_strlit("3");
        reveal_strlit("4");
        reveal_strlit("5");
        reveal_strlit("6");
        reveal_strlit("7");
        reveal_strlit("8");
        reveal_strlit("9");
    }
    let s = match d {
        0 => "0",
        1 => "1",
        2 => "2",
        3 => "3",
        4 => "4",
        5 => "5",
        6 => "6",
        7 => "7",
        8 => "8",
        _ => "9",
    };
    assert(s@ =~= seq![digit(d as nat)]);
    s
}

/// Appends the decimal numeral of `n` to `out`.
pub fn write_decimal(out: &mut String, n: u64)
    ensures
        final(out)@ == old(out)@ + decimal_text(n as nat),
    decreases n,
{
    if n >= 10 {
        write_decimal(out, n / 10);
    }
    let last: u8 = (n % 10) as u8;
    out.append(digit_str(last));
    assert(out@ =~= old(out)@ + decimal_text(n as nat));
}

/// Appends `count` zeros to `out`.
pub fn write_zeros(out: &mut String, count: usize)
    ensures
        final(out)@ == old(out)@ + zeros(count as nat),
{
    let mut done: usize = 0;
    while done < count
        invariant
            done <= count,
            out@ == old(out)@ + zeros(done as nat),
        decreases count - done,
    {
        out.append(digit_str(0));
        done = done + 1;
        assert(out@ =~= old(out)@ + zeros(done as nat));
    }
    assert(old(out)@ + zeros(0) =~= old(out)@);
}

/// Returns the decimal numeral of `n`.
pub fn render_unsigned(n: u64) -> (out: String)
    ensures
        out@ == int_text(n as int),
{
    let mut out = String::new();
    write_decimal(&mut out, n);
    assert(out@ =~= decimal_text(n as nat));
    out
}

/// Returns the decimal numeral of `i`, signed when negative.
pub fn render_signed(i: i64) -> (out: String)
    ensures
        out@ == int_text(i as int),
{
    if i < 0 {
        proof {
            reveal_strlit("-");
        }
        let mut out = String::from_str("-");
        let magnitude: u64 = if i == i64::MIN {
            9223372036854775808u64
        } else {
            (-i) as u64
        };
        write_decimal(&mut out, magnitude);
        assert(out@ =~= seq!['-'] + decimal_text((-i) as nat));
        out
    } else {
        render_unsigned(i as u64)
    }
}

/// The texts of `items`, one after the other with nothing between them.
pub open spec fn concat_text(items: Seq<String>) -> Seq<char>
    decreases items.len(),
{
    if items.len() == 0 {
        Seq::empty()
    } else {
        concat_text(items.drop_last()) + items.last()@
    }
}

/// Each of `items` between double quotes, with a comma between one and the
/// next, and none after the last.
pub open spec fn quoted_list_text(items: Seq<String>) -> Seq<char>
    decreases items.len(),
{
    if items.len() == 0 {
        Seq::empty()
    } else if items.len() == 1 {
        seq!['"'] + items[0]@ + seq!['"']
    } else {
        quoted_list_text(items.drop_last()) + seq![',', '"'] + items.last()@ + seq!['"']
    }
}

/// Returns the items one after the other with nothing between them.
pub fn render_concat(items: &Vec<String>) -> (out: String)
    ensures
        out@ == concat_text(items@),
{
    let mut out = String::new();
    let mut i: usize = 0;
    while i < items.len()
        invariant
            i <= items.len(),
            out@ == concat_text(items@.subrange(0, i as int)),
        decreases items.len() - i,
    {
        out.append(items[i].as_str());
        proof {
            let next = items@.subrange(0, i + 1);
            assert(next.drop_last() =~= items@.subrange(0, i as int));
        }
        i = i + 1;
    }
    assert(items@.subrange(0, i as int) =~= items@);
    out
}

/// Returns the items as a list of quoted strings with commas between them.
pub fn render_quoted_list(items: &Vec<String>) -> (out: String)
    ensures
        out@ == quoted_list_text(items@),
{
    let mut out = String::new();
    let mut i: usize = 0;
    proof {
        reveal_strlit("\"");
        reveal_strlit(",\"");
    }
    while i < items.len()
        invariant
            i <= items.len(),
            out@ == quoted_list_text(items@.subrange(0, i as int)),
            "\""@ == seq!['"'],
            ",\""@ == seq![',', '"'],
        decreases items.len() - i,
    {
        let ghost next = items@.subrange(0, i + 1);
        proof {
            assert(next.drop_last() =~= items@.subrange(0, i as int));
            assert(next.last() == items@[i as int]);
        }
        if i == 0 {
            out.append("\"");
            assert(next[0] == items@[0]);
        } else {
            out.append(",\"");
        }
        out.append(items[i].as_str());
        out.append("\"");
        assert(out@ =~= quoted_list_text(next));
        i = i + 1;
    }
    assert(items@.subrange(0, i as int) =~= items@);
    out
}

impl Render for u8 {
    open spec fn text(&self) -> Seq<char> {
        int_text(*self as int)
    }

    fn render(&self) -> (out: String) {
        render_unsigned(*self as u64)
    }
}

impl Render for u16 {
    open spec fn text(&self) -> Seq<char> {
        int_text(*self as int)
    }

    fn render(&self) -> (out: String) {
        render_unsigned(*self as u64)
    }
}

impl Render for u32 {
    open spec fn text(&self) -> Seq<char> {
        int_text(*self as int)
    }

    fn render(&self) -> (out: String) {
        render_unsigned(*self as u64)
    }
}

impl Render for u64 {
    open spec fn text(&self) -> Seq<char> {
        int_text(*self as int)
    }

    fn render(&self) -> (out: String) {
        render_unsigned(*self)
    }
}

impl Render for usize {
    open spec fn text(&self) -> Seq<char> {
        int_text(*self as int)
    }

    fn render(&self) -> (out: String) {
        render_unsigned(*self as u64)
    }
}

impl Render for i8 {
    open spec fn text(&self) -> Seq<char> {
        int_text(*self as int)
    }

    fn render(&self) -> (out: String) {
        render_signed(*self as i64)
    }
}

impl Render for i32 {
    open spec fn text(&self) -> Seq<char> {
        int_text(*self as int)
    }

    fn render(&self) -> (out: String) {
        render_signed(*self as i64)
    }
}

impl Render for bool {
    open spec fn text(&self) -> Seq<char> {
        if *self {
            "true"@
        } else {
            "false"@
        }
    }

    fn render(&self) -> (out: String) {
        if *self {
            String::from_str("true")
        } else {
            String::from_str("false")
        }
    }
}

impl Render for String {
    open spec fn text(&self) -> Seq<char> {
        self@
    }

    fn render(&self) -> (out: String) {
        self.clone()
    }
}

} // verus!
