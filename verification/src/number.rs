//! Numeric literals.
//!
//! A number reaches the library as the bit pattern of a binary64 value
//! together with the decimal numeral that stands for it in text. The bits
//! decide whether the value is finite; the numeral is what a finite value is
//! written as.

use crate::text::chars_of;
use vstd::prelude::*;
use vstd::string::StringExecFns;

verus! {

/// Whether a binary64 value is finite, and which of the others it is if not.
#[derive(Clone, Copy, Debug, PartialEq, Eq, Structural)]
pub enum Class {
    Finite,
    /// Positive infinity.
    Infinity,
    /// Negative infinity.
    NegInfinity,
    /// Not a number.
    NaN,
}

/// The bits of positive infinity: exponent all ones, fraction zero.
pub const INFINITY_BITS: u64 = 0x7ff0_0000_0000_0000;

/// Everything but the sign bit.
pub const MAGNITUDE_MASK: u64 = 0x7fff_ffff_ffff_ffff;

/// The class of the binary64 value with the bit pattern `bits`: a magnitude
/// below that of infinity is finite, one above it is not a number.
pub open spec fn classify(bits: u64) -> Class {
    let magnitude = bits & MAGNITUDE_MASK;
    if magnitude < INFINITY_BITS {
        Class::Finite
    } else if magnitude > INFINITY_BITS {
        Class::NaN
    } else if bits == INFINITY_BITS {
        Class::Infinity
    } else {
        Class::NegInfinity
    }
}

/// The exponent field of the bit pattern `bits`: eleven bits.
pub open spec fn exponent(bits: u64) -> u64 {
    (bits >> 52) & 0x7ff
}

/// The fraction field of the bit pattern `bits`: fifty-two bits.
pub open spec fn fraction(bits: u64) -> u64 {
    bits & 0x000f_ffff_ffff_ffff
}

/// The classes are those of the binary64 format: a value is finite unless
/// its exponent field is all ones; it is then an infinity if its fraction
/// field is zero, positive or negative by its sign bit, and not a number
/// otherwise.
pub proof fn classes_follow_the_fields(bits: u64)
    ensures
        classify(bits) == Class::Finite <==> exponent(bits) != 0x7ff,
        classify(bits) == Class::NaN <==> exponent(bits) == 0x7ff && fraction(bits) != 0,
        classify(bits) == Class::Infinity <==> exponent(bits) == 0x7ff && fraction(bits) == 0
            && bits >> 63 == 0,
        classify(bits) == Class::NegInfinity <==> exponent(bits) == 0x7ff && fraction(bits) == 0
            && bits >> 63 == 1,
{
    let magnitude = bits & MAGNITUDE_MASK;
    assert(magnitude < INFINITY_BITS <==> (bits >> 52) & 0x7ff != 0x7ff) by (bit_vector)
        requires
            magnitude == bits & 0x7fff_ffff_ffff_ffff,
    ;
    assert(magnitude > INFINITY_BITS <==> (bits >> 52) & 0x7ff == 0x7ff && bits
        & 0x000f_ffff_ffff_ffff != 0) by (bit_vector)
        requires
            magnitude == bits & 0x7fff_ffff_ffff_ffff,
    ;
    assert(bits == INFINITY_BITS <==> (bits >> 52) & 0x7ff == 0x7ff && bits
        & 0x000f_ffff_ffff_ffff == 0 && bits >> 63 == 0) by (bit_vector);
    assert(magnitude == INFINITY_BITS && bits != INFINITY_BITS <==> (bits >> 52) & 0x7ff == 0x7ff
        && bits & 0x000f_ffff_ffff_ffff == 0 && bits >> 63 == 1) by (bit_vector)
        requires
            magnitude == bits & 0x7fff_ffff_ffff_ffff,
    ;
}

/// Whether `c` is a decimal digit.
pub open spec fn is_digit(c: char) -> bool {
    '0' <= c <= '9'
}

/// How many digits `s` starts with.
pub open spec fn digit_run(s: Seq<char>) -> nat
    decreases s.len(),
{
    if s.len() > 0 && is_digit(s[0]) {
        1 + digit_run(s.skip(1))
    } else {
        0
    }
}

/// Whether `s` is digits, at least one, with no needless leading zero, and
/// after them either nothing or a point and at least one more digit.
pub open spec fn is_unsigned_decimal(s: Seq<char>) -> bool {
    let whole = digit_run(s);
    &&& whole >= 1
    &&& whole == 1 || s[0] != '0'
    &&& whole == s.len() || {
        &&& s[whole as int] == '.'
        &&& whole + 1 < s.len()
        &&& digit_run(s.skip(whole as int + 1)) == s.len() - whole - 1
    }
}

/// Whether `s` is a decimal numeral as JSON writes numbers without an
/// exponent: an optional minus sign, then an unsigned decimal.
pub open spec fn is_decimal(s: Seq<char>) -> bool {
    if s.len() > 0 && s[0] == '-' {
        is_unsigned_decimal(s.skip(1))
    } else {
        is_unsigned_decimal(s)
    }
}

/// A numeric literal as the encoder sees it.
pub enum NumberView {
    /// A finite value, with its decimal numeral.
    Finite(Seq<char>),
    Infinity,
    NegInfinity,
    NaN,
}

impl NumberView {
    /// A finite number carries a decimal numeral.
    pub open spec fn wf(self) -> bool {
        self matches NumberView::Finite(numeral) ==> is_decimal(numeral)
    }

    /// The number as JSON, for a block input as for the value of a variable
    /// or an item of a list: a finite one is its numeral; each of the others,
    /// which JSON has no number for, is the string that the runtime reads it
    /// from.
    pub open spec fn literal(self) -> Seq<char> {
        match self {
            NumberView::Finite(numeral) => numeral,
            NumberView::Infinity => "\"Infinity\""@,
            NumberView::NegInfinity => "\"-Infinity\""@,
            NumberView::NaN => "\"NaN\""@,
        }
    }
}

/// What the bit pattern `bits` and the numeral that comes with it stand for:
/// the bits alone decide an infinity or a value that is not a number; a finite
/// value is its numeral, and nothing where that is no decimal numeral.
pub open spec fn meaning(bits: u64, numeral: Seq<char>) -> Option<NumberView> {
    match classify(bits) {
        Class::Infinity => Some(NumberView::Infinity),
        Class::NegInfinity => Some(NumberView::NegInfinity),
        Class::NaN => Some(NumberView::NaN),
        Class::Finite => if is_decimal(numeral) {
            Some(NumberView::Finite(numeral))
        } else {
            None
        },
    }
}

/// A numeric literal.
pub struct Number {
    class: Class,
    numeral: String,
}

impl View for Number {
    type V = NumberView;

    closed spec fn view(&self) -> NumberView {
        match self.class {
            Class::Finite => NumberView::Finite(self.numeral@),
            Class::Infinity => NumberView::Infinity,
            Class::NegInfinity => NumberView::NegInfinity,
            Class::NaN => NumberView::NaN,
        }
    }
}

/// The class of the binary64 value with the bit pattern `bits`.
pub fn class_of(bits: u64) -> (class: Class)
    ensures
        class == classify(bits),
{
    let magnitude: u64 = bits & MAGNITUDE_MASK;
    if magnitude < INFINITY_BITS {
        Class::Finite
    } else if magnitude > INFINITY_BITS {
        Class::NaN
    } else if bits == INFINITY_BITS {
        Class::Infinity
    } else {
        Class::NegInfinity
    }
}

fn digit_at(chars: &Vec<char>, i: usize) -> (r: bool)
    requires
        i < chars.len(),
    ensures
        r == is_digit(chars@[i as int]),
{
    let c: char = chars[i];
    '0' <= c && c <= '9'
}

/// The end of the run of digits that starts at `from`.
fn skip_digits(chars: &Vec<char>, from: usize) -> (end: usize)
    requires
        from <= chars.len(),
    ensures
        from <= end <= chars.len(),
        end - from == digit_run(chars@.skip(from as int)),
{
    let mut i: usize = from;
    while i < chars.len() && digit_at(chars, i)
        invariant
            from <= i <= chars.len(),
            digit_run(chars@.skip(from as int)) == (i - from) + digit_run(chars@.skip(i as int)),
        decreases chars.len() - i,
    {
        assert(chars@.skip(i as int).skip(1) == chars@.skip(i + 1));
        i = i + 1;
    }
    i
}

/// Whether the characters from `from` on are an unsigned decimal.
fn unsigned_decimal_from(chars: &Vec<char>, from: usize) -> (r: bool)
    requires
        from <= chars.len(),
    ensures
        r == is_unsigned_decimal(chars@.skip(from as int)),
{
    let ghost s = chars@.skip(from as int);
    let end: usize = skip_digits(chars, from);
    if end == from {
        return false;
    }
    if end - from > 1 && chars[from] == '0' {
        return false;
    }
    if end == chars.len() {
        return true;
    }
    if chars[end] != '.' {
        return false;
    }
    if end + 1 == chars.len() {
        return false;
    }
    assert(s.skip(end - from + 1) == chars@.skip(end + 1));
    let last: usize = skip_digits(chars, end + 1);
    last == chars.len()
}

/// Whether `numeral` is a decimal numeral.
pub fn check_decimal(numeral: &str) -> (r: bool)
    ensures
        r == is_decimal(numeral@),
{
    let chars = chars_of(numeral);
    if chars.len() > 0 && chars[0] == '-' {
        unsigned_decimal_from(&chars, 1)
    } else {
        assert(chars@.skip(0) == chars@);
        unsigned_decimal_from(&chars, 0)
    }
}

impl Number {
    /// The number with the bit pattern `bits`, which `numeral` stands for in
    /// text.
    ///
    /// The bits alone decide an infinity or a value that is not a number, and
    /// the numeral is then set aside. A finite value is taken with its
    /// numeral, and refused where that is no decimal numeral.
    pub fn new(bits: u64, numeral: String) -> (r: Option<Number>)
        ensures
            r is Some <==> meaning(bits, numeral@) is Some,
            r matches Some(n) ==> Some(n@) == meaning(bits, numeral@) && n@.wf(),
    {
        match class_of(bits) {
            Class::Finite => {
                if check_decimal(numeral.as_str()) {
                    Some(Number { class: Class::Finite, numeral })
                } else {
                    None
                }
            },
            class => Some(Number { class, numeral: String::new() }),
        }
    }

    /// A copy of the number.
    pub fn duplicate(&self) -> (r: Number)
        ensures
            r@ == self@,
    {
        Number { class: self.class, numeral: self.numeral.clone() }
    }

    /// Appends the number as JSON.
    pub fn push_literal(&self, out: &mut String)
        ensures
            final(out)@ == old(out)@ + self@.literal(),
    {
        match self.class {
            Class::Finite => out.append(self.numeral.as_str()),
            Class::Infinity => out.append("\"Infinity\""),
            Class::NegInfinity => out.append("\"-Infinity\""),
            Class::NaN => out.append("\"NaN\""),
        }
    }
}

} // verus!
