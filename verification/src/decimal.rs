//! Exact decimal numbers: the measurements of a weather report as the digits
//! that were reported, never as an approximation of them.

use crate::text::{
    characters, digit_char, digit_str, digits_text, padded_text, push_digits, push_padded,
};
use vstd::prelude::*;
use vstd::string::*;

verus! {

/// The largest number of fraction digits that a [`Decimal`] holds.
pub const MAX_SCALE: u8 = 18;

/// Ten to the power `n`.
pub open spec fn pow10(n: nat) -> nat
    decreases n,
{
    if n == 0 {
        1
    } else {
        10 * pow10((n - 1) as nat)
    }
}

/// A power of ten is positive, and a larger exponent gives a larger power.
pub proof fn lemma_pow10_monotonic(a: nat, b: nat)
    requires
        a <= b,
    ensures
        1 <= pow10(a) <= pow10(b),
    decreases b,
{
    if b == 0 {
    } else if a == b {
        lemma_pow10_monotonic((a - 1) as nat, (b - 1) as nat);
    } else {
        lemma_pow10_monotonic(a, (b - 1) as nat);
    }
}

/// Ten to the power `scale`, for every scale that a [`Decimal`] can have.
pub fn power_of_ten(scale: u8) -> (unit: u64)
    requires
        scale <= MAX_SCALE,
    ensures
        unit == pow10(scale as nat),
        1 <= unit <= 1_000_000_000_000_000_000,
{
    let mut unit: u64 = 1;
    let mut done: u8 = 0;
    proof {
        reveal_with_fuel(pow10, 19);
        assert(pow10(18) == 1_000_000_000_000_000_000);
    }
    while done < scale
        invariant
            done <= scale <= MAX_SCALE,
            unit == pow10(done as nat),
            pow10(18) == 1_000_000_000_000_000_000,
        decreases scale - done,
    {
        proof {
            lemma_pow10_monotonic((done + 1) as nat, 18);
        }
        unit = unit * 10;
        done = done + 1;
    }
    proof {
        lemma_pow10_monotonic(scale as nat, 18);
    }
    unit
}

/// How many times `step` goes into `n`, to the nearest whole number; where
/// `n` lies exactly between two of them, the even one.
pub open spec fn round_half_even(n: nat, step: nat) -> nat {
    let below = n / step;
    let rest = n % step;
    if 2 * rest < step || (2 * rest == step && below % 2 == 0) {
        below
    } else {
        below + 1
    }
}

/// Rounding gives a nearest whole number: the result times `step` is no
/// further from `n` than half a step.
pub proof fn lemma_round_half_even_is_nearest(n: nat, step: nat)
    requires
        step > 0,
    ensures
        2 * (round_half_even(n, step) * step - n) <= step,
        2 * (n - round_half_even(n, step) * step) <= step,
{
    let below = n / step;
    let rest = n % step;
    assert(n == step * below + rest && 0 <= rest < step) by {
        vstd::arithmetic::div_mod::lemma_fundamental_div_mod(n as int, step as int);
        vstd::arithmetic::div_mod::lemma_mod_bound(n as int, step as int);
    }
    assert((below + 1) * step == below * step + step) by (nonlinear_arith);
    assert(below * step == step * below) by (nonlinear_arith);
}

/// Whether `c` is one of the digits 0 to 9.
pub open spec fn is_digit(c: char) -> bool {
    '0' <= c <= '9'
}

/// The number that the digit `c` stands for; zero for what is no digit.
pub open spec fn digit_value(c: char) -> nat {
    if is_digit(c) {
        (c as int - '0' as int) as nat
    } else {
        0
    }
}

/// Whether every character of `s` is a digit.
pub open spec fn all_digits(s: Seq<char>) -> bool {
    forall|i: int| 0 <= i < s.len() ==> is_digit(#[trigger] s[i])
}

/// The number that the digits `s` write behind a number of value `start`:
/// each digit moves what stands before it one place to the left.
pub open spec fn digits_value_from(start: nat, s: Seq<char>) -> nat
    decreases s.len(),
{
    if s.len() == 0 {
        start
    } else {
        10 * digits_value_from(start, s.drop_last()) + digit_value(s.last())
    }
}

/// The number that the digits `s` write.
pub open spec fn digits_value(s: Seq<char>) -> nat {
    digits_value_from(0, s)
}

/// How many characters stand before the first point of `body`: all of them
/// where it has no point.
pub open spec fn whole_len(body: Seq<char>) -> nat
    decreases body.len(),
{
    if body.len() == 0 || body[0] == '.' {
        0
    } else {
        1 + whole_len(body.skip(1))
    }
}

/// Whether `text` begins with a minus.
pub open spec fn has_minus(text: Seq<char>) -> bool {
    text.len() > 0 && text[0] == '-'
}

/// `text` without its minus.
pub open spec fn body_of(text: Seq<char>) -> Seq<char> {
    if has_minus(text) {
        text.skip(1)
    } else {
        text
    }
}

/// Whether `text` holds a point.
pub open spec fn has_point(text: Seq<char>) -> bool {
    whole_len(body_of(text)) < body_of(text).len()
}

/// What stands between the minus, where there is one, and the first point of
/// `text`, or its end.
pub open spec fn whole_of(text: Seq<char>) -> Seq<char> {
    body_of(text).take(whole_len(body_of(text)) as int)
}

/// What stands behind the first point of `text`: nothing where there is
/// none.
pub open spec fn fraction_of(text: Seq<char>) -> Seq<char> {
    if has_point(text) {
        body_of(text).skip(whole_len(body_of(text)) as int + 1)
    } else {
        Seq::empty()
    }
}

/// Whether `text` writes a decimal number: a minus or none, then one digit or
/// more, then nothing more or a point and one digit or more. No plus, no
/// exponent, no blanks.
pub open spec fn is_numeral(text: Seq<char>) -> bool {
    &&& whole_of(text).len() > 0
    &&& all_digits(whole_of(text))
    &&& all_digits(fraction_of(text))
    &&& has_point(text) ==> fraction_of(text).len() > 0
}

/// Whether the number that `text` writes is one that a [`Decimal`] holds: at
/// most 18 digits behind the point, and all digits together no more than the
/// largest `u64`.
pub open spec fn numeral_fits(text: Seq<char>) -> bool {
    &&& fraction_of(text).len() <= MAX_SCALE
    &&& digits_value(whole_of(text) + fraction_of(text)) <= u64::MAX
}

/// Digits that follow never make the number smaller.
pub proof fn lemma_digits_value_from_grows(start: nat, s: Seq<char>)
    ensures
        digits_value_from(start, s) >= start,
    decreases s.len(),
{
    if s.len() > 0 {
        lemma_digits_value_from_grows(start, s.drop_last());
    }
}

/// The first digits of a number write no more than all of them.
pub proof fn lemma_digits_value_from_prefix(start: nat, s: Seq<char>, n: int)
    requires
        0 <= n <= s.len(),
    ensures
        digits_value_from(start, s.take(n)) <= digits_value_from(start, s),
    decreases s.len(),
{
    if n == s.len() {
        assert(s.take(n) =~= s);
    } else {
        assert(s.drop_last().take(n) =~= s.take(n));
        lemma_digits_value_from_prefix(start, s.drop_last(), n);
    }
}

/// Writing the digits `b` behind the digits `a` is writing `b` behind the
/// number that `a` writes.
pub proof fn lemma_digits_value_concat(start: nat, a: Seq<char>, b: Seq<char>)
    ensures
        digits_value_from(start, a + b) == digits_value_from(digits_value_from(start, a), b),
    decreases b.len(),
{
    if b.len() == 0 {
        assert(a + b =~= a);
    } else {
        assert((a + b).drop_last() =~= a + b.drop_last());
        assert((a + b).last() == b.last());
        lemma_digits_value_concat(start, a, b.drop_last());
    }
}

/// The first point of `body` stands at `cut`, where no point stands before
/// `cut` and one stands at it, or `body` ends there.
pub proof fn lemma_whole_len_is_first_point(body: Seq<char>, cut: int)
    requires
        0 <= cut <= body.len(),
        forall|j: int| 0 <= j < cut ==> body[j] != '.',
        cut < body.len() ==> body[cut] == '.',
    ensures
        whole_len(body) == cut,
    decreases cut,
{
    if cut > 0 {
        let rest = body.skip(1);
        assert forall|j: int| 0 <= j < cut - 1 implies rest[j] != '.' by {
            assert(rest[j] == body[j + 1]);
        }
        lemma_whole_len_is_first_point(rest, cut - 1);
    }
}

/// The value of the digit `c`.
fn digit_of(c: char) -> (res: Option<u8>)
    ensures
        res is Some <==> is_digit(c),
        res matches Some(d) ==> d == digit_value(c) && d < 10,
{
    if '0' <= c && c <= '9' {
        Some((c as u32 - '0' as u32) as u8)
    } else {
        None
    }
}

/// Reads the characters of `text` from `from` up to `to` as digits that
/// follow a number of value `start`.
fn read_digits(text: &Vec<char>, from: usize, to: usize, start: u64) -> (res: Option<u64>)
    requires
        from <= to <= text@.len(),
    ensures
        res is Some <==> all_digits(text@.subrange(from as int, to as int)) && digits_value_from(
            start as nat,
            text@.subrange(from as int, to as int),
        ) <= u64::MAX,
        res matches Some(value) ==> value == digits_value_from(
            start as nat,
            text@.subrange(from as int, to as int),
        ),
{
    let ghost span = text@.subrange(from as int, to as int);
    let mut value: u64 = start;
    let mut at: usize = from;
    assert(span.take(0) =~= Seq::<char>::empty());
    while at < to
        invariant
            from <= at <= to <= text@.len(),
            span == text@.subrange(from as int, to as int),
            all_digits(span.take(at - from)),
            value == digits_value_from(start as nat, span.take(at - from)),
        decreases to - at,
    {
        let ghost seen = span.take(at - from);
        let ghost more = span.take(at - from + 1);
        let c = text[at];
        proof {
            assert(span[at - from] == c);
            assert(more.drop_last() =~= seen);
            assert(more.last() == c);
            lemma_digits_value_from_prefix(start as nat, span, at - from + 1);
        }
        match digit_of(c) {
            None => {
                assert(!is_digit(span[at - from]));
                return None;
            },
            Some(d) => {
                if value > (u64::MAX - d as u64) / 10 {
                    return None;
                }
                value = value * 10 + d as u64;
                assert(all_digits(more)) by {
                    assert forall|i: int| 0 <= i < more.len() implies is_digit(
                        #[trigger] more[i],
                    ) by {
                        if i < seen.len() {
                            assert(more[i] == seen[i]);
                        }
                    }
                }
            },
        }
        at = at + 1;
    }
    assert(span.take(to - from) =~= span);
    Some(value)
}

/// A decimal number: a sign, the digits as one unsigned number, and how many
/// of those digits stand behind the decimal point. Its value is
/// `magnitude / 10^scale`, negated where the sign says so. Two decimals with
/// the same value and different scales (`2.5` and `2.50`) are different
/// records that compare alike against every bound.
#[derive(Debug, Clone, Copy, PartialEq, Eq)]
pub struct Decimal {
    negative: bool,
    magnitude: u64,
    scale: u8,
}

impl Decimal {
    #[verifier::type_invariant]
    spec fn scale_is_bounded(self) -> bool {
        self.scale <= MAX_SCALE
    }

    /// Whether the sign is a minus. Zero can have one.
    pub closed spec fn spec_is_negative(&self) -> bool {
        self.negative
    }

    /// All digits, before and behind the point, as one number.
    pub closed spec fn spec_magnitude(&self) -> u64 {
        self.magnitude
    }

    /// How many of the digits stand behind the point.
    pub closed spec fn spec_scale(&self) -> u8 {
        self.scale
    }

    /// Whether the number of fraction digits is one that this type holds.
    /// Every decimal that executable code holds is well formed.
    pub open spec fn wf(&self) -> bool {
        self.scale() <= MAX_SCALE
    }

    /// The number that one whole unit is counted as: `10^scale`.
    pub open spec fn unit(&self) -> int {
        pow10(self.scale() as nat) as int
    }

    /// The digits with their sign: the value times `unit()`.
    pub open spec fn signed(&self) -> int {
        if self.is_negative() {
            -(self.magnitude() as int)
        } else {
            self.magnitude() as int
        }
    }

    /// Whether the value is at least the whole number `bound`.
    pub open spec fn at_least(&self, bound: int) -> bool {
        self.signed() >= bound * self.unit()
    }

    /// Whether the value is at most the whole number `bound`.
    pub open spec fn at_most(&self, bound: int) -> bool {
        self.signed() <= bound * self.unit()
    }

    /// Whether the value lies in the closed interval from `low` to `high`.
    pub open spec fn within(&self, low: int, high: int) -> bool {
        self.at_least(low) && self.at_most(high)
    }

    /// The decimal with these parts, where the scale is one that the type
    /// holds.
    pub fn new(negative: bool, magnitude: u64, scale: u8) -> (res: Option<Decimal>)
        ensures
            scale <= MAX_SCALE <==> res is Some,
            res matches Some(d) ==> d.is_negative() == negative && d.magnitude() == magnitude
                && d.scale() == scale,
    {
        if scale <= MAX_SCALE {
            Some(Decimal { negative, magnitude, scale })
        } else {
            None
        }
    }

    /// Reads a decimal number from text: a minus or none, the whole part, and
    /// nothing more or a point and the fraction. The decimal keeps every
    /// digit that was written, so `2.50` is read with two fraction digits.
    /// Text that writes no number, or one that this type does not hold, gives
    /// `None`.
    pub fn parse(text: &str) -> (res: Option<Decimal>)
        ensures
            res is Some <==> is_numeral(text@) && numeral_fits(text@),
            res matches Some(d) ==> d.is_negative() == has_minus(text@) && d.scale()
                == fraction_of(text@).len() && d.magnitude() == digits_value(
                whole_of(text@) + fraction_of(text@),
            ),
    {
        let chars = characters(text);
        let len = chars.len();
        if len == 0 {
            assert(whole_of(text@).len() == 0);
            return None;
        }
        let negative = chars[0] == '-';
        let start: usize = if negative {
            1
        } else {
            0
        };
        let ghost body = body_of(text@);
        assert(body =~= text@.skip(start as int));
        let mut cut: usize = start;
        while cut < len && chars[cut] != '.'
            invariant
                start <= cut <= len == chars@.len(),
                chars@ == text@,
                forall|j: int| start <= j < cut ==> text@[j] != '.',
            decreases len - cut,
        {
            cut = cut + 1;
        }
        proof {
            assert forall|j: int| 0 <= j < cut - start implies body[j] != '.' by {
                assert(body[j] == text@[j + start]);
            }
            if cut < len {
                assert(body[cut - start] == text@[cut as int]);
            }
            lemma_whole_len_is_first_point(body, cut - start);
        }
        let ghost whole = whole_of(text@);
        let ghost fraction = fraction_of(text@);
        assert(whole =~= text@.subrange(start as int, cut as int));
        if cut == start {
            return None;
        }
        let whole_value = match read_digits(&chars, start, cut, 0) {
            Some(value) => value,
            None => {
                proof {
                    lemma_digits_value_concat(0, whole, fraction);
                    lemma_digits_value_from_grows(digits_value_from(0, whole), fraction);
                }
                return None;
            },
        };
        if cut == len {
            assert(fraction =~= Seq::<char>::empty());
            assert(whole + fraction =~= whole);
            return Some(Decimal { negative, magnitude: whole_value, scale: 0 });
        }
        assert(fraction =~= text@.subrange(cut + 1, len as int));
        let places = len - cut - 1;
        if places == 0 || places > MAX_SCALE as usize {
            return None;
        }
        proof {
            lemma_digits_value_concat(0, whole, fraction);
        }
        match read_digits(&chars, cut + 1, len, whole_value) {
            Some(magnitude) => Some(Decimal { negative, magnitude, scale: places as u8 }),
            None => None,
        }
    }

    /// The whole number `n`.
    pub fn from_integer(n: i64) -> (d: Decimal)
        ensures
            d.scale() == 0,
            d.signed() == n,
            d.is_negative() == (n < 0),
    {
        if n < 0 {
            let below: u64 = (-(n + 1)) as u64;
            Decimal { negative: true, magnitude: below + 1, scale: 0 }
        } else {
            Decimal { negative: false, magnitude: n as u64, scale: 0 }
        }
    }

    /// Zero, with no fraction digits.
    pub fn zero() -> (d: Decimal)
        ensures
            !d.is_negative(),
            d.magnitude() == 0,
            d.scale() == 0,
    {
        Decimal { negative: false, magnitude: 0, scale: 0 }
    }

    /// Whether the sign is a minus.
    #[verifier::when_used_as_spec(spec_is_negative)]
    pub fn is_negative(&self) -> (negative: bool)
        ensures
            negative == self.spec_is_negative(),
    {
        self.negative
    }

    /// All digits, before and behind the point, as one number.
    #[verifier::when_used_as_spec(spec_magnitude)]
    pub fn magnitude(&self) -> (magnitude: u64)
        ensures
            magnitude == self.spec_magnitude(),
    {
        self.magnitude
    }

    /// How many of the digits stand behind the point: 18 at most.
    #[verifier::when_used_as_spec(spec_scale)]
    pub fn scale(&self) -> (scale: u8)
        ensures
            scale == self.spec_scale(),
            scale <= MAX_SCALE,
    {
        proof {
            use_type_invariant(self);
        }
        self.scale
    }

    /// Whether the value lies in the closed interval from `low` to `high`.
    pub fn is_within(&self, low: i32, high: i32) -> (inside: bool)
        ensures
            inside == self.within(low as int, high as int),
    {
        let unit: i128 = power_of_ten(self.scale()) as i128;
        let signed: i128 = if self.negative {
            -(self.magnitude as i128)
        } else {
            self.magnitude as i128
        };
        assert(-0x8000_0000 * 1_000_000_000_000_000_000 <= (low as int) * (unit as int)
            <= 0x8000_0000 * 1_000_000_000_000_000_000) by (nonlinear_arith)
            requires
                -0x8000_0000 <= low < 0x8000_0000,
                1 <= unit <= 1_000_000_000_000_000_000,
        ;
        assert(-0x8000_0000 * 1_000_000_000_000_000_000 <= (high as int) * (unit as int)
            <= 0x8000_0000 * 1_000_000_000_000_000_000) by (nonlinear_arith)
            requires
                -0x8000_0000 <= high < 0x8000_0000,
                1 <= unit <= 1_000_000_000_000_000_000,
        ;
        let floor: i128 = (low as i128) * unit;
        let ceiling: i128 = (high as i128) * unit;
        floor <= signed && signed <= ceiling
    }

    /// Whether the value is zero or more. Minus zero counts as zero.
    pub fn is_non_negative(&self) -> (res: bool)
        ensures
            res == self.at_least(0),
    {
        !self.negative || self.magnitude == 0
    }
    /// The sign as text: a minus for a negative number, else nothing.
    pub open spec fn sign_text(&self) -> Seq<char> {
        if self.is_negative() {
            seq!['-']
        } else {
            Seq::empty()
        }
    }

    /// The number written out in full: the sign, the whole part, and, where
    /// there are fraction digits, a point and every one of them.
    pub open spec fn text(&self) -> Seq<char> {
        let whole = digits_text((self.magnitude() as int / self.unit()) as nat);
        let fraction = padded_text((self.magnitude() as int % self.unit()) as nat, self.scale() as nat);
        if self.scale() == 0 {
            self.sign_text() + whole
        } else {
            self.sign_text() + whole + seq!['.'] + fraction
        }
    }

    /// The size of the number in tenths, rounded to the nearest tenth, and to
    /// the even one where two are equally near.
    pub open spec fn tenths(&self) -> nat {
        if self.scale() == 0 {
            (self.magnitude() * 10) as nat
        } else {
            round_half_even(self.magnitude() as nat, pow10((self.scale() - 1) as nat))
        }
    }

    /// The number with exactly one digit behind the point, rounded as
    /// `tenths` says. A negative number keeps its sign where it rounds to
    /// zero.
    pub open spec fn one_decimal_text(&self) -> Seq<char> {
        self.sign_text() + digits_text(self.tenths() / 10) + seq!['.'] + seq![
            digit_char((self.tenths() % 10) as int),
        ]
    }

    /// Writes the sign behind what `out` holds.
    fn push_sign(&self, out: &mut String)
        ensures
            final(out)@ == old(out)@ + self.sign_text(),
    {
        if self.negative {
            out.append("-");
            proof {
                reveal_strlit("-");
            }
        }
        assert(final(out)@ =~= old(out)@ + self.sign_text());
    }

    /// Writes the number in full behind what `out` holds.
    pub fn push_text(&self, out: &mut String)
        ensures
            final(out)@ == old(out)@ + self.text(),
    {
        let unit = power_of_ten(self.scale());
        self.push_sign(out);
        push_digits(out, self.magnitude / unit);
        if self.scale > 0 {
            out.append(".");
            proof {
                reveal_strlit(".");
            }
            push_padded(out, self.magnitude % unit, self.scale);
        }
        assert(final(out)@ =~= old(out)@ + self.text());
    }

    /// The number written out in full.
    pub fn to_text(&self) -> (text: String)
        ensures
            text@ == self.text(),
    {
        let mut text = String::new();
        self.push_text(&mut text);
        assert(text@ =~= self.text());
        text
    }

    /// Writes the number with one digit behind the point behind what `out`
    /// holds.
    pub fn push_one_decimal(&self, out: &mut String)
        ensures
            final(out)@ == old(out)@ + self.one_decimal_text(),
    {
        self.push_sign(out);
        if self.scale() == 0 {
            push_digits(out, self.magnitude);
            out.append(".0");
            proof {
                reveal_strlit(".0");
                assert((self.magnitude * 10) / 10 == self.magnitude as int);
                assert((self.magnitude * 10) % 10 == 0);
                assert(".0"@ =~= seq!['.'] + seq![digit_char(0)]);
            }
        } else {
            let step = power_of_ten(self.scale - 1);
            let below = self.magnitude / step;
            let rest = self.magnitude % step;
            let stays = 2 * rest < step || (2 * rest == step && below % 2 == 0);
            proof {
                if !stays {
                    assert(step >= 2);
                    assert(below * step <= self.magnitude) by {
                        vstd::arithmetic::div_mod::lemma_fundamental_div_mod(
                            self.magnitude as int,
                            step as int,
                        );
                        assert(step * below == below * step) by (nonlinear_arith);
                    }
                    assert(below < u64::MAX) by (nonlinear_arith)
                        requires
                            below * step <= self.magnitude,
                            step >= 2,
                            self.magnitude <= u64::MAX,
                            below >= 0,
                    ;
                }
            }
            let tenths = if stays {
                below
            } else {
                below + 1
            };
            assert(tenths == self.tenths());
            push_digits(out, tenths / 10);
            out.append(".");
            proof {
                reveal_strlit(".");
            }
            out.append(digit_str((tenths % 10) as u8));
        }
        assert(final(out)@ =~= old(out)@ + self.one_decimal_text());
    }

    /// The number with exactly one digit behind the point.
    pub fn to_one_decimal(&self) -> (text: String)
        ensures
            text@ == self.one_decimal_text(),
    {
        let mut text = String::new();
        self.push_one_decimal(&mut text);
        assert(text@ =~= self.one_decimal_text());
        text
    }
}

/// The character of a digit is a digit, stands for that digit, and is
/// neither a point nor a minus.
pub proof fn lemma_digit_char_is_digit(d: int)
    requires
        0 <= d <= 9,
    ensures
        is_digit(digit_char(d)),
        digit_value(digit_char(d)) == d,
        digit_char(d) != '.',
        digit_char(d) != '-',
{
}

/// A number written in digits reads back as itself: the text is not empty,
/// holds digits only, and they write the number.
pub proof fn lemma_digits_text_reads_back(n: nat)
    ensures
        digits_text(n).len() > 0,
        all_digits(digits_text(n)),
        digits_value(digits_text(n)) == n,
    decreases n,
{
    let text = digits_text(n);
    if n < 10 {
        lemma_digit_char_is_digit(n as int);
        assert(text.drop_last() =~= Seq::<char>::empty());
        assert(text.last() == digit_char(n as int));
        assert(digits_value_from(0, text.drop_last()) == 0);
    } else {
        lemma_digits_text_reads_back(n / 10);
        lemma_digit_char_is_digit((n % 10) as int);
        assert(text.drop_last() =~= digits_text(n / 10));
        assert(text.last() == digit_char((n % 10) as int));
        assert forall|i: int| 0 <= i < text.len() implies is_digit(#[trigger] text[i]) by {
            if i < text.len() - 1 {
                assert(text[i] == digits_text(n / 10)[i]);
            }
        }
    }
}

/// The last `width` digits of `n`, written behind a number of value `start`,
/// write `start` moved `width` places to the left, plus those digits.
pub proof fn lemma_padded_text_reads_back(start: nat, n: nat, width: nat)
    ensures
        padded_text(n, width).len() == width,
        all_digits(padded_text(n, width)),
        digits_value_from(start, padded_text(n, width)) == start * pow10(width) + n % pow10(width),
    decreases width,
{
    let text = padded_text(n, width);
    if width == 0 {
        assert(n % 1 == 0);
        assert(start * 1 == start) by (nonlinear_arith);
    } else {
        let less = (width - 1) as nat;
        let unit = pow10(less);
        lemma_padded_text_reads_back(start, n / 10, less);
        lemma_digit_char_is_digit((n % 10) as int);
        lemma_pow10_monotonic(0, less);
        assert(text.drop_last() =~= padded_text(n / 10, less));
        assert(text.last() == digit_char((n % 10) as int));
        assert forall|i: int| 0 <= i < text.len() implies is_digit(#[trigger] text[i]) by {
            if i < text.len() - 1 {
                assert(text[i] == padded_text(n / 10, less)[i]);
            }
        }
        assert(n as int % (10 * unit as int) == 10 * ((n as int / 10) % unit as int) + n as int
            % 10) by {
            vstd::arithmetic::div_mod::lemma_mod_breakdown(n as int, 10, unit as int);
        }
        let high = start as int;
        let step = unit as int;
        let kept = ((n / 10) % unit) as int;
        assert(10 * (high * step + kept) == high * (10 * step) + 10 * kept) by (nonlinear_arith);
    }
}

/// A decimal written in full reads back as itself: its text writes a number
/// that the type holds, with the same sign, the same digits, and as many of
/// them behind the point.
pub proof fn lemma_text_reads_back(d: Decimal)
    requires
        d.wf(),
    ensures
        is_numeral(d.text()),
        numeral_fits(d.text()),
        has_minus(d.text()) == d.is_negative(),
        fraction_of(d.text()).len() == d.scale(),
        digits_value(whole_of(d.text()) + fraction_of(d.text())) == d.magnitude(),
{
    let text = d.text();
    let unit = pow10(d.scale() as nat);
    let magnitude = d.magnitude() as nat;
    let whole = digits_text(magnitude / unit);
    let fraction = padded_text(magnitude % unit, d.scale() as nat);
    let tail = if d.scale() == 0 {
        Seq::<char>::empty()
    } else {
        seq!['.'] + fraction
    };
    lemma_pow10_monotonic(0, d.scale() as nat);
    lemma_digits_text_reads_back(magnitude / unit);
    lemma_padded_text_reads_back(magnitude / unit, magnitude % unit, d.scale() as nat);
    assert(text =~= d.sign_text() + (whole + tail));
    assert(is_digit(whole[0]));
    assert(has_minus(text) == d.is_negative());
    let body = body_of(text);
    assert(body =~= whole + tail);
    assert forall|j: int| 0 <= j < whole.len() implies body[j] != '.' by {
        assert(body[j] == whole[j]);
        assert(is_digit(whole[j]));
    }
    if d.scale() > 0 {
        assert(body[whole.len() as int] == '.');
    }
    lemma_whole_len_is_first_point(body, whole.len() as int);
    assert(whole_of(text) =~= whole);
    if d.scale() > 0 {
        assert(fraction_of(text) =~= fraction);
    } else {
        assert(fraction_of(text) =~= fraction);
    }
    lemma_digits_value_concat(0, whole, fraction);
    assert((magnitude % unit) % unit == magnitude % unit) by {
        vstd::arithmetic::div_mod::lemma_mod_bound(magnitude as int, unit as int);
        vstd::arithmetic::div_mod::lemma_small_mod(magnitude % unit, unit);
    }
    assert(magnitude == (magnitude / unit) * unit + magnitude % unit) by {
        vstd::arithmetic::div_mod::lemma_fundamental_div_mod(magnitude as int, unit as int);
        assert((magnitude / unit) * unit == unit * (magnitude / unit)) by (nonlinear_arith);
    }
}

} // verus!
