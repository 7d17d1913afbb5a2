//! Durations as users write them: `30`, `1.5m`, `250ms`.

use vstd::arithmetic::div_mod::{lemma_div_denominator, lemma_div_multiples_vanish};
use vstd::arithmetic::power::{lemma_pow_adds, lemma_pow_positive, pow};
use vstd::prelude::*;

use crate::error::TimeoutError;
use crate::text::{
    all_digits, chars_of, decimal_value, digits_only, is_digit,
    law_case_is_ignored_letter_by_letter, law_digits_count_by_place,
    law_number_is_the_longest_front, lemma_number_ignores_case, lemma_number_len, letters_match,
    lower, lower_case, number_at, number_len, number_prefix, part, same_letters,
};
use crate::time::{Duration, NANOS_PER_SEC};

verus! {

/// Where the first dot of `s` is; its length if there is none.
pub open spec fn dot_at(s: Seq<char>) -> nat
    decreases s.len(),
{
    if s.len() == 0 || s[0] == '.' {
        0
    } else {
        1 + dot_at(s.skip(1))
    }
}

/// What stands before the unit.
pub open spec fn number_of(s: Seq<char>) -> Seq<char> {
    s.take(number_len(s, true) as int)
}

/// The unit that `s` ends in.
pub open spec fn unit_of(s: Seq<char>) -> Seq<char> {
    s.skip(number_len(s, true) as int)
}

/// What stands before the dot.
pub open spec fn whole_of(number: Seq<char>) -> Seq<char> {
    number.take(dot_at(number) as int)
}

/// What stands after the dot.
pub open spec fn fraction_of(number: Seq<char>) -> Seq<char> {
    if dot_at(number) < number.len() {
        number.skip(dot_at(number) as int + 1)
    } else {
        Seq::empty()
    }
}

/// The first nine of `digits`, filled up with zeros.
pub open spec fn nine(digits: Seq<char>) -> Seq<char> {
    Seq::new(
        9,
        |i: int|
            if i < digits.len() {
                digits[i]
            } else {
                '0'
            },
    )
}

/// The nanoseconds in a unit, in either case; seconds where there is none.
pub open spec fn unit_ns(unit: Seq<char>) -> Option<nat> {
    if unit.len() == 0 || same_letters(unit, "s"@) {
        Some(1_000_000_000)
    } else if same_letters(unit, "m"@) {
        Some(60_000_000_000)
    } else if same_letters(unit, "h"@) {
        Some(3_600_000_000_000)
    } else if same_letters(unit, "d"@) {
        Some(86_400_000_000_000)
    } else if same_letters(unit, "ms"@) {
        Some(1_000_000)
    } else if same_letters(unit, "us"@) {
        Some(1_000)
    } else {
        None
    }
}

/// Is `s` written as a duration: digits, perhaps with a dot before, among or
/// after them, and a known unit or none?
pub open spec fn is_duration_text(s: Seq<char>) -> bool {
    let number = number_of(s);
    &&& unit_ns(unit_of(s)) is Some
    &&& all_digits(whole_of(number))
    &&& all_digits(fraction_of(number))
    &&& whole_of(number).len() + fraction_of(number).len() > 0
}

/// The nanoseconds that `s` stands for; what is less than a billionth of the
/// unit, or of a second, is dropped.
pub open spec fn duration_text_ns(s: Seq<char>) -> nat {
    let number = number_of(s);
    let unit = unit_ns(unit_of(s))->0;
    decimal_value(whole_of(number)) * unit + decimal_value(nine(fraction_of(number))) * unit
        / NANOS_PER_SEC as nat
}

/// The duration that `s` stands for, as far as it fits.
pub open spec fn duration_of_text(s: Seq<char>) -> Option<Duration> {
    if is_duration_text(s) && decimal_value(whole_of(number_of(s))) <= u64::MAX
        && duration_text_ns(s) / NANOS_PER_SEC as nat <= u64::MAX {
        Some(Duration::of_ns(duration_text_ns(s)))
    } else {
        None
    }
}

proof fn lemma_dot_at(s: Seq<char>, n: nat)
    requires
        n <= s.len(),
        forall|i: int| 0 <= i < n ==> #[trigger] s[i] != '.',
        n == s.len() || s[n as int] == '.',
    ensures
        dot_at(s) == n,
    decreases n,
{
    if n > 0 {
        assert forall|i: int| 0 <= i < n - 1 implies #[trigger] s.skip(1)[i] != '.' by {
            assert(s.skip(1)[i] == s[i + 1]);
        }
        lemma_dot_at(s.skip(1), (n - 1) as nat);
    }
}

/// Where the first dot among the first `end` characters of `v` is.
fn find_dot(v: &Vec<char>, end: usize) -> (n: usize)
    requires
        end <= v.len(),
    ensures
        n == dot_at(v@.take(end as int)),
        n <= end,
{
    let mut n: usize = 0;
    while n < end && v[n] != '.'
        invariant
            n <= end <= v.len(),
            forall|i: int| 0 <= i < n ==> #[trigger] v@[i] != '.',
        decreases end - n,
    {
        n += 1;
    }
    proof {
        lemma_dot_at(v@.take(end as int), n as nat);
    }
    n
}

/// The first nine characters of `digits`, filled up with zeros.
fn nine_digits(digits: &Vec<char>) -> (v: Vec<char>)
    ensures
        v@ == nine(digits@),
{
    let mut v: Vec<char> = Vec::new();
    let mut i: usize = 0;
    while i < 9
        invariant
            i <= 9,
            v@ == nine(digits@).take(i as int),
        decreases 9 - i,
    {
        if i < digits.len() {
            v.push(digits[i]);
        } else {
            v.push('0');
        }
        i += 1;
        assert(v@ =~= nine(digits@).take(i as int));
    }
    assert(nine(digits@).take(9) =~= nine(digits@));
    v
}

/// The nanoseconds in a unit.
fn unit_nanos(unit: &Vec<char>) -> (ns: Option<u64>)
    ensures
        ns matches Some(n) ==> unit_ns(unit@) == Some(n as nat) && n <= 86_400_000_000_000,
        ns is None ==> unit_ns(unit@) is None,
{
    if unit.len() == 0 || letters_match(unit, "s") {
        Some(1_000_000_000)
    } else if letters_match(unit, "m") {
        Some(60_000_000_000)
    } else if letters_match(unit, "h") {
        Some(3_600_000_000_000)
    } else if letters_match(unit, "d") {
        Some(86_400_000_000_000)
    } else if letters_match(unit, "ms") {
        Some(1_000_000)
    } else if letters_match(unit, "us") {
        Some(1_000)
    } else {
        None
    }
}

/// The duration that the characters `v` stand for.
fn read_duration(v: &Vec<char>) -> (d: Option<Duration>)
    ensures
        d == duration_of_text(v@),
{
    let end: usize = number_prefix(v, true);
    let dot: usize = find_dot(v, end);
    let after: usize = if dot < end {
        dot + 1
    } else {
        end
    };
    let ghost number = number_of(v@);
    let unit: Vec<char> = part(v, end, v.len());
    let fraction: Vec<char> = part(v, after, end);
    proof {
        assert(number == v@.take(end as int));
        assert(unit@ =~= unit_of(v@));
        assert(v@.subrange(0, dot as int) =~= whole_of(number));
        assert(fraction@ =~= fraction_of(number));
    }
    let unit: u64 = match unit_nanos(&unit) {
        Some(n) => n,
        None => {
            return None;
        },
    };
    if dot == 0 && fraction.len() == 0 {
        return None;
    }
    if !digits_only(v, 0, dot) || !digits_only(v, after, end) {
        return None;
    }
    let whole: u64 = match number_at(v, 0, dot) {
        Some(n) => n,
        None => {
            return None;
        },
    };
    let nine_digits: Vec<char> = nine_digits(&fraction);
    assert(nine_digits@.subrange(0, 9) =~= nine(fraction@));
    proof {
        lemma_nine(fraction@);
    }
    let billionths: u64 = match number_at(&nine_digits, 0, 9) {
        Some(n) => n,
        None => {
            return None;
        },
    };
    proof {
        assert(0 <= whole * unit <= u64::MAX * 86_400_000_000_000) by (nonlinear_arith)
            requires
                0 <= whole <= u64::MAX,
                0 <= unit <= 86_400_000_000_000,
        ;
        assert(0 <= billionths * unit <= u64::MAX * 86_400_000_000_000) by (nonlinear_arith)
            requires
                0 <= billionths <= u64::MAX,
                0 <= unit <= 86_400_000_000_000,
        ;
    }
    let ns: u128 = whole as u128 * unit as u128 + billionths as u128 * unit as u128
        / NANOS_PER_SEC as u128;
    assert(ns == duration_text_ns(v@));
    Duration::from_nanos(ns)
}

/// Nine digits stand for less than a billion.
proof fn lemma_nine(digits: Seq<char>)
    requires
        all_digits(digits),
    ensures
        all_digits(nine(digits)),
        decimal_value(nine(digits)) <= u64::MAX,
{
    let s = nine(digits);
    assert forall|i: int| 0 <= i < s.len() implies is_digit(#[trigger] s[i]) by {
        if i < digits.len() {
            assert(is_digit(digits[i]));
        }
    }
    lemma_below_power(s);
    reveal_with_fuel(pow, 10);
}

/// As many digits stand for less than that power of ten.
proof fn lemma_below_power(s: Seq<char>)
    requires
        all_digits(s),
    ensures
        decimal_value(s) < pow(10, s.len()),
    decreases s.len(),
{
    reveal(pow);
    if s.len() > 0 {
        assert(is_digit(s[s.len() - 1]));
        lemma_below_power(s.drop_last());
    }
}

/// Reads a duration.
pub fn parse_duration(text: &str) -> (d: Result<Duration, TimeoutError>)
    ensures
        d matches Ok(d) ==> duration_of_text(text@) == Some(d),
        d matches Err(e) ==> duration_of_text(text@) is None && (e matches
            TimeoutError::InvalidDuration(t) && t@ == text@),
{
    let v: Vec<char> = chars_of(text);
    match read_duration(&v) {
        Some(d) => Ok(d),
        None => Err(TimeoutError::InvalidDuration(text.to_owned())),
    }
}

/// A duration means the same in either case.
pub proof fn law_duration_ignores_case(s: Seq<char>, t: Seq<char>)
    requires
        same_letters(s, t),
    ensures
        duration_of_text(s) == duration_of_text(t),
{
    lemma_number_ignores_case(s, t, true);
    assert(lower_case(unit_of(s)).len() == unit_of(s).len());
    assert(lower_case(unit_of(t)).len() == unit_of(t).len());
}

/// Is this a unit of time, and how many nanoseconds long?
pub open spec fn is_time_unit(unit: Seq<char>, ns: nat) -> bool {
    ||| unit.len() == 0 && ns == 1_000_000_000
    ||| unit == seq!['u', 's'] && ns == 1_000
    ||| unit == seq!['m', 's'] && ns == 1_000 * 1_000
    ||| unit == seq!['s'] && ns == 1_000_000_000
    ||| unit == seq!['m'] && ns == 60 * 1_000_000_000
    ||| unit == seq!['h'] && ns == 60 * 60 * 1_000_000_000
    ||| unit == seq!['d'] && ns == 24 * 60 * 60 * 1_000_000_000
}

/// The names of the units, letter by letter.
proof fn lemma_names(unit: Seq<char>)
    ensures
        "s"@ == seq!['s'],
        "m"@ == seq!['m'],
        "h"@ == seq!['h'],
        "d"@ == seq!['d'],
        "ms"@ == seq!['m', 's'],
        "us"@ == seq!['u', 's'],
        same_letters(unit, "s"@) <==> unit.len() == 1 && lower(unit[0]) == 's',
        same_letters(unit, "m"@) <==> unit.len() == 1 && lower(unit[0]) == 'm',
        same_letters(unit, "h"@) <==> unit.len() == 1 && lower(unit[0]) == 'h',
        same_letters(unit, "d"@) <==> unit.len() == 1 && lower(unit[0]) == 'd',
        same_letters(unit, "ms"@) <==> unit.len() == 2 && lower(unit[0]) == 'm' && lower(unit[1])
            == 's',
        same_letters(unit, "us"@) <==> unit.len() == 2 && lower(unit[0]) == 'u' && lower(unit[1])
            == 's',
{
    reveal_strlit("s");
    reveal_strlit("m");
    reveal_strlit("h");
    reveal_strlit("d");
    reveal_strlit("ms");
    reveal_strlit("us");
    assert("s"@ =~= seq!['s']);
    assert("m"@ =~= seq!['m']);
    assert("h"@ =~= seq!['h']);
    assert("d"@ =~= seq!['d']);
    assert("ms"@ =~= seq!['m', 's']);
    assert("us"@ =~= seq!['u', 's']);
    law_case_is_ignored_letter_by_letter(unit, "s"@);
    law_case_is_ignored_letter_by_letter(unit, "m"@);
    law_case_is_ignored_letter_by_letter(unit, "h"@);
    law_case_is_ignored_letter_by_letter(unit, "d"@);
    law_case_is_ignored_letter_by_letter(unit, "ms"@);
    law_case_is_ignored_letter_by_letter(unit, "us"@);
    if unit.len() == 2 {
        assert(unit[0] == unit[0] && unit[1] == unit[1]);
    }
}

/// What the names of the units look like.
proof fn lemma_units(unit: Seq<char>, ns: nat)
    requires
        is_time_unit(unit, ns),
    ensures
        unit_ns(unit) == Some(ns),
        unit.len() > 0 ==> !is_digit(unit[0]) && unit[0] != '.',
{
    lemma_names(unit);
}

/// A whole number with a unit is so many of the unit, and seconds without one.
pub proof fn law_whole_number_of_units(whole: Seq<char>, unit: Seq<char>, ns: nat)
    requires
        all_digits(whole),
        whole.len() > 0,
        is_time_unit(unit, ns),
    ensures
        ({
            let total = decimal_value(whole) * ns;
            let read = duration_of_text(whole + unit);
            &&& decimal_value(whole) <= u64::MAX && total / 1_000_000_000 <= u64::MAX ==> (
            read matches Some(d) && d.total_ns() == total)
            &&& decimal_value(whole) > u64::MAX || total / 1_000_000_000 > u64::MAX ==> read is None
        }),
{
    broadcast use Duration::lemma_of_ns;

    lemma_units(unit, ns);
    let s = whole + unit;
    assert forall|i: int| 0 <= i < whole.len() implies is_digit(#[trigger] s[i]) || true && s[i]
        == '.' by {
        assert(s[i] == whole[i]);
    }
    if unit.len() > 0 {
        assert(s[whole.len() as int] == unit[0]);
    }
    lemma_number_len(s, true, whole.len());
    assert(number_of(s) =~= whole);
    assert(unit_of(s) =~= unit);
    assert forall|i: int| 0 <= i < whole.len() implies #[trigger] whole[i] != '.' by {
        assert(is_digit(whole[i]));
    }
    lemma_dot_at(whole, whole.len());
    assert(whole_of(whole) =~= whole);
    assert(fraction_of(whole) =~= Seq::empty());
    lemma_zeros(nine(Seq::empty()));
    assert(0 * ns == 0) by (nonlinear_arith);
    assert(duration_text_ns(s) == decimal_value(whole) * ns);
}

/// Nine places hold the digits that there are, and zeros behind them.
proof fn lemma_nine_of(digits: Seq<char>)
    requires
        digits.len() <= 9,
    ensures
        decimal_value(nine(digits)) == decimal_value(digits) * pow(10, (9 - digits.len()) as nat),
{
    let zeros = Seq::new((9 - digits.len()) as nat, |i: int| '0');
    assert(nine(digits) =~= digits + zeros);
    law_digits_count_by_place(digits, zeros, '0');
    lemma_zeros(zeros);
}

proof fn lemma_zeros(zeros: Seq<char>)
    requires
        forall|i: int| 0 <= i < zeros.len() ==> #[trigger] zeros[i] == '0',
    ensures
        decimal_value(zeros) == 0,
    decreases zeros.len(),
{
    if zeros.len() > 0 {
        assert(zeros.last() == '0');
        lemma_zeros(zeros.drop_last());
    }
}

/// A number with a dot is so many of the unit and that part of one more: the digits
/// behind the dot count as tenths, hundredths and so on, up to nine of them. What
/// is less than a nanosecond, or comes after the ninth, is dropped. Digits may be
/// missing on one side of the dot.
pub proof fn law_number_with_a_dot_of_units(
    whole: Seq<char>,
    fraction: Seq<char>,
    unit: Seq<char>,
    ns: nat,
)
    requires
        all_digits(whole),
        all_digits(fraction),
        whole.len() + fraction.len() > 0,
        is_time_unit(unit, ns),
    ensures
        ({
            let places = if fraction.len() <= 9 {
                fraction
            } else {
                fraction.take(9)
            };
            let total = decimal_value(whole) * ns + decimal_value(places) * ns / (pow(
                10,
                places.len(),
            ) as nat);
            let read = duration_of_text(whole + seq!['.'] + fraction + unit);
            &&& decimal_value(whole) <= u64::MAX && total / 1_000_000_000 <= u64::MAX ==> (
            read matches Some(d) && d.total_ns() == total)
            &&& decimal_value(whole) > u64::MAX || total / 1_000_000_000 > u64::MAX ==> read is None
        }),
{
    broadcast use Duration::lemma_of_ns;

    lemma_units(unit, ns);
    let number = whole + seq!['.'] + fraction;
    let s = number + unit;
    assert forall|i: int| 0 <= i < number.len() implies is_digit(#[trigger] s[i]) || true && s[i]
        == '.' by {
        if i < whole.len() {
            assert(s[i] == whole[i]);
        } else if i > whole.len() {
            assert(s[i] == fraction[i - whole.len() - 1]);
        }
    }
    if unit.len() > 0 {
        assert(s[number.len() as int] == unit[0]);
    }
    lemma_number_len(s, true, number.len());
    assert(number_of(s) =~= number);
    assert(unit_of(s) =~= unit);
    assert forall|i: int| 0 <= i < whole.len() implies #[trigger] number[i] != '.' by {
        assert(number[i] == whole[i]);
        assert(is_digit(whole[i]));
    }
    lemma_dot_at(number, whole.len());
    assert(whole_of(number) =~= whole);
    assert(fraction_of(number) =~= fraction);
    let places = if fraction.len() <= 9 {
        fraction
    } else {
        fraction.take(9)
    };
    assert(nine(fraction) =~= nine(places));
    lemma_nine_of(places);
    let k = places.len();
    let (small, large) = (pow(10, k), pow(10, (9 - k) as nat));
    lemma_pow_positive(10, k);
    lemma_pow_positive(10, (9 - k) as nat);
    lemma_pow_adds(10, k, (9 - k) as nat);
    assert(pow(10, 9) == 1_000_000_000) by {
        reveal_with_fuel(pow, 10);
    }
    let part = decimal_value(places) * ns;
    assert(decimal_value(nine(fraction)) * ns == large * part) by (nonlinear_arith)
        requires
            decimal_value(nine(fraction)) == decimal_value(places) * large,
            part == decimal_value(places) * ns,
    ;
    assert(0 <= part) by (nonlinear_arith)
        requires
            part == decimal_value(places) * ns,
    ;
    assert(0 <= large * part) by (nonlinear_arith)
        requires
            0 <= part,
            0 < large,
    ;
    lemma_div_multiples_vanish(part as int, large);
    lemma_div_denominator(large * part, large, small);
    assert(large * small == small * large) by (nonlinear_arith);
    assert((large * part) / 1_000_000_000 == part as int / small);
}

/// Nothing else is a duration: there is a number first, of digits with one dot at
/// most, and then a unit that is known, or nothing.
pub proof fn law_nothing_else_is_a_duration(s: Seq<char>, i: int, j: int)
    requires
        duration_of_text(s) is Some,
    ensures
        s.len() > 0,
        is_digit(s[0]) || s[0] == '.',
        0 <= i < j < s.len() && s[i] == '.' ==> s[j] != '.',
        ({
            let unit = s.skip(number_len(s, true) as int);
            exists|known: Seq<char>, ns: nat|
                #[trigger] is_time_unit(known, ns) && same_letters(unit, known)
        }),
{
    law_number_is_the_longest_front(s, true);
    let n = number_len(s, true) as int;
    let number = number_of(s);
    let unit = unit_of(s);
    lemma_dot_at_front(number);
    let dot = dot_at(number) as int;
    lemma_names(unit);
    if unit.len() == 0 {
        assert(is_time_unit(unit, 1_000_000_000) && same_letters(unit, unit));
    } else {
        assert(is_time_unit("s"@, 1_000_000_000));
        assert(is_time_unit("m"@, 60_000_000_000));
        assert(is_time_unit("h"@, 3_600_000_000_000));
        assert(is_time_unit("d"@, 86_400_000_000_000));
        assert(is_time_unit("ms"@, 1_000_000));
        assert(is_time_unit("us"@, 1_000));
    }
    assert(number.len() > 0);
    assert(number[0] == s[0]);
    assert forall|k: int| n <= k < s.len() implies #[trigger] s[k] != '.' by {
        assert(unit[k - n] == s[k]);
        lemma_unit_letters(unit, k - n);
    }
    if 0 <= i < j < s.len() && s[i] == '.' && s[j] == '.' {
        assert(j < n);
        assert(number[i] == '.' && number[j] == '.');
        assert(dot <= i);
        assert(fraction_of(number)[j - dot - 1] == number[j]);
        assert(is_digit(fraction_of(number)[j - dot - 1]));
    }
}

/// Before the first dot there is none.
proof fn lemma_dot_at_front(s: Seq<char>)
    ensures
        dot_at(s) <= s.len(),
        forall|i: int| 0 <= i < dot_at(s) ==> #[trigger] s[i] != '.',
        dot_at(s) < s.len() ==> s[dot_at(s) as int] == '.',
    decreases s.len(),
{
    if s.len() > 0 && s[0] != '.' {
        lemma_dot_at_front(s.skip(1));
        assert forall|i: int| 0 <= i < dot_at(s) implies #[trigger] s[i] != '.' by {
            if i > 0 {
                assert(s.skip(1)[i - 1] == s[i]);
            }
        }
        if dot_at(s) < s.len() {
            assert(s.skip(1)[dot_at(s) - 1] == s[dot_at(s) as int]);
        }
    }
}

/// No unit has a dot in it.
proof fn lemma_unit_letters(unit: Seq<char>, k: int)
    requires
        unit_ns(unit) is Some,
        0 <= k < unit.len(),
    ensures
        unit[k] != '.',
{
    lemma_names(unit);
}

} // verus!
