//! Text as sequences of characters: decimal numbers and ASCII case.

use vstd::arithmetic::power::pow;
use vstd::prelude::*;

verus! {

/// Is `c` an ASCII digit?
pub open spec fn is_digit(c: char) -> bool {
    '0' <= c <= '9'
}

/// Are all of `s` ASCII digits?
pub open spec fn all_digits(s: Seq<char>) -> bool {
    forall|i: int| 0 <= i < s.len() ==> is_digit(#[trigger] s[i])
}

/// The number that a digit stands for.
pub open spec fn digit_value(c: char) -> nat {
    (c as int - '0' as int) as nat
}

/// The number that decimal digits stand for, most significant first.
pub open spec fn decimal_value(s: Seq<char>) -> nat
    decreases s.len(),
{
    if s.len() == 0 {
        0
    } else {
        decimal_value(s.drop_last()) * 10 + digit_value(s.last())
    }
}

/// `c` with an ASCII letter in lower case.
pub open spec fn lower(c: char) -> char {
    if 'A' <= c <= 'Z' {
        (c as u8 + 32) as char
    } else {
        c
    }
}

/// `s` with its ASCII letters in lower case.
pub open spec fn lower_case(s: Seq<char>) -> Seq<char> {
    s.map_values(|c: char| lower(c))
}

/// `c` with an ASCII letter in lower case.
pub fn to_lower(c: char) -> (l: char)
    ensures
        l == lower(c),
{
    if 'A' <= c && c <= 'Z' {
        (c as u8 + 32) as char
    } else {
        c
    }
}

/// The characters of `s`.
pub fn chars_of(s: &str) -> (v: Vec<char>)
    ensures
        v@ == s@,
{
    let mut v: Vec<char> = Vec::new();
    for c in it: s.chars()
        invariant
            v@ == it.seq().take(it.index()),
            it.seq() == s@,
    {
        v.push(c);
    }
    v
}

/// The digit for a number below ten.
pub open spec fn digit_char(d: nat) -> char {
    ('0' as int + d) as char
}

/// `n` in decimal, without leading zeros.
pub open spec fn decimal(n: nat) -> Seq<char>
    decreases n,
{
    if n < 10 {
        seq![digit_char(n)]
    } else {
        decimal(n / 10).push(digit_char(n % 10))
    }
}

/// `n` in decimal, with a sign if it is negative.
pub open spec fn signed_decimal(n: int) -> Seq<char> {
    if n < 0 {
        seq!['-'] + decimal((-n) as nat)
    } else {
        decimal(n as nat)
    }
}

/// Reading a number back from its decimal digits gives the number.
pub proof fn law_decimal_round_trip(n: nat)
    ensures
        all_digits(decimal(n)),
        decimal(n).len() > 0,
        decimal_value(decimal(n)) == n,
    decreases n,
{
    if n < 10 {
        let s = decimal(n);
        assert(s == seq![digit_char(n)]);
        assert(s.drop_last() =~= Seq::<char>::empty());
        assert(decimal_value(s.drop_last()) == 0);
    } else {
        law_decimal_round_trip(n / 10);
        let s = decimal(n);
        assert(s.drop_last() =~= decimal(n / 10));
        assert(s.last() == digit_char(n % 10));
    }
}

/// `String::push` appends one character.
pub assume_specification [String::push](s: &mut String, c: char)
    ensures
        final(s)@ == old(s)@.push(c),
;

/// Appends `n` in decimal.
pub fn push_decimal(s: &mut String, n: u64)
    ensures
        final(s)@ == old(s)@ + decimal(n as nat),
    decreases n,
{
    if n >= 10 {
        push_decimal(s, n / 10);
    }
    let d: u8 = (n % 10) as u8;
    s.push((48u8 + d) as char);
    assert(s@ =~= old(s)@ + decimal(n as nat));
}

/// Appends `n` in decimal, with a sign if it is negative.
pub fn push_signed(s: &mut String, n: i32)
    ensures
        final(s)@ == old(s)@ + signed_decimal(n as int),
{
    if n < 0 {
        s.push('-');
        push_decimal(s, (-(n as i64)) as u64);
        assert(s@ =~= old(s)@ + signed_decimal(n as int));
    } else {
        push_decimal(s, n as u64);
    }
}

/// Is `c` an ASCII digit?
pub fn digit(c: char) -> (yes: bool)
    ensures
        yes == is_digit(c),
{
    '0' <= c && c <= '9'
}

/// Are the characters of `v` from `from` up to `to` all digits?
pub fn digits_only(v: &Vec<char>, from: usize, to: usize) -> (yes: bool)
    requires
        from <= to <= v.len(),
    ensures
        yes == all_digits(v@.subrange(from as int, to as int)),
{
    let mut i: usize = from;
    while i < to
        invariant
            from <= i <= to <= v.len(),
            forall|j: int| from <= j < i ==> is_digit(#[trigger] v@[j]),
        decreases to - i,
    {
        if !digit(v[i]) {
            proof {
                let part = v@.subrange(from as int, to as int);
                assert(part[i - from] == v@[i as int]);
            }
            return false;
        }
        i += 1;
    }
    true
}

/// Leading digits never make a number smaller.
proof fn lemma_value_grows(s: Seq<char>, n: int)
    requires
        0 <= n <= s.len(),
    ensures
        decimal_value(s.take(n)) <= decimal_value(s),
    decreases s.len() - n,
{
    if n < s.len() {
        lemma_value_grows(s, n + 1);
        assert(s.take(n + 1).drop_last() =~= s.take(n));
    } else {
        assert(s.take(n) =~= s);
    }
}

/// The number that the digits of `v` from `from` up to `to` stand for; `None`
/// where it does not fit.
pub fn number_at(v: &Vec<char>, from: usize, to: usize) -> (n: Option<u64>)
    requires
        from <= to <= v.len(),
        all_digits(v@.subrange(from as int, to as int)),
    ensures
        n == fit_u64(decimal_value(v@.subrange(from as int, to as int))),
{
    let ghost part = v@.subrange(from as int, to as int);
    let mut n: u64 = 0;
    let mut i: usize = from;
    while i < to
        invariant
            from <= i <= to <= v.len(),
            part == v@.subrange(from as int, to as int),
            all_digits(part),
            n == decimal_value(part.take(i - from)),
        decreases to - i,
    {
        proof {
            assert(part.take(i - from + 1).drop_last() =~= part.take(i - from));
            assert(part[i - from] == v@[i as int]);
            lemma_value_grows(part, i - from + 1);
        }
        let d: u64 = (v[i] as u32 - '0' as u32) as u64;
        match n.checked_mul(10) {
            None => {
                return None;
            },
            Some(tens) => match tens.checked_add(d) {
                None => {
                    return None;
                },
                Some(sum) => {
                    n = sum;
                },
            },
        }
        i += 1;
    }
    assert(part.take(to - from) =~= part);
    Some(n)
}

/// `n` where it fits a `u64`.
pub open spec fn fit_u64(n: nat) -> Option<u64> {
    if n <= u64::MAX {
        Some(n as u64)
    } else {
        None
    }
}

/// `s` without a leading plus sign.
pub open spec fn unsigned_part(s: Seq<char>) -> Seq<char> {
    if s.len() > 0 && s[0] == '+' {
        s.skip(1)
    } else {
        s
    }
}

/// The number that `s` holds: an optional plus sign and decimal digits, with
/// nothing before, between or after, and small enough for a `u32`.
pub open spec fn u32_text(s: Seq<char>) -> Option<u32> {
    let body = unsigned_part(s);
    if body.len() > 0 && all_digits(body) && decimal_value(body) <= u32::MAX {
        Some(decimal_value(body) as u32)
    } else {
        None
    }
}

/// Reads a `u32`.
pub fn parse_u32(v: &Vec<char>) -> (n: Option<u32>)
    ensures
        n == u32_text(v@),
{
    let from: usize = if v.len() > 0 && v[0] == '+' {
        1
    } else {
        0
    };
    assert(v@.subrange(from as int, v.len() as int) =~= unsigned_part(v@));
    if from == v.len() || !digits_only(v, from, v.len()) {
        return None;
    }
    match number_at(v, from, v.len()) {
        Some(n) => if n <= u32::MAX as u64 {
            Some(n as u32)
        } else {
            None
        },
        None => None,
    }
}

/// Are `a` and `b` the same but for the case of ASCII letters?
pub open spec fn same_letters(a: Seq<char>, b: Seq<char>) -> bool {
    lower_case(a) == lower_case(b)
}

/// Is `v` the text `s` but for the case of ASCII letters?
pub fn letters_match(v: &Vec<char>, s: &str) -> (yes: bool)
    ensures
        yes == same_letters(v@, s@),
{
    let want: Vec<char> = chars_of(s);
    assert(lower_case(v@).len() == v.len() && lower_case(s@).len() == want.len());
    if v.len() != want.len() {
        return false;
    }
    let mut i: usize = 0;
    while i < want.len()
        invariant
            i <= want.len(),
            want.len() == v.len(),
            want@ == s@,
            forall|j: int| 0 <= j < i ==> lower(#[trigger] v@[j]) == lower(want@[j]),
        decreases want.len() - i,
    {
        if to_lower(v[i]) != to_lower(want[i]) {
            assert(lower_case(v@)[i as int] == lower(v@[i as int]));
            assert(lower_case(s@)[i as int] == lower(s@[i as int]));
            return false;
        }
        i += 1;
    }
    assert(lower_case(v@) =~= lower_case(s@));
    true
}

/// `before`, the number `n`, and `after`.
pub fn text_with_number(before: &str, n: u64, after: &str) -> (s: String)
    ensures
        s@ == before@ + decimal(n as nat) + after@,
{
    let mut s: String = before.to_owned();
    push_decimal(&mut s, n);
    s.append(after);
    s
}

/// `before`, the number `n`, and `after`.
pub fn text_with_signed(before: &str, n: i32, after: &str) -> (s: String)
    ensures
        s@ == before@ + signed_decimal(n as int) + after@,
{
    let mut s: String = before.to_owned();
    push_signed(&mut s, n);
    s.append(after);
    s
}

/// `before`, `middle`, and `after`.
pub fn text_around(before: &str, middle: &str, after: &str) -> (s: String)
    ensures
        s@ == before@ + middle@ + after@,
{
    let mut s: String = before.to_owned();
    s.append(middle);
    s.append(after);
    s
}

/// The characters of `v` from `from` up to `to`.
pub fn part(v: &Vec<char>, from: usize, to: usize) -> (p: Vec<char>)
    requires
        from <= to <= v.len(),
    ensures
        p@ == v@.subrange(from as int, to as int),
{
    let mut p: Vec<char> = Vec::new();
    let mut i: usize = from;
    while i < to
        invariant
            from <= i <= to <= v.len(),
            p@ == v@.subrange(from as int, i as int),
        decreases to - i,
    {
        p.push(v[i]);
        i += 1;
        assert(p@ =~= v@.subrange(from as int, i as int));
    }
    p
}

/// How many characters at the front of `s` are digits or, with `dots`, dots.
pub open spec fn number_len(s: Seq<char>, dots: bool) -> nat
    decreases s.len(),
{
    if s.len() > 0 && (is_digit(s[0]) || dots && s[0] == '.') {
        1 + number_len(s.skip(1), dots)
    } else {
        0
    }
}

/// The front of `s` that `number_len` counts ends where it should.
pub proof fn lemma_number_len(s: Seq<char>, dots: bool, n: nat)
    requires
        n <= s.len(),
        forall|i: int| 0 <= i < n ==> is_digit(#[trigger] s[i]) || dots && s[i] == '.',
        n == s.len() || !(is_digit(s[n as int]) || dots && s[n as int] == '.'),
    ensures
        number_len(s, dots) == n,
    decreases n,
{
    if n > 0 {
        assert forall|i: int| 0 <= i < n - 1 implies is_digit(#[trigger] s.skip(1)[i]) || dots
            && s.skip(1)[i] == '.' by {
            assert(s.skip(1)[i] == s[i + 1]);
        }
        lemma_number_len(s.skip(1), dots, (n - 1) as nat);
    }
}

/// How many characters at the front of `v` are digits or, with `dots`, dots.
pub fn number_prefix(v: &Vec<char>, dots: bool) -> (n: usize)
    ensures
        n == number_len(v@, dots),
        n <= v.len(),
        forall|i: int| 0 <= i < n ==> is_digit(#[trigger] v@[i]) || dots && v@[i] == '.',
{
    let mut n: usize = 0;
    while n < v.len() && (digit(v[n]) || dots && v[n] == '.')
        invariant
            n <= v.len(),
            forall|i: int| 0 <= i < n ==> is_digit(#[trigger] v@[i]) || dots && v@[i] == '.',
        decreases v.len() - n,
    {
        n += 1;
    }
    proof {
        lemma_number_len(v@, dots, n as nat);
    }
    n
}

/// Digits and dots have no case, so texts that are the same but for case start
/// with the same number.
pub proof fn lemma_number_ignores_case(s: Seq<char>, t: Seq<char>, dots: bool)
    requires
        same_letters(s, t),
    ensures
        s.len() == t.len(),
        number_len(s, dots) == number_len(t, dots),
        number_len(s, dots) <= s.len(),
        s.take(number_len(s, dots) as int) == t.take(number_len(t, dots) as int),
        same_letters(
            s.skip(number_len(s, dots) as int),
            t.skip(number_len(t, dots) as int),
        ),
    decreases s.len(),
{
    assert(lower_case(s).len() == s.len());
    assert(lower_case(t).len() == t.len());
    assert(s.skip(0) =~= s && t.skip(0) =~= t);
    assert(s.take(0) =~= t.take(0));
    if s.len() > 0 {
        assert(lower_case(s)[0] == lower(s[0]));
        assert(lower_case(t)[0] == lower(t[0]));
        assert forall|i: int| 0 <= i < s.len() - 1 implies #[trigger] lower_case(s.skip(1))[i]
            == lower_case(t.skip(1))[i] by {
            assert(lower_case(s)[i + 1] == lower(s[i + 1]));
            assert(lower_case(t)[i + 1] == lower(t[i + 1]));
        }
        assert(lower_case(s.skip(1)) =~= lower_case(t.skip(1)));
        lemma_number_ignores_case(s.skip(1), t.skip(1), dots);
        let n = number_len(s.skip(1), dots) as int;
        if number_len(s, dots) > 0 {
            assert(s.take(n + 1) =~= seq![s[0]] + s.skip(1).take(n));
            assert(t.take(n + 1) =~= seq![t[0]] + t.skip(1).take(n));
            assert(s.skip(n + 1) =~= s.skip(1).skip(n));
            assert(t.skip(n + 1) =~= t.skip(1).skip(n));
        }
    }
}

/// Digits count by their place: putting more behind a number moves it up by as
/// many places and adds them. A digit by itself is the number it shows.
pub proof fn law_digits_count_by_place(front: Seq<char>, back: Seq<char>, digit: char)
    ensures
        decimal_value(front + back) == decimal_value(front) * pow(10, back.len()) + decimal_value(
            back,
        ),
        decimal_value(Seq::empty()) == 0,
        '0' <= digit <= '9' ==> decimal_value(seq![digit]) == digit as int - '0' as int,
    decreases back.len(),
{
    reveal(pow);
    assert(seq![digit].drop_last() =~= Seq::empty());
    reveal_with_fuel(decimal_value, 2);
    if back.len() == 0 {
        assert(front + back =~= front);
    } else {
        let rest = back.drop_last();
        law_digits_count_by_place(front, rest, digit);
        assert((front + back).drop_last() =~= front + rest);
        assert((front + back).last() == back.last());
        assert(decimal_value(front) * pow(10, back.len()) == decimal_value(front) * pow(
            10,
            rest.len(),
        ) * 10) by (nonlinear_arith)
            requires
                pow(10, back.len()) == 10 * pow(10, rest.len()),
        ;
    }
}

/// A number is written without zeros in front of it, and with a sign exactly if it
/// is negative.
pub proof fn law_numbers_are_written_plainly(n: nat, m: int)
    ensures
        n > 0 ==> decimal(n)[0] != '0',
        decimal(0) == seq!['0'],
        m >= 0 ==> signed_decimal(m) == decimal(m as nat),
        m < 0 ==> signed_decimal(m) == seq!['-'] + decimal((-m) as nat),
    decreases n,
{
    if n >= 10 {
        law_numbers_are_written_plainly(n / 10, m);
        law_decimal_round_trip(n / 10);
        assert(decimal(n)[0] == decimal(n / 10)[0]);
    }
}

/// A whole number is read from its digits, perhaps with a plus sign before them,
/// as long as it fits; anything else is none.
pub proof fn law_whole_numbers_are_read(digits: Seq<char>, s: Seq<char>)
    requires
        all_digits(digits),
        digits.len() > 0,
    ensures
        decimal_value(digits) <= u32::MAX ==> u32_text(digits) == Some(
            decimal_value(digits) as u32,
        ) && u32_text(seq!['+'] + digits) == Some(decimal_value(digits) as u32),
        decimal_value(digits) > u32::MAX ==> u32_text(digits) is None && u32_text(
            seq!['+'] + digits,
        ) is None,
        u32_text(s) is Some ==> s.len() > 0 && (s[0] == '+' || is_digit(s[0])) && forall|i: int|
            1 <= i < s.len() ==> is_digit(#[trigger] s[i]),
        u32_text(Seq::empty()) is None,
        u32_text(seq!['+']) is None,
{
    assert((seq!['+'] + digits).skip(1) =~= digits);
    assert(is_digit(digits[0]));
    if u32_text(s) is Some {
        assert forall|i: int| 1 <= i < s.len() implies is_digit(#[trigger] s[i]) by {
            if s[0] == '+' {
                assert(s.skip(1)[i - 1] == s[i]);
            }
        }
        if s[0] != '+' {
            assert(unsigned_part(s)[0] == s[0]);
        }
    }
}

/// The ASCII capitals become small letters, and nothing else changes.
pub proof fn law_only_capitals_change(c: char)
    ensures
        'A' <= c <= 'Z' ==> lower(c) as int == c as int + 32,
        !('A' <= c <= 'Z') ==> lower(c) == c,
{
}

/// The number at the front of a text is as long as it can be: digits, or dots
/// where they count, up to the first that is neither.
pub proof fn law_number_is_the_longest_front(s: Seq<char>, dots: bool)
    ensures
        number_len(s, dots) <= s.len(),
        forall|i: int|
            0 <= i < number_len(s, dots) ==> ('0' <= #[trigger] s[i] <= '9') || dots && s[i] == '.',
        number_len(s, dots) < s.len() ==> {
            let c = s[number_len(s, dots) as int];
            !('0' <= c <= '9') && !(dots && c == '.')
        },
    decreases s.len(),
{
    if s.len() > 0 && (is_digit(s[0]) || dots && s[0] == '.') {
        law_number_is_the_longest_front(s.skip(1), dots);
        assert forall|i: int| 0 <= i < number_len(s, dots) implies ('0' <= #[trigger] s[i] <= '9')
            || dots && s[i] == '.' by {
            if i > 0 {
                assert(s.skip(1)[i - 1] == s[i]);
            }
        }
        if number_len(s, dots) < s.len() {
            assert(s.skip(1)[number_len(s, dots) - 1] == s[number_len(s, dots) as int]);
        }
    }
}

/// Texts are the same but for case exactly if they are as long, and the same but
/// for case letter by letter.
pub proof fn law_case_is_ignored_letter_by_letter(a: Seq<char>, b: Seq<char>)
    ensures
        same_letters(a, b) <==> a.len() == b.len() && forall|i: int|
            0 <= i < a.len() ==> lower(#[trigger] a[i]) == lower(b[i]),
{
    assert(lower_case(a).len() == a.len());
    assert(lower_case(b).len() == b.len());
    if same_letters(a, b) {
        assert forall|i: int| 0 <= i < a.len() implies lower(#[trigger] a[i]) == lower(b[i]) by {
            assert(lower_case(a)[i] == lower(a[i]));
            assert(lower_case(b)[i] == lower(b[i]));
        }
    } else if a.len() == b.len() && forall|i: int|
        0 <= i < a.len() ==> lower(#[trigger] a[i]) == lower(b[i]) {
        assert(lower_case(a) =~= lower_case(b));
    }
}

} // verus!
