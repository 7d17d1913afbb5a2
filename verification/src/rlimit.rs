//! Resource limits and how users write them.

use vstd::prelude::*;

use crate::duration::{duration_of_text, parse_duration};
use crate::error::TimeoutError;
use crate::text::{
    all_digits, chars_of, decimal_value, is_digit, law_case_is_ignored_letter_by_letter,
    law_number_is_the_longest_front, law_whole_numbers_are_read, lemma_number_ignores_case,
    lemma_number_len, letters_match, lower, lower_case, number_at, number_len, number_prefix,
    parse_u32, part, same_letters, u32_text,
};
use crate::time::Duration;

verus! {

/// What the command may use.
#[derive(Clone, Copy, Debug, PartialEq, Eq, Structural)]
pub struct ResourceLimits {
    /// Memory, in bytes; watched while the command runs.
    pub mem_bytes: Option<u64>,
    /// Processor time; enforced by the kernel.
    pub cpu_time: Option<Duration>,
}

impl Default for ResourceLimits {
    /// No limit.
    fn default() -> (limits: ResourceLimits)
        ensures
            limits == (ResourceLimits { mem_bytes: None, cpu_time: None }),
    {
        ResourceLimits { mem_bytes: None, cpu_time: None }
    }
}

impl ResourceLimits {
    /// Is nothing limited?
    pub open spec fn unlimited(self) -> bool {
        self.mem_bytes is None && self.cpu_time is None
    }

    /// Is nothing limited?
    pub fn is_empty(&self) -> (empty: bool)
        ensures
            empty == self.unlimited(),
    {
        self.mem_bytes.is_none() && self.cpu_time.is_none()
    }
}

/// The bytes in a unit of memory, in either case; one where there is none.
/// Units are binary.
pub open spec fn unit_bytes(unit: Seq<char>) -> Option<nat> {
    if unit.len() == 0 {
        Some(1)
    } else if same_letters(unit, "k"@) || same_letters(unit, "kb"@) {
        Some(0x400)
    } else if same_letters(unit, "m"@) || same_letters(unit, "mb"@) {
        Some(0x10_0000)
    } else if same_letters(unit, "g"@) || same_letters(unit, "gb"@) {
        Some(0x4000_0000)
    } else if same_letters(unit, "t"@) || same_letters(unit, "tb"@) {
        Some(0x100_0000_0000)
    } else {
        None
    }
}

/// The bytes that `s` stands for: digits and a known unit or none, as far as
/// they fit.
pub open spec fn memory_of_text(s: Seq<char>) -> Option<u64> {
    let digits = s.take(number_len(s, false) as int);
    let unit = unit_bytes(s.skip(number_len(s, false) as int));
    if digits.len() > 0 && unit is Some && decimal_value(digits) * unit->0 <= u64::MAX {
        Some((decimal_value(digits) * unit->0) as u64)
    } else {
        None
    }
}

/// The bytes in a unit of memory.
fn unit_size(unit: &Vec<char>) -> (bytes: Option<u64>)
    ensures
        bytes matches Some(n) ==> unit_bytes(unit@) == Some(n as nat) && n > 0,
        bytes is None ==> unit_bytes(unit@) is None,
{
    if unit.len() == 0 {
        Some(1)
    } else if letters_match(unit, "k") || letters_match(unit, "kb") {
        Some(0x400)
    } else if letters_match(unit, "m") || letters_match(unit, "mb") {
        Some(0x10_0000)
    } else if letters_match(unit, "g") || letters_match(unit, "gb") {
        Some(0x4000_0000)
    } else if letters_match(unit, "t") || letters_match(unit, "tb") {
        Some(0x100_0000_0000)
    } else {
        None
    }
}

/// The bytes that the characters `v` stand for.
fn read_memory(v: &Vec<char>) -> (bytes: Option<u64>)
    ensures
        bytes == memory_of_text(v@),
{
    let end: usize = number_prefix(v, false);
    let unit: Vec<char> = part(v, end, v.len());
    let ghost digits = v@.take(end as int);
    proof {
        assert(unit@ =~= v@.skip(end as int));
        assert(v@.subrange(0, end as int) =~= digits);
        assert(all_digits(digits));
    }
    let unit: u64 = match unit_size(&unit) {
        Some(n) => n,
        None => {
            return None;
        },
    };
    if end == 0 {
        return None;
    }
    match number_at(v, 0, end) {
        Some(n) => {
            assert(0 <= n * unit) by (nonlinear_arith)
                requires
                    0 <= n,
                    0 <= unit,
            ;
            n.checked_mul(unit)
        },
        None => {
            let ghost n = decimal_value(digits);
            assert(n * unit as nat >= n) by (nonlinear_arith)
                requires
                    unit >= 1,
            ;
            None
        },
    }
}

/// Reads a memory size.
pub fn parse_mem_limit(text: &str) -> (bytes: Result<u64, TimeoutError>)
    ensures
        bytes matches Ok(n) ==> memory_of_text(text@) == Some(n),
        bytes matches Err(e) ==> memory_of_text(text@) is None && (e matches
            TimeoutError::InvalidMemoryLimit(t) && t@ == text@),
{
    let v: Vec<char> = chars_of(text);
    match read_memory(&v) {
        Some(n) => Ok(n),
        None => Err(TimeoutError::InvalidMemoryLimit(text.to_owned())),
    }
}

/// Reads a limit on processor time, written as any duration.
pub fn parse_cpu_time(text: &str) -> (d: Result<Duration, TimeoutError>)
    ensures
        d matches Ok(d) ==> duration_of_text(text@) == Some(d),
        d matches Err(e) ==> duration_of_text(text@) is None && (e matches
            TimeoutError::InvalidDuration(t) && t@ == text@),
{
    parse_duration(text)
}

/// The percentage that `s` stands for: a positive whole number. One core is
/// 100, so it may be more.
pub open spec fn percent_of_text(s: Seq<char>) -> Option<u32> {
    match u32_text(s) {
        Some(n) if n > 0 => Some(n),
        _ => None,
    }
}

/// Reads a percentage of processor time.
pub fn parse_cpu_percent(text: &str) -> (percent: Result<u32, TimeoutError>)
    ensures
        percent matches Ok(n) ==> percent_of_text(text@) == Some(n),
        percent matches Err(e) ==> percent_of_text(text@) is None && (e matches
            TimeoutError::InvalidCpuPercent(t) && t@ == text@),
{
    let v: Vec<char> = chars_of(text);
    match parse_u32(&v) {
        Some(n) if n > 0 => Ok(n),
        _ => Err(TimeoutError::InvalidCpuPercent(text.to_owned())),
    }
}

/// A memory size means the same in either case.
pub proof fn law_memory_ignores_case(s: Seq<char>, t: Seq<char>)
    requires
        same_letters(s, t),
    ensures
        memory_of_text(s) == memory_of_text(t),
{
    lemma_number_ignores_case(s, t, false);
    let (u, v) = (s.skip(number_len(s, false) as int), t.skip(number_len(t, false) as int));
    assert(lower_case(u).len() == u.len());
    assert(lower_case(v).len() == v.len());
}

/// Is this a unit of memory, and how many bytes? Each is 1024 of the one before,
/// and may be written with a `b` behind it.
pub open spec fn is_memory_unit(unit: Seq<char>, bytes: nat) -> bool {
    ||| unit.len() == 0 && bytes == 1
    ||| (unit == seq!['k'] || unit == seq!['k', 'b']) && bytes == 1024
    ||| (unit == seq!['m'] || unit == seq!['m', 'b']) && bytes == 1024 * 1024
    ||| (unit == seq!['g'] || unit == seq!['g', 'b']) && bytes == 1024 * 1024 * 1024
    ||| (unit == seq!['t'] || unit == seq!['t', 'b']) && bytes == 1024 * 1024 * 1024 * 1024
}

/// The names of the units, letter by letter.
proof fn lemma_names(unit: Seq<char>)
    ensures
        "k"@ == seq!['k'] && "kb"@ == seq!['k', 'b'],
        "m"@ == seq!['m'] && "mb"@ == seq!['m', 'b'],
        "g"@ == seq!['g'] && "gb"@ == seq!['g', 'b'],
        "t"@ == seq!['t'] && "tb"@ == seq!['t', 'b'],
        same_letters(unit, "k"@) <==> unit.len() == 1 && lower(unit[0]) == 'k',
        same_letters(unit, "m"@) <==> unit.len() == 1 && lower(unit[0]) == 'm',
        same_letters(unit, "g"@) <==> unit.len() == 1 && lower(unit[0]) == 'g',
        same_letters(unit, "t"@) <==> unit.len() == 1 && lower(unit[0]) == 't',
        same_letters(unit, "kb"@) <==> unit.len() == 2 && lower(unit[0]) == 'k' && lower(unit[1])
            == 'b',
        same_letters(unit, "mb"@) <==> unit.len() == 2 && lower(unit[0]) == 'm' && lower(unit[1])
            == 'b',
        same_letters(unit, "gb"@) <==> unit.len() == 2 && lower(unit[0]) == 'g' && lower(unit[1])
            == 'b',
        same_letters(unit, "tb"@) <==> unit.len() == 2 && lower(unit[0]) == 't' && lower(unit[1])
            == 'b',
{
    reveal_strlit("k");
    reveal_strlit("kb");
    reveal_strlit("m");
    reveal_strlit("mb");
    reveal_strlit("g");
    reveal_strlit("gb");
    reveal_strlit("t");
    reveal_strlit("tb");
    assert("k"@ =~= seq!['k'] && "kb"@ =~= seq!['k', 'b']);
    assert("m"@ =~= seq!['m'] && "mb"@ =~= seq!['m', 'b']);
    assert("g"@ =~= seq!['g'] && "gb"@ =~= seq!['g', 'b']);
    assert("t"@ =~= seq!['t'] && "tb"@ =~= seq!['t', 'b']);
    law_case_is_ignored_letter_by_letter(unit, "k"@);
    law_case_is_ignored_letter_by_letter(unit, "kb"@);
    law_case_is_ignored_letter_by_letter(unit, "m"@);
    law_case_is_ignored_letter_by_letter(unit, "mb"@);
    law_case_is_ignored_letter_by_letter(unit, "g"@);
    law_case_is_ignored_letter_by_letter(unit, "gb"@);
    law_case_is_ignored_letter_by_letter(unit, "t"@);
    law_case_is_ignored_letter_by_letter(unit, "tb"@);
    if unit.len() == 2 {
        assert(unit[0] == unit[0] && unit[1] == unit[1]);
    }
}

/// A memory size is so many of its unit, and bytes without one, as long as that
/// fits; where it does not it is none.
pub proof fn law_memory_is_so_many_of_its_unit(digits: Seq<char>, unit: Seq<char>, bytes: nat)
    requires
        all_digits(digits),
        digits.len() > 0,
        is_memory_unit(unit, bytes),
    ensures
        decimal_value(digits) * bytes <= u64::MAX ==> memory_of_text(digits + unit) == Some(
            (decimal_value(digits) * bytes) as u64,
        ),
        decimal_value(digits) * bytes > u64::MAX ==> memory_of_text(digits + unit) is None,
{
    lemma_names(unit);
    let s = digits + unit;
    assert forall|i: int| 0 <= i < digits.len() implies is_digit(#[trigger] s[i]) || false && s[i]
        == '.' by {
        assert(s[i] == digits[i]);
    }
    if unit.len() > 0 {
        assert(s[digits.len() as int] == unit[0]);
    }
    lemma_number_len(s, false, digits.len());
    assert(s.take(digits.len() as int) =~= digits);
    assert(s.skip(digits.len() as int) =~= unit);
}

/// Nothing else is a memory size: there are digits first, and then a unit that is
/// known, or nothing.
pub proof fn law_nothing_else_is_a_memory_size(s: Seq<char>)
    requires
        memory_of_text(s) is Some,
    ensures
        s.len() > 0 && is_digit(s[0]),
        ({
            let unit = s.skip(number_len(s, false) as int);
            exists|known: Seq<char>, bytes: nat|
                #[trigger] is_memory_unit(known, bytes) && same_letters(unit, known)
        }),
{
    law_number_is_the_longest_front(s, false);
    let unit = s.skip(number_len(s, false) as int);
    lemma_names(unit);
    if unit.len() == 0 {
        assert(is_memory_unit(unit, 1) && same_letters(unit, unit));
    } else {
        assert(is_memory_unit("k"@, 0x400) && is_memory_unit("kb"@, 0x400));
        assert(is_memory_unit("m"@, 0x10_0000) && is_memory_unit("mb"@, 0x10_0000));
        assert(is_memory_unit("g"@, 0x4000_0000) && is_memory_unit("gb"@, 0x4000_0000));
        assert(is_memory_unit("t"@, 0x100_0000_0000) && is_memory_unit("tb"@, 0x100_0000_0000));
    }
}

/// A share of processor time is a whole number above zero, and may be above a
/// hundred.
pub proof fn law_percentage_is_above_zero(digits: Seq<char>)
    requires
        all_digits(digits),
        digits.len() > 0,
    ensures
        1 <= decimal_value(digits) <= u32::MAX ==> percent_of_text(digits) == Some(
            decimal_value(digits) as u32,
        ),
        decimal_value(digits) == 0 || decimal_value(digits) > u32::MAX ==> percent_of_text(digits)
            is None,
{
    law_whole_numbers_are_read(digits, digits);
}

/// A limit is nothing only if neither memory nor processor time is limited.
pub proof fn law_any_limit_is_a_limit(limits: ResourceLimits)
    ensures
        limits.mem_bytes is Some ==> !limits.unlimited(),
        limits.cpu_time is Some ==> !limits.unlimited(),
        limits.mem_bytes is None && limits.cpu_time is None ==> limits.unlimited(),
{
}

} // verus!
