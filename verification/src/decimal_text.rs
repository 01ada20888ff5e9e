use vstd::prelude::*;
use vstd::string::*;

use crate::text::pow10;
use crate::u256::u128_max;

verus! {

pub open spec fn is_decimal_digit(c: char) -> bool {
    '0' <= c && c <= '9'
}

pub open spec fn all_decimal_digits(s: Seq<char>) -> bool {
    forall|i: int| 0 <= i < s.len() ==> is_decimal_digit(#[trigger] s[i])
}

/// The number that a string of decimal digits writes (0 for no digits).
pub open spec fn digits_value(s: Seq<char>) -> nat
    decreases s.len(),
{
    if s.len() == 0 {
        0
    } else {
        digits_value(s.drop_last()) * 10 + (s.last() as nat - '0' as nat) as nat
    }
}

/// The position of the first `.`, if any.
pub open spec fn first_dot(s: Seq<char>) -> Option<int>
    decreases s.len(),
{
    if s.len() == 0 {
        None
    } else {
        match first_dot(s.drop_last()) {
            Some(d) => Some(d),
            None => if s.last() == '.' { Some(s.len() - 1) } else { None },
        }
    }
}

/// Some fraction digit past the eighteenth is not `0`.
pub open spec fn dropped_digit_nonzero(f: Seq<char>) -> bool {
    exists|i: int| 18 <= i < f.len() && #[trigger] f[i] != '0'
}

/// The fraction digits in wad units, a missing digit counting as 0; when digits
/// past the eighteenth are dropped and one of them is not 0, one unit up, so
/// that the amount is the fraction rounded up to a whole wad unit.
pub open spec fn fraction_wad(f: Seq<char>) -> nat {
    if f.len() >= 18 {
        digits_value(f.take(18)) + if dropped_digit_nonzero(f) { 1nat } else { 0nat }
    } else {
        digits_value(f) * pow10((18 - f.len()) as nat)
    }
}

/// The wad amount that a decimal text `D+` or `D+.D*` writes, rounded up to a
/// whole wad unit; `None` when the text is not of that form.
pub open spec fn decimal_wad(s: Seq<char>) -> Option<nat> {
    let int_part = integer_digits(s);
    let frac_part = fraction_digits(s);
    if int_part.len() > 0 && all_decimal_digits(int_part) && all_decimal_digits(frac_part) {
        Some(digits_value(int_part) * pow10(18) + fraction_wad(frac_part))
    } else {
        None
    }
}

/// What stands before the first `.` (all of `s` when there is none).
pub open spec fn integer_digits(s: Seq<char>) -> Seq<char> {
    match first_dot(s) {
        Some(d) => s.take(d),
        None => s,
    }
}

/// What stands after the first `.` (nothing when there is none).
pub open spec fn fraction_digits(s: Seq<char>) -> Seq<char> {
    match first_dot(s) {
        Some(d) => s.skip(d + 1),
        None => Seq::empty(),
    }
}

proof fn lemma_digits_value_prefix(s: Seq<char>, k: int)
    requires
        0 <= k <= s.len(),
    ensures
        digits_value(s.take(k)) <= digits_value(s),
    decreases s.len() - k,
{
    if k == s.len() {
        assert(s.take(k) =~= s);
    } else {
        lemma_digits_value_prefix(s, k + 1);
        assert(s.take(k + 1).drop_last() =~= s.take(k));
        assert(digits_value(s.take(k + 1)) >= digits_value(s.take(k)) * 10);
    }
}

proof fn lemma_first_dot_found(s: Seq<char>, d: int)
    requires
        0 <= d < s.len(),
        s[d] == '.',
        forall|i: int| 0 <= i < d ==> s[i] != '.',
    ensures
        first_dot(s) == Some(d),
    decreases s.len(),
{
    if d < s.len() - 1 {
        lemma_first_dot_found(s.drop_last(), d);
    } else {
        lemma_first_dot_absent(s.drop_last());
    }
}

proof fn lemma_first_dot_absent(s: Seq<char>)
    requires
        forall|i: int| 0 <= i < s.len() ==> s[i] != '.',
    ensures
        first_dot(s) is None,
    decreases s.len(),
{
    if s.len() > 0 {
        lemma_first_dot_absent(s.drop_last());
    }
}

fn char_digit(c: char) -> (d: u128)
    requires
        is_decimal_digit(c),
    ensures
        d == c as nat - '0' as nat,
        d < 10,
{
    (c as u32 - '0' as u32) as u128
}

/// Reads a limit written in decimal (such as `1.1`) as a wad amount (`1.1` is
/// `1_100_000_000_000_000_000`); `None` when the text is not `D+` or `D+.D*`,
/// or the amount does not fit in a `u128`.
pub fn wad_from_decimal(text: &str) -> (res: Option<u128>)
    ensures
        res is Some <==> (decimal_wad(text@) matches Some(w) && w <= u128_max()),
        res matches Some(v) ==> decimal_wad(text@) == Some(v as nat),
{
    let n = text.unicode_len();
    let ghost s = text@;
    // Find the first dot.
    let mut dot: usize = 0;
    while dot < n && text.get_char(dot) != '.'
        invariant
            s == text@,
            n == s.len(),
            dot <= n,
            forall|i: int| 0 <= i < dot ==> s[i] != '.',
        decreases n - dot,
    {
        dot = dot + 1;
    }
    let ghost int_part = s.take(dot as int);
    let ghost frac_part = if dot < n { s.skip(dot + 1) } else { Seq::<char>::empty() };
    proof {
        if dot < n {
            lemma_first_dot_found(s, dot as int);
        } else {
            lemma_first_dot_absent(s);
            assert(s.take(dot as int) =~= s);
        }
        assert(int_part == integer_digits(s));
        assert(frac_part == fraction_digits(s));
    }
    if dot == 0 {
        return None;
    }
    // The integer part, at most u128::MAX / 10^18.
    let int_limit: u128 = 340_282_366_920_938_463_463;
    let mut int_value: u128 = 0;
    let mut i: usize = 0;
    while i < dot
        invariant
            s == text@,
            n == s.len(),
            dot <= n,
            i <= dot,
            int_part == s.take(dot as int),
            int_part == integer_digits(s),
            frac_part == fraction_digits(s),
            all_decimal_digits(s.take(i as int)),
            int_value == digits_value(s.take(i as int)),
            int_value <= int_limit,
            int_limit == 340_282_366_920_938_463_463,
        decreases dot - i,
    {
        let c = text.get_char(i);
        proof {
            assert(s.take(i + 1).drop_last() =~= s.take(i as int));
        }
        if !('0' <= c && c <= '9') {
            proof {
                assert(int_part[i as int] == c);
            }
            return None;
        }
        let digit = char_digit(c);
        if int_value > (int_limit - digit) / 10 {
            proof {
                assert(s.take(i + 1) =~= int_part.take(i + 1));
                lemma_digits_value_prefix(int_part, i + 1);
                assert(digits_value(int_part) > int_limit);
                assert(digits_value(int_part) * pow10(18) > u128_max()) by {
                    crate::text::lemma_pow10_18();
                }
                if all_decimal_digits(int_part) && all_decimal_digits(frac_part) {
                    assert(decimal_wad(s) == Some(digits_value(int_part) * pow10(18) + fraction_wad(frac_part)));
                }
            }
            return None;
        }
        int_value = int_value * 10 + digit;
        i = i + 1;
    }
    proof {
        assert(s.take(i as int) =~= int_part);
    }
    // The fraction part.
    proof {
        reveal_with_fuel(pow10, 18);
        assert(pow10(0) == 1);
    }
    let mut frac_value: u128 = 0;
    let mut used: usize = 0;
    let mut dropped: bool = false;
    let mut j: usize = if dot < n { dot + 1 } else { n };
    let start = j;
    while j < n
        invariant
            s == text@,
            n == s.len(),
            start <= j <= n,
            start == if dot < n { dot + 1 } else { n as int },
            frac_part == s.subrange(start as int, n as int),
            int_part == integer_digits(s),
            frac_part == fraction_digits(s),
            all_decimal_digits(int_part),
            int_part.len() > 0,
            int_value == digits_value(int_part),
            int_value <= 340_282_366_920_938_463_463,
            all_decimal_digits(s.subrange(start as int, j as int)),
            used == if j - start < 18 { j - start } else { 18int },
            frac_value == digits_value(s.subrange(start as int, j as int).take(used as int)),
            frac_value < pow10(used as nat),
            used <= 18,
            pow10(17) == 100_000_000_000_000_000,
            dropped == dropped_digit_nonzero(s.subrange(start as int, j as int)),
        decreases n - j,
    {
        let c = text.get_char(j);
        if !('0' <= c && c <= '9') {
            proof {
                assert(frac_part[j - start] == c);
            }
            return None;
        }
        let ghost before = s.subrange(start as int, j as int);
        let ghost after = s.subrange(start as int, j + 1);
        proof {
            assert(after =~= before.push(c));
        }
        if used < 18 {
            let digit = char_digit(c);
            proof {
                crate::text::lemma_pow10_monotone(used as nat, 17);
                assert(pow10((used + 1) as nat) == 10 * pow10(used as nat));
                assert(after.take(used + 1).drop_last() =~= before.take(used as int));
                assert(after.take(used + 1).last() == c);
            }
            frac_value = frac_value * 10 + digit;
            used = used + 1;
            proof {
                assert(!dropped_digit_nonzero(after));
            }
        } else {
            proof {
                assert(after.take(used as int) =~= before.take(used as int));
            }
            if c != '0' {
                dropped = true;
                proof {
                    assert(after[j - start] == c);
                    assert(dropped_digit_nonzero(after));
                }
            } else {
                proof {
                    if dropped_digit_nonzero(after) {
                        let k = choose|k: int| 18 <= k < after.len() && #[trigger] after[k] != '0';
                        assert(before[k] == after[k]);
                    }
                    if dropped_digit_nonzero(before) {
                        let k = choose|k: int| 18 <= k < before.len() && #[trigger] before[k] != '0';
                        assert(before[k] == after[k]);
                    }
                }
            }
        }
        j = j + 1;
    }
    proof {
        assert(frac_part =~= s.subrange(start as int, j as int));
        assert(frac_part.len() == j - start);
        if frac_part.len() < 18 {
            assert(!dropped);
            assert(used == frac_part.len());
            assert(frac_part.take(used as int) =~= frac_part);
            assert(frac_value == digits_value(frac_part));
            let e = pow10((18 - used) as nat);
            assert(e == pow10((18 - frac_part.len()) as nat));
            assert(fraction_wad(frac_part) == digits_value(frac_part) * e);
            assert(digits_value(frac_part) * e == frac_value * e);
            assert(fraction_wad(frac_part) == frac_value * pow10((18 - used) as nat) + if dropped { 1nat } else { 0nat });
        } else {
            assert(used == 18);
            assert(pow10(0) == 1);
            assert((18 - used) as nat == 0);
            assert(frac_value == digits_value(frac_part.take(18)));
            assert(frac_value * 1 == frac_value);
            assert(fraction_wad(frac_part) == frac_value * pow10((18 - used) as nat) + if dropped { 1nat } else { 0nat });
        }
        assert(all_decimal_digits(int_part));
        assert(all_decimal_digits(frac_part));
        assert(int_part.len() > 0);
        crate::text::lemma_pow10_add(used as nat, (18 - used) as nat);
        crate::text::lemma_pow10_18();
        crate::text::lemma_pow10_positive((18 - used) as nat);
        assert(frac_value * pow10((18 - used) as nat) < pow10(18)) by (nonlinear_arith)
            requires
                frac_value < pow10(used as nat),
                pow10(used as nat) * pow10((18 - used) as nat) == pow10(18),
                pow10((18 - used) as nat) >= 1,
        ;
        assert(int_value * pow10(18) <= 340_282_366_920_938_463_463_000_000_000_000_000_000) by (nonlinear_arith)
            requires
                int_value <= 340_282_366_920_938_463_463,
                pow10(18) == 1_000_000_000_000_000_000,
        ;
        assert(decimal_wad(s) == Some((int_value * pow10(18) + frac_value * pow10((18 - used) as nat)
            + if dropped { 1nat } else { 0nat }) as nat));
    }
    let scale = crate::text::pow10_u128((18 - used) as u8);
    let int_wad = int_value * 1_000_000_000_000_000_000;
    let frac_wad = frac_value * scale + if dropped { 1 } else { 0 };
    int_wad.checked_add(frac_wad)
}

/// The signed wad amount that a decimal text writes: `decimal_wad` of the text,
/// or, after one leading `-`, the negated `decimal_wad` of the rest.
pub open spec fn signed_decimal_wad(s: Seq<char>) -> Option<int> {
    if s.len() > 0 && s[0] == '-' {
        match decimal_wad(s.skip(1)) {
            Some(w) => Some(-(w as int)),
            None => None,
        }
    } else {
        match decimal_wad(s) {
            Some(w) => Some(w as int),
            None => None,
        }
    }
}

/// Reads a limit written in decimal, with an optional leading `-` (such as
/// `-1.5`), as a signed wad amount; `None` when the text is not of that form
/// or the amount does not fit in an `i128`.
pub fn signed_wad_from_decimal(text: &str) -> (res: Option<i128>)
    ensures
        res is Some <==> (signed_decimal_wad(text@) matches Some(w) && i128::MIN <= w <= i128::MAX),
        res matches Some(v) ==> signed_decimal_wad(text@) == Some(v as int),
{
    let n = text.unicode_len();
    if n > 0 && text.get_char(0) == '-' {
        let rest = text.substring_char(1, n);
        proof {
            assert(rest@ =~= text@.skip(1));
        }
        match wad_from_decimal(rest) {
            Some(w) => {
                if w <= 170_141_183_460_469_231_731_687_303_715_884_105_727 {
                    Some(-(w as i128))
                } else if w == 170_141_183_460_469_231_731_687_303_715_884_105_728 {
                    Some(i128::MIN)
                } else {
                    None
                }
            },
            None => None,
        }
    } else {
        match wad_from_decimal(text) {
            Some(w) => {
                if w <= 170_141_183_460_469_231_731_687_303_715_884_105_727 {
                    Some(w as i128)
                } else {
                    None
                }
            },
            None => None,
        }
    }
}

} // verus!
