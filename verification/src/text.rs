use vstd::prelude::*;

verus! {

/// Appends one character to a string (std's `String::push`).
/// Trusted: the string afterwards is the old one followed by `c`.
#[verifier::external_body]
pub(crate) fn push_char(s: &mut String, c: char)
    ensures
        final(s)@ == old(s)@.push(c),
{
    s.push(c);
}

/// The character that writes the decimal digit `d`.
pub open spec fn digit_char(d: nat) -> char {
    if d == 0 { '0' }
    else if d == 1 { '1' }
    else if d == 2 { '2' }
    else if d == 3 { '3' }
    else if d == 4 { '4' }
    else if d == 5 { '5' }
    else if d == 6 { '6' }
    else if d == 7 { '7' }
    else if d == 8 { '8' }
    else { '9' }
}

/// The decimal numeral of `n`, most significant digit first, no leading zeros.
pub open spec fn decimal_text(n: nat) -> Seq<char>
    decreases n,
{
    if n < 10 {
        seq![digit_char(n)]
    } else {
        decimal_text(n / 10).push(digit_char(n % 10))
    }
}

pub fn digit_to_char(d: u8) -> (c: char)
    requires
        d < 10,
    ensures
        c == digit_char(d as nat),
{
    match d {
        0 => '0',
        1 => '1',
        2 => '2',
        3 => '3',
        4 => '4',
        5 => '5',
        6 => '6',
        7 => '7',
        8 => '8',
        _ => '9',
    }
}

/// Appends the decimal numeral of `n` to `s`.
pub fn push_decimal(s: &mut String, n: u128)
    ensures
        final(s)@ == old(s)@ + decimal_text(n as nat),
    decreases n,
{
    if n >= 10 {
        push_decimal(s, n / 10);
    }
    push_char(s, digit_to_char((n % 10) as u8));
    proof {
        if n < 10 {
            assert(decimal_text(n as nat) == seq![digit_char(n as nat)]);
        }
        assert(s@ =~= old(s)@ + decimal_text(n as nat));
    }
}

/// Ten to the power `d`.
pub open spec fn pow10(d: nat) -> nat
    decreases d,
{
    if d == 0 { 1 } else { 10 * pow10((d - 1) as nat) }
}

pub proof fn lemma_pow10_positive(d: nat)
    ensures
        pow10(d) >= 1,
    decreases d,
{
    if d > 0 {
        lemma_pow10_positive((d - 1) as nat);
    }
}

pub fn pow10_u128(d: u8) -> (r: u128)
    requires
        d <= 38,
    ensures
        r == pow10(d as nat),
{
    proof {
        lemma_pow10_38();
        lemma_pow10_positive(38);
    }
    let mut r: u128 = 1;
    let mut i: u8 = 0;
    while i < d
        invariant
            i <= d <= 38,
            r == pow10(i as nat),
            r <= pow10(38),
            pow10(38) == 100_000_000_000_000_000_000_000_000_000_000_000_000,
        decreases d - i,
    {
        proof {
            lemma_pow10_monotone((i + 1) as nat, 38);
        }
        r = r * 10;
        i = i + 1;
    }
    r
}

pub proof fn lemma_pow10_38()
    ensures
        pow10(38) == 100_000_000_000_000_000_000_000_000_000_000_000_000,
{
    reveal_with_fuel(pow10, 39);
}

pub proof fn lemma_pow10_18()
    ensures
        pow10(18) == 1_000_000_000_000_000_000,
{
    reveal_with_fuel(pow10, 19);
}

pub proof fn lemma_pow10_add(a: nat, b: nat)
    ensures
        pow10(a) * pow10(b) == pow10(a + b),
    decreases a,
{
    if a > 0 {
        let a1 = (a - 1) as nat;
        lemma_pow10_add(a1, b);
        let x = pow10(a1);
        let y = pow10(b);
        assert(pow10(a) == 10 * x);
        assert((a1 + b) + 1 == a + b);
        assert(pow10(a + b) == 10 * pow10(a1 + b));
        assert(pow10(a) * pow10(b) == pow10(a + b)) by (nonlinear_arith)
            requires
                pow10(a) == 10 * x,
                pow10(a + b) == 10 * pow10(a1 + b),
                x * y == pow10(a1 + b),
                y == pow10(b),
        ;
    } else {
        assert(pow10(a) == 1);
        assert(a + b == b);
    }
}

pub proof fn lemma_pow10_monotone(a: nat, b: nat)
    requires
        a <= b,
    ensures
        pow10(a) <= pow10(b),
    decreases b,
{
    if a < b {
        lemma_pow10_monotone(a, (b - 1) as nat);
        lemma_pow10_positive((b - 1) as nat);
    }
}

/// `piece` stands somewhere in `text`, as consecutive characters.
pub open spec fn has_piece(text: Seq<char>, piece: Seq<char>) -> bool {
    exists|k: int| 0 <= k && k + piece.len() <= text.len() && #[trigger] text.subrange(k, k + piece.len()) == piece
}

/// The middle part of a text made of three parts stands in it.
pub proof fn lemma_has_middle_piece(a: Seq<char>, b: Seq<char>, c: Seq<char>)
    ensures
        has_piece(a + b + c, b),
{
    let t = a + b + c;
    let k = a.len() as int;
    assert(t.subrange(k, k + b.len()) =~= b);
}

} // verus!
