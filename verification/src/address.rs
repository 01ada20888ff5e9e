use vstd::prelude::*;

verus! {

/// A 20-byte Ethereum account or contract address, big-endian as written in hex.
#[derive(Clone, Copy, Debug, PartialEq, Eq, Hash)]
pub struct EthAddress {
    pub bytes: [u8; 20],
}

pub open spec fn is_hex_digit(c: char) -> bool {
    ('0' <= c && c <= '9') || ('a' <= c && c <= 'f') || ('A' <= c && c <= 'F')
}

pub open spec fn hex_digit_value(c: char) -> nat {
    if '0' <= c && c <= '9' {
        (c as nat - '0' as nat) as nat
    } else if 'a' <= c && c <= 'f' {
        (c as nat - 'a' as nat + 10) as nat
    } else {
        (c as nat - 'A' as nat + 10) as nat
    }
}

/// Characters that the hex decoder skips.
pub open spec fn is_hex_filler(c: char) -> bool {
    c == ' ' || c == '\r' || c == '\n' || c == '\t'
}

/// The input with one leading `0x` removed, if it has one.
pub open spec fn strip_hex_prefix(s: Seq<char>) -> Seq<char> {
    if s.len() >= 2 && s[0] == '0' && s[1] == 'x' {
        s.subrange(2, s.len() as int)
    } else {
        s
    }
}

/// The hex digits of `s` in order, or `None` when `s` holds a character
/// that is neither a hex digit nor a skipped filler character.
pub open spec fn hex_digits(s: Seq<char>) -> Option<Seq<char>>
    decreases s.len(),
{
    if s.len() == 0 {
        Some(Seq::empty())
    } else {
        match hex_digits(s.drop_last()) {
            None => None,
            Some(d) => if is_hex_digit(s.last()) {
                Some(d.push(s.last()))
            } else if is_hex_filler(s.last()) {
                Some(d)
            } else {
                None
            },
        }
    }
}

/// The bytes that a sequence of 40 hex digits stands for, two digits a byte.
pub open spec fn bytes_of_hex(d: Seq<char>) -> Seq<u8> {
    Seq::new(20, |i: int| (hex_digit_value(d[2 * i]) * 16 + hex_digit_value(d[2 * i + 1])) as u8)
}

/// What parsing `s` as an address gives: after an optional `0x`, exactly
/// 40 hex digits (fillers skipped), read two at a time as big-endian bytes.
pub open spec fn parsed_address(s: Seq<char>) -> Option<Seq<u8>> {
    match hex_digits(strip_hex_prefix(s)) {
        Some(d) => if d.len() == 40 { Some(bytes_of_hex(d)) } else { None },
        None => None,
    }
}

/// Parses an address with `ethers`' `FromStr` for `H160`.
/// Trusted: the result is `Some` exactly when `parsed_address` is, with those bytes.
#[verifier::external_body]
pub(crate) fn parse_address(s: &str) -> (res: Option<EthAddress>)
    ensures
        res.is_some() <==> parsed_address(s@).is_some(),
        res matches Some(a) ==> a.bytes@ == parsed_address(s@).unwrap(),
{
    match s.parse::<ethers::types::Address>() {
        Ok(a) => Some(EthAddress { bytes: a.0 }),
        Err(_) => None,
    }
}

/// Parses an address text that is known to be well formed.
pub fn parse_valid_address(s: &str) -> (a: EthAddress)
    requires
        parsed_address(s@).is_some(),
    ensures
        a.bytes@ == parsed_address(s@).unwrap(),
{
    match parse_address(s) {
        Some(a) => a,
        None => {
            proof {
                assert(false);
            }
            EthAddress { bytes: [0u8; 20] }
        },
    }
}

/// The lowercase hex digit for `n` in `0..16`.
pub open spec fn lower_hex_char(n: nat) -> char {
    if n < 10 {
        crate::text::digit_char(n)
    } else if n == 10 { 'a' }
    else if n == 11 { 'b' }
    else if n == 12 { 'c' }
    else if n == 13 { 'd' }
    else if n == 14 { 'e' }
    else { 'f' }
}

/// Each byte as two lowercase hex digits, in order.
pub open spec fn bytes_lower_hex(b: Seq<u8>) -> Seq<char>
    decreases b.len(),
{
    if b.len() == 0 {
        Seq::empty()
    } else {
        bytes_lower_hex(b.drop_last()) + seq![lower_hex_char(b.last() as nat / 16), lower_hex_char(b.last() as nat % 16)]
    }
}

/// How an address prints with `{:?}`: `0x` and 40 lowercase hex digits.
pub open spec fn address_debug_text(a: EthAddress) -> Seq<char> {
    seq!['0', 'x'] + bytes_lower_hex(a.bytes@)
}

/// Formats an address with `ethers`' `Debug` for `H160` (`{:#x}`).
/// Trusted: the text is `0x` followed by each byte as two lowercase hex digits.
#[verifier::external_body]
pub(crate) fn address_debug(a: &EthAddress) -> (s: String)
    ensures
        s@ == address_debug_text(*a),
{
    format!("{:?}", ethers::types::Address::from(a.bytes))
}

proof fn lemma_lower_hex_char(n: nat)
    requires
        n < 16,
    ensures
        is_hex_digit(lower_hex_char(n)),
        hex_digit_value(lower_hex_char(n)) == n,
{
}

proof fn lemma_bytes_lower_hex_shape(b: Seq<u8>)
    ensures
        bytes_lower_hex(b).len() == 2 * b.len(),
        forall|i: int| 0 <= i < b.len() ==> {
            &&& #[trigger] bytes_lower_hex(b)[2 * i] == lower_hex_char(b[i] as nat / 16)
            &&& bytes_lower_hex(b)[2 * i + 1] == lower_hex_char(b[i] as nat % 16)
        },
    decreases b.len(),
{
    if b.len() > 0 {
        let init = b.drop_last();
        lemma_bytes_lower_hex_shape(init);
        assert forall|i: int| 0 <= i < b.len() implies {
            &&& #[trigger] bytes_lower_hex(b)[2 * i] == lower_hex_char(b[i] as nat / 16)
            &&& bytes_lower_hex(b)[2 * i + 1] == lower_hex_char(b[i] as nat % 16)
        } by {
            if i < b.len() - 1 {
                assert(init[i] == b[i]);
                assert(bytes_lower_hex(init)[2 * i] == lower_hex_char(init[i] as nat / 16));
            }
        }
    }
}

proof fn lemma_hex_digits_all_digits(s: Seq<char>)
    requires
        forall|i: int| 0 <= i < s.len() ==> is_hex_digit(#[trigger] s[i]),
    ensures
        hex_digits(s) == Some(s),
    decreases s.len(),
{
    if s.len() > 0 {
        let init = s.drop_last();
        assert forall|i: int| 0 <= i < init.len() implies is_hex_digit(#[trigger] init[i]) by {
            assert(init[i] == s[i]);
        }
        lemma_hex_digits_all_digits(init);
        assert(is_hex_digit(s[s.len() - 1]));
        assert(init.push(s.last()) =~= s);
    }
}

/// An address written the way `{:?}` writes it parses back to the same address.
pub proof fn lemma_address_debug_parses_back(a: EthAddress)
    ensures
        parsed_address(address_debug_text(a)) == Some(a.bytes@),
{
    let b = a.bytes@;
    let h = bytes_lower_hex(b);
    let t = address_debug_text(a);
    lemma_bytes_lower_hex_shape(b);
    assert(b.len() == 20);
    assert(strip_hex_prefix(t) =~= h);
    assert forall|k: int| 0 <= k < h.len() implies is_hex_digit(#[trigger] h[k]) by {
        let i = k / 2;
        assert(0 <= i < 20);
        assert(h[2 * i] == lower_hex_char(b[i] as nat / 16));
        lemma_lower_hex_char(b[i] as nat / 16);
        lemma_lower_hex_char(b[i] as nat % 16);
        if k % 2 == 0 {
            assert(k == 2 * i);
        } else {
            assert(k == 2 * i + 1);
        }
    }
    lemma_hex_digits_all_digits(h);
    assert(bytes_of_hex(h) =~= b) by {
        assert forall|i: int| 0 <= i < 20 implies #[trigger] bytes_of_hex(h)[i] == b[i] by {
            lemma_lower_hex_char(b[i] as nat / 16);
            lemma_lower_hex_char(b[i] as nat % 16);
            assert(h[2 * i] == lower_hex_char(b[i] as nat / 16));
        }
    }
}

} // verus!
