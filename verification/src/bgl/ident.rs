//! Packed identifiers: up to a few characters in radix 38.

use vstd::prelude::*;

verus! {

/// The character that one radix-38 digit stands for: 0 is a space, 2 to 11
/// are the decimal digits, 12 to 37 the capital letters. The one remaining
/// digit, 1, has no character of its own and reads as a question mark.
pub open spec fn ident_char(code: int) -> char {
    if code == 0 {
        ' '
    } else if 2 <= code <= 11 {
        ('0' as int + (code - 2)) as char
    } else if 12 <= code <= 37 {
        ('A' as int + (code - 12)) as char
    } else {
        '?'
    }
}

/// Whether `c` belongs to the identifier alphabet: space, `0`-`9`, `A`-`Z`
/// and the question mark.
pub open spec fn is_ident_char(c: char) -> bool {
    c == ' ' || c == '?' || ('0' <= c && c <= '9') || ('A' <= c && c <= 'Z')
}

fn to_char(code: u32) -> (c: char)
    requires
        code < 38,
    ensures
        c == ident_char(code as int),
{
    if code == 0 {
        ' '
    } else if 2 <= code && code <= 11 {
        let b: u8 = 48 + (code - 2) as u8;
        b as char
    } else if 12 <= code && code <= 37 {
        let b: u8 = 65 + (code - 12) as u8;
        b as char
    } else {
        '?'
    }
}

/// The characters of a non-zero value: its radix-38 digits, most significant
/// first, each mapped through the alphabet. Zero has no digits.
pub open spec fn ident_digits(v: nat) -> Seq<char>
    decreases v,
{
    if v == 0 {
        Seq::empty()
    } else {
        ident_digits(v / 38).push(ident_char((v % 38) as int))
    }
}

/// The identifier that a raw field holds. Where `shifted` is set the five
/// low bits of the field belong to something else and are dropped first. A
/// value of zero stands for "no identifier" and reads as one space.
pub open spec fn icao_code(raw: u32, shifted: bool) -> Seq<char> {
    let v = if shifted {
        raw >> 5
    } else {
        raw
    };
    if v == 0 {
        seq![' ']
    } else {
        ident_digits(v as nat)
    }
}

/// 38 to the power of `k`.
pub open spec fn radix_pow(k: nat) -> nat
    decreases k,
{
    if k == 0 {
        1
    } else {
        38 * radix_pow((k - 1) as nat)
    }
}

/// The digits collected so far, least significant first, read as characters
/// from the most significant end.
spec fn chars_of_codes(codes: Seq<u32>) -> Seq<char> {
    Seq::new(codes.len(), |i: int| ident_char(codes[codes.len() - 1 - i] as int))
}

/// Every digit maps into the identifier alphabet.
pub proof fn lemma_ident_char_in_alphabet(code: int)
    ensures
        is_ident_char(ident_char(code)),
{
}

/// Every character of a decoded value belongs to the identifier alphabet,
/// and a value below `38^k` has at most `k` characters.
pub proof fn lemma_ident_digits(v: nat, k: nat)
    requires
        v < radix_pow(k),
    ensures
        ident_digits(v).len() <= k,
        v > 0 ==> ident_digits(v).len() >= 1,
        forall|i: int| 0 <= i < ident_digits(v).len() ==> is_ident_char(#[trigger] ident_digits(v)[i]),
    decreases v,
{
    if v > 0 {
        assert(k > 0);
        lemma_ident_digits(v / 38, (k - 1) as nat);
        lemma_ident_char_in_alphabet((v % 38) as int);
    }
}

/// For every raw value, shifted or not, the identifier has between one and
/// seven characters (six when shifted), all of them from the alphabet
/// `{' ', '0'-'9', 'A'-'Z', '?'}`.
pub proof fn lemma_icao_code_alphabet(raw: u32, shifted: bool)
    ensures
        1 <= icao_code(raw, shifted).len() <= 7,
        shifted ==> icao_code(raw, shifted).len() <= 6,
        forall|i: int|
            0 <= i < icao_code(raw, shifted).len() ==> is_ident_char(
                #[trigger] icao_code(raw, shifted)[i],
            ),
{
    assert(radix_pow(7) == 114415582592nat && radix_pow(6) == 3010936384nat) by {
        reveal_with_fuel(radix_pow, 8);
    }
    assert(raw >> 5 < 0x8000000u32) by (bit_vector);
    let v = if shifted {
        raw >> 5
    } else {
        raw
    };
    if v != 0 {
        lemma_ident_digits(v as nat, 7);
        if shifted {
            lemma_ident_digits(v as nat, 6);
        }
    }
}

/// Decodes a packed identifier. Airport identifiers keep unrelated data in
/// their five low bits; `is_airport_ident` drops those first.
pub fn calculate_icao_code(value: u32, is_airport_ident: bool) -> (icao: String)
    ensures
        icao@ == icao_code(value, is_airport_ident),
        1 <= icao@.len() <= 7,
        forall|i: int| 0 <= i < icao@.len() ==> is_ident_char(#[trigger] icao@[i]),
{
    proof {
        lemma_icao_code_alphabet(value, is_airport_ident);
    }
    let mut value: u32 = if is_airport_ident {
        value >> 5
    } else {
        value
    };
    let ghost start: u32 = value;
    let mut icao = String::new();
    if value == 0 {
        icao.push(' ');
        assert(icao@ =~= seq![' ']);
        return icao;
    }
    let mut coded_chars: Vec<u32> = Vec::new();
    while value > 0
        invariant
            ident_digits(start as nat) == ident_digits(value as nat) + chars_of_codes(coded_chars@),
            forall|j: int| 0 <= j < coded_chars@.len() ==> coded_chars@[j] < 38,
        decreases value,
    {
        let remainder: u32 = value % 38;
        proof {
            let next = coded_chars@.push(remainder);
            assert(chars_of_codes(next) =~= seq![ident_char(remainder as int)] + chars_of_codes(
                coded_chars@,
            ));
            assert(ident_digits(value as nat) == ident_digits((value / 38) as nat).push(
                ident_char(remainder as int),
            ));
            assert(ident_digits(value as nat) + chars_of_codes(coded_chars@) =~= ident_digits(
                (value / 38) as nat,
            ) + chars_of_codes(next));
        }
        coded_chars.push(remainder);
        value = value / 38;
    }
    assert(ident_digits(start as nat) =~= chars_of_codes(coded_chars@));
    let mut i: usize = coded_chars.len();
    while i > 0
        invariant
            i <= coded_chars@.len(),
            forall|j: int| 0 <= j < coded_chars@.len() ==> coded_chars@[j] < 38,
            icao@ == chars_of_codes(coded_chars@).subrange(0, coded_chars@.len() - i),
        decreases i,
    {
        i = i - 1;
        icao.push(to_char(coded_chars[i]));
        assert(icao@ =~= chars_of_codes(coded_chars@).subrange(0, coded_chars@.len() - i));
    }
    assert(icao@ =~= chars_of_codes(coded_chars@));
    icao
}

} // verus!
