use vstd::prelude::*;
use vstd::string::StringExecFns;

verus! {

/// The digit, 0 to 9 and A to F, of a number below 16; F for any other.
pub open spec fn spec_hex_digit(n: int) -> Seq<char> {
    if n == 0 {
        "0"@
    } else if n == 1 {
        "1"@
    } else if n == 2 {
        "2"@
    } else if n == 3 {
        "3"@
    } else if n == 4 {
        "4"@
    } else if n == 5 {
        "5"@
    } else if n == 6 {
        "6"@
    } else if n == 7 {
        "7"@
    } else if n == 8 {
        "8"@
    } else if n == 9 {
        "9"@
    } else if n == 10 {
        "A"@
    } else if n == 11 {
        "B"@
    } else if n == 12 {
        "C"@
    } else if n == 13 {
        "D"@
    } else if n == 14 {
        "E"@
    } else {
        "F"@
    }
}

/// The two hexadecimal digits of a byte.
pub open spec fn spec_hex_u8(v: u8) -> Seq<char> {
    spec_hex_digit(v as int / 16) + spec_hex_digit(v as int % 16)
}

/// The four hexadecimal digits of a word.
pub open spec fn spec_hex_u16(v: u16) -> Seq<char> {
    spec_hex_u8((v / 0x100) as u8) + spec_hex_u8((v % 0x100) as u8)
}

/// The decimal digits of a number, without leading zeros.
pub open spec fn spec_decimal(n: nat) -> Seq<char>
    decreases n,
{
    if n < 10 {
        spec_hex_digit(n as int)
    } else {
        spec_decimal(n / 10) + spec_hex_digit((n % 10) as int)
    }
}

/// The text of a run of bytes, each byte taken as the character with its
/// number.
pub open spec fn spec_text(bytes: Seq<u8>) -> Seq<char> {
    Seq::new(bytes.len(), |i: int| bytes[i] as char)
}

/// `String::push` of the standard library: the character is appended to
/// the end of the string, and the rest of the string stays.
#[verifier::external_body]
fn push_char(s: &mut String, c: char)
    ensures
        final(s)@ == old(s)@.push(c),
{
    s.push(c);
}

/// The text of a run of bytes, each byte taken as the character with its
/// number.
pub fn text(bytes: &Vec<u8>) -> (r: String)
    ensures
        r@ == spec_text(bytes@),
{
    let mut r: String = String::new();
    let mut i: usize = 0;
    while i < bytes.len()
        invariant
            i <= bytes.len(),
            r@ == spec_text(bytes@.subrange(0, i as int)),
        decreases bytes.len() - i,
    {
        push_char(&mut r, bytes[i] as char);
        assert(r@ =~= spec_text(bytes@.subrange(0, i + 1)));
        i = i + 1;
    }
    assert(bytes@.subrange(0, i as int) =~= bytes@);
    r
}

/// The digit of a number below 16.
pub fn hex_digit(n: u8) -> (r: &'static str)
    ensures
        r@ == spec_hex_digit(n as int),
{
    if n == 0 {
        "0"
    } else if n == 1 {
        "1"
    } else if n == 2 {
        "2"
    } else if n == 3 {
        "3"
    } else if n == 4 {
        "4"
    } else if n == 5 {
        "5"
    } else if n == 6 {
        "6"
    } else if n == 7 {
        "7"
    } else if n == 8 {
        "8"
    } else if n == 9 {
        "9"
    } else if n == 10 {
        "A"
    } else if n == 11 {
        "B"
    } else if n == 12 {
        "C"
    } else if n == 13 {
        "D"
    } else if n == 14 {
        "E"
    } else {
        "F"
    }
}

/// The two hexadecimal digits of a byte, in capitals.
pub fn hex_u8(v: u8) -> (r: String)
    ensures
        r@ == spec_hex_u8(v),
{
    let mut r: String = hex_digit(v / 16).to_owned();
    r.append(hex_digit(v % 16));
    r
}

/// The four hexadecimal digits of a word, in capitals.
pub fn hex_u16(v: u16) -> (r: String)
    ensures
        r@ == spec_hex_u16(v),
{
    let mut r: String = hex_u8((v / 0x100) as u8);
    let low: String = hex_u8((v % 0x100) as u8);
    r.append(low.as_str());
    r
}

/// The decimal digits of a number.
pub fn decimal(n: u64) -> (r: String)
    ensures
        r@ == spec_decimal(n as nat),
    decreases n,
{
    if n < 10 {
        hex_digit(n as u8).to_owned()
    } else {
        let mut r: String = decimal(n / 10);
        r.append(hex_digit((n % 10) as u8));
        r
    }
}

} // verus!
