//! Percent-encoding of query values.

use vstd::prelude::*;
use vstd::utf8::encode_utf8;

verus! {

/// Bytes that are written as they are: ASCII letters and digits, `-`, `_`, `.` and `~`.
pub open spec fn is_unreserved(b: u8) -> bool {
    ||| 'A' as u8 <= b <= 'Z' as u8
    ||| 'a' as u8 <= b <= 'z' as u8
    ||| '0' as u8 <= b <= '9' as u8
    ||| b == '-' as u8
    ||| b == '_' as u8
    ||| b == '.' as u8
    ||| b == '~' as u8
}

/// The upper-case hexadecimal digit for `d`, `0 <= d <= 15`.
pub open spec fn hex_digit(d: int) -> char {
    if d < 10 {
        ((48 + d) as u8) as char
    } else {
        ((55 + d) as u8) as char
    }
}

/// The encoding of one byte: itself when unreserved, otherwise `%` and
/// its two upper-case hexadecimal digits.
pub open spec fn encode_byte(b: u8) -> Seq<char> {
    if is_unreserved(b) {
        seq![b as char]
    } else {
        seq!['%', hex_digit(b as int / 16), hex_digit(b as int % 16)]
    }
}

/// The encodings of the bytes, one after the other.
pub open spec fn percent_encoded(bytes: Seq<u8>) -> Seq<char>
    decreases bytes.len(),
{
    if bytes.len() == 0 {
        Seq::empty()
    } else {
        percent_encoded(bytes.drop_last()) + encode_byte(bytes.last())
    }
}

fn hex_char(d: u8) -> (c: char)
    requires
        d < 16,
    ensures
        c == hex_digit(d as int),
{
    if d < 10 {
        (48u8 + d) as char
    } else {
        (55u8 + d) as char
    }
}

/// Percent-encodes the UTF-8 bytes of `input`.
pub fn encode(input: &str) -> (encoded: String)
    ensures
        encoded@ == percent_encoded(encode_utf8(input@)),
{
    let bytes = input.as_bytes();
    let mut encoded = String::new();
    let mut i: usize = 0;
    assert(bytes@.take(0) =~= Seq::<u8>::empty());
    while i < bytes.len()
        invariant
            i <= bytes.len(),
            bytes@ == encode_utf8(input@),
            encoded@ == percent_encoded(bytes@.take(i as int)),
        decreases bytes.len() - i,
    {
        let b = bytes[i];
        let unreserved = (b >= 65 && b <= 90) || (b >= 97 && b <= 122) || (b >= 48 && b <= 57)
            || b == 45 || b == 95 || b == 46 || b == 126;
        assert(unreserved == is_unreserved(b));
        if unreserved {
            encoded.push(b as char);
        } else {
            encoded.push('%');
            encoded.push(hex_char(b / 16));
            encoded.push(hex_char(b % 16));
        }
        proof {
            let next = bytes@.take(i + 1);
            assert(next.drop_last() =~= bytes@.take(i as int));
            assert(next.last() == b);
            assert(encoded@ =~= percent_encoded(bytes@.take(i as int)) + encode_byte(b));
        }
        i += 1;
    }
    assert(bytes@.take(bytes.len() as int) =~= bytes@);
    encoded
}

} // verus!
