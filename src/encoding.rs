use vstd::prelude::*;
use vstd::string::StringSliceAdditionalSpecFns;

verus! {

/// Bytes that stand for themselves in a query component (RFC 3986, section 2.3):
/// ASCII letters (65..=90, 97..=122), digits (48..=57) and `-` `_` `.` `~`
/// (45, 95, 46, 126).
pub open spec fn unreserved(b: u8) -> bool {
    ||| (65 <= b && b <= 90)
    ||| (97 <= b && b <= 122)
    ||| (48 <= b && b <= 57)
    ||| b == 45
    ||| b == 95
    ||| b == 46
    ||| b == 126
}

/// The upper-case hexadecimal digit of a value below sixteen.
pub open spec fn hex_char(n: u8) -> char {
    if n < 10 {
        (48 + n) as u8 as char
    } else {
        (65 + (n - 10)) as u8 as char
    }
}

/// What one byte becomes in an encoded query component.
pub open spec fn encoded_byte(b: u8) -> Seq<char> {
    if unreserved(b) {
        seq![b as char]
    } else {
        seq!['%', hex_char(b / 16), hex_char(b % 16)]
    }
}

/// Percent-encoding of a byte string: each byte encoded in turn.
pub open spec fn pct_encode(bytes: Seq<u8>) -> Seq<char>
    decreases bytes.len(),
{
    if bytes.len() == 0 {
        Seq::empty()
    } else {
        pct_encode(bytes.drop_last()) + encoded_byte(bytes.last())
    }
}

fn is_unreserved(b: u8) -> (r: bool)
    ensures
        r == unreserved(b),
{
    (65 <= b && b <= 90) || (97 <= b && b <= 122) || (48 <= b && b <= 57) || b == 45
        || b == 95 || b == 46 || b == 126
}

fn hex_digit(n: u8) -> (c: char)
    requires
        n < 16,
    ensures
        c == hex_char(n),
{
    if n < 10 {
        (48 + n) as char
    } else {
        (65 + (n - 10)) as char
    }
}

/// Relies on `String::push`: the character is added at the end.
#[verifier::external_body]
fn push_char(s: &mut String, c: char)
    ensures
        final(s)@ == old(s)@.push(c),
{
    s.push(c)
}

/// Percent-encodes the UTF-8 bytes of `text`, so that it can stand as one
/// query component of a URL: separators such as `&`, `=` or a space are
/// written as `%XX` and cannot split the query.
pub fn percent_encode(text: &str) -> (r: String)
    ensures
        r@ == pct_encode(text.spec_bytes()),
{
    let bytes = text.as_bytes();
    let mut out = String::new();
    let mut i: usize = 0;
    while i < bytes.len()
        invariant
            bytes@ == text.spec_bytes(),
            i <= bytes@.len(),
            out@ == pct_encode(bytes@.subrange(0, i as int)),
        decreases bytes@.len() - i,
    {
        let b = bytes[i];
        if is_unreserved(b) {
            push_char(&mut out, b as char);
        } else {
            push_char(&mut out, '%');
            push_char(&mut out, hex_digit(b / 16));
            push_char(&mut out, hex_digit(b % 16));
        }
        assert(bytes@.subrange(0, i + 1).drop_last() == bytes@.subrange(0, i as int));
        i += 1;
    }
    assert(bytes@.subrange(0, bytes@.len() as int) == bytes@);
    out
}

/// Characters that may stand in an encoded query component.
pub open spec fn component_char(c: char) -> bool {
    ||| ('A' <= c && c <= 'Z')
    ||| ('a' <= c && c <= 'z')
    ||| ('0' <= c && c <= '9')
    ||| c == '-'
    ||| c == '_'
    ||| c == '.'
    ||| c == '~'
    ||| c == '%'
}

/// An encoded text holds only letters, digits, `-` `_` `.` `~` and `%`: in
/// particular no `&`, `=`, `#` or space that would end or split a query value.
pub proof fn encoded_text_is_one_component(bytes: Seq<u8>)
    ensures
        forall|i: int| 0 <= i < pct_encode(bytes).len() ==> component_char(#[trigger] pct_encode(bytes)[i]),
        forall|i: int| 0 <= i < pct_encode(bytes).len() ==> #[trigger] pct_encode(bytes)[i] != '&' && pct_encode(bytes)[i] != ' ',
    decreases bytes.len(),
{
    if bytes.len() > 0 {
        encoded_text_is_one_component(bytes.drop_last());
        let b = bytes.last();
        assert(forall|i: int| 0 <= i < encoded_byte(b).len() ==> component_char(#[trigger] encoded_byte(b)[i])) by {
            if !unreserved(b) {
                assert(b / 16 < 16);
            }
        }
        let prev = pct_encode(bytes.drop_last());
        assert forall|i: int| 0 <= i < pct_encode(bytes).len() implies component_char(#[trigger] pct_encode(bytes)[i]) by {
            if i >= prev.len() {
                assert(pct_encode(bytes)[i] == encoded_byte(b)[i - prev.len()]);
            }
        }
    }
}

/// The value of an upper-case hexadecimal digit.
pub open spec fn hex_value(c: char) -> u8 {
    if '0' <= c && c <= '9' {
        (c as u32 - 48) as u8
    } else {
        (c as u32 - 55) as u8
    }
}

/// Reads an encoded query component back into bytes, from its end: a `%`
/// three characters before the end starts the last `%XX` triple; otherwise
/// the last character stands for itself.
pub open spec fn pct_decode(s: Seq<char>) -> Seq<u8>
    decreases s.len(),
{
    if s.len() == 0 {
        Seq::empty()
    } else if s.len() >= 3 && s[s.len() - 3] == '%' {
        pct_decode(s.subrange(0, s.len() - 3)).push(
            (hex_value(s[s.len() - 2]) * 16 + hex_value(s[s.len() - 1])) as u8,
        )
    } else {
        pct_decode(s.drop_last()).push(s.last() as u32 as u8)
    }
}

proof fn hex_digit_round_trip(n: u8)
    requires
        n < 16,
    ensures
        hex_value(hex_char(n)) == n,
        hex_char(n) != '%',
{
}

/// The last two characters of an encoded text are never `%`.
proof fn encoded_text_ends_without_escape(bytes: Seq<u8>)
    ensures
        pct_encode(bytes).len() >= 1 ==> pct_encode(bytes).last() != '%',
        pct_encode(bytes).len() >= 2 ==> pct_encode(bytes)[pct_encode(bytes).len() - 2] != '%',
    decreases bytes.len(),
{
    if bytes.len() > 0 {
        let b = bytes.last();
        encoded_text_ends_without_escape(bytes.drop_last());
        if !unreserved(b) {
            hex_digit_round_trip(b / 16);
            hex_digit_round_trip(b % 16);
        }
    }
}

/// Percent-encoding loses nothing: decoding an encoded text gives back the
/// bytes that were encoded.
pub proof fn encoding_decodes_back(bytes: Seq<u8>)
    ensures
        pct_decode(pct_encode(bytes)) == bytes,
    decreases bytes.len(),
{
    if bytes.len() > 0 {
        let b = bytes.last();
        let prev = bytes.drop_last();
        let p = pct_encode(prev);
        let s = pct_encode(bytes);
        encoding_decodes_back(prev);
        encoded_text_ends_without_escape(prev);
        if unreserved(b) {
            assert(s.drop_last() =~= p);
            if s.len() >= 3 {
                assert(s[s.len() - 3] == p[p.len() - 2]);
            }
        } else {
            hex_digit_round_trip(b / 16);
            hex_digit_round_trip(b % 16);
            assert(s.subrange(0, s.len() - 3) =~= p);
            assert(b / 16 * 16 + b % 16 == b) by (nonlinear_arith);
        }
        assert(bytes =~= prev.push(b));
    }
}

} // verus!
