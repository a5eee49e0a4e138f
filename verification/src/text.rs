use vstd::prelude::*;
use vstd::string::{StringExecFns, StringSliceAdditionalSpecFns};
use vstd::utf8::{decode_utf8, encode_utf8, encode_utf8_decode_utf8, valid_utf8};

verus! {

/// The bytes that hold `text` in UTF-8.
pub open spec fn utf8_bytes(text: Seq<char>) -> Seq<u8> {
    encode_utf8(text)
}

/// True when no byte of the UTF-8 form of `text` is zero, so that it can
/// travel as a NUL-terminated C string.
pub open spec fn nul_free(text: Seq<char>) -> bool {
    forall|i: int| 0 <= i < utf8_bytes(text).len() ==> utf8_bytes(text)[i] != 0u8
}

/// True when `p` is the position of the first zero byte of `bytes`.
pub open spec fn is_first_nul(bytes: Seq<u8>, p: int) -> bool {
    &&& 0 <= p < bytes.len()
    &&& bytes[p] == 0u8
    &&& forall|j: int| 0 <= j < p ==> bytes[j] != 0u8
}

/// Equality of two texts, decided on their bytes.
pub fn same_text(a: &str, b: &str) -> (r: bool)
    ensures
        r == (a@ == b@),
{
    let ab = a.as_bytes();
    let bb = b.as_bytes();
    if ab.len() != bb.len() {
        return false;
    }
    let mut i: usize = 0;
    while i < ab.len()
        invariant
            ab@ == a.spec_bytes(),
            bb@ == b.spec_bytes(),
            ab@.len() == bb@.len(),
            i <= ab@.len(),
            forall|j: int| 0 <= j < i ==> ab@[j] == bb@[j],
        decreases ab@.len() - i,
    {
        if ab[i] != bb[i] {
            return false;
        }
        i = i + 1;
    }
    proof {
        assert(ab@ =~= bb@);
        encode_utf8_decode_utf8(a@);
        encode_utf8_decode_utf8(b@);
    }
    true
}

/// Finds the first zero byte in the UTF-8 form of `s`.
pub fn first_nul(s: &str) -> (r: Option<usize>)
    ensures
        r matches Some(p) ==> is_first_nul(utf8_bytes(s@), p as int),
        r is None <==> nul_free(s@),
{
    let b = s.as_bytes();
    let mut i: usize = 0;
    while i < b.len()
        invariant
            b@ == utf8_bytes(s@),
            i <= b@.len(),
            forall|j: int| 0 <= j < i ==> b@[j] != 0u8,
        decreases b@.len() - i,
    {
        if b[i] == 0u8 {
            return Some(i);
        }
        i = i + 1;
    }
    None
}

/// The text of one decimal digit.
pub open spec fn digit_text(d: nat) -> Seq<char> {
    if d == 0 {
        "0"@
    } else if d == 1 {
        "1"@
    } else if d == 2 {
        "2"@
    } else if d == 3 {
        "3"@
    } else if d == 4 {
        "4"@
    } else if d == 5 {
        "5"@
    } else if d == 6 {
        "6"@
    } else if d == 7 {
        "7"@
    } else if d == 8 {
        "8"@
    } else {
        "9"@
    }
}

/// The decimal notation of `n`, without leading zeros.
pub open spec fn decimal(n: nat) -> Seq<char>
    decreases n,
{
    if n < 10 {
        digit_text(n)
    } else {
        decimal(n / 10) + digit_text(n % 10)
    }
}

fn digit_str(d: usize) -> (s: &'static str)
    requires
        d < 10,
    ensures
        s@ == digit_text(d as nat),
{
    if d == 0 {
        "0"
    } else if d == 1 {
        "1"
    } else if d == 2 {
        "2"
    } else if d == 3 {
        "3"
    } else if d == 4 {
        "4"
    } else if d == 5 {
        "5"
    } else if d == 6 {
        "6"
    } else if d == 7 {
        "7"
    } else if d == 8 {
        "8"
    } else {
        "9"
    }
}

/// Writes `n` in decimal.
pub fn decimal_text(n: usize) -> (s: String)
    ensures
        s@ == decimal(n as nat),
    decreases n,
{
    if n < 10 {
        String::from_str(digit_str(n))
    } else {
        let mut s = decimal_text(n / 10);
        s.append(digit_str(n % 10));
        s
    }
}

/// What `std::str::from_utf8` reports, as text, about bytes that are not
/// UTF-8: its error's `Display` output, a function of the bytes alone.
pub uninterp spec fn utf8_error_message(bytes: Seq<u8>) -> Seq<char>;

/// Calls `std::str::from_utf8`. Trusted: it succeeds exactly on the byte
/// sequences that vstd's `valid_utf8` accepts, and the text it then gives is
/// vstd's `decode_utf8` of them; on other bytes the message is the error's
/// `Display` text, named `utf8_error_message` and not spelled out here.
#[verifier::external_body]
pub(crate) fn utf8_text(bytes: &[u8]) -> (r: Result<String, String>)
    ensures
        r is Ok <==> valid_utf8(bytes@),
        r matches Ok(s) ==> s@ == decode_utf8(bytes@),
        r matches Err(m) ==> m@ == utf8_error_message(bytes@),
{
    match std::str::from_utf8(bytes) {
        Ok(s) => Ok(s.to_string()),
        Err(e) => Err(e.to_string()),
    }
}

/// The bytes of a C string argument; `None` stands for a null pointer.
pub open spec fn arg_bytes(arg: Option<&[u8]>) -> Option<Seq<u8>> {
    match arg {
        Some(b) => Some(b@),
        None => None,
    }
}

/// The text that an argument decodes to, or the message that rejects it:
/// an absent (null) argument, or one whose bytes are not UTF-8.
pub open spec fn decoded_arg(arg: Option<Seq<u8>>) -> Result<Seq<char>, Seq<char>> {
    match arg {
        None => Err("null pointer"@),
        Some(b) => if valid_utf8(b) {
            Ok(decode_utf8(b))
        } else {
            Err("invalid UTF-8: "@ + utf8_error_message(b))
        },
    }
}

} // verus!
