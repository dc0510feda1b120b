//! Text that PostgreSQL hands out as C strings and fixed-size name buffers.

use vstd::prelude::*;
use vstd::utf8::{valid_utf8, decode_utf8};
use vstd::string::StrSliceExecFns;
use crate::types::CBool;

verus! {

#[verifier::external_type_specification]
#[verifier::external_body]
pub struct ExUtf8Error(core::str::Utf8Error);

/// `std::str::from_utf8`: as its documentation states, it succeeds exactly when the
/// bytes are well-formed UTF-8, and the string it returns then holds the characters
/// those bytes encode. Where in the bytes an error lies (what the error value holds)
/// is not stated.
#[verifier::external_body]
fn str_from_utf8(bytes: &[u8]) -> (res: Result<&str, core::str::Utf8Error>)
    ensures
        res is Ok <==> valid_utf8(bytes@),
        res matches Ok(s) ==> s@ == decode_utf8(bytes@),
{
    std::str::from_utf8(bytes)
}

/// Turns the bytes of a C string (without its terminating NUL) into a `String`;
/// fails exactly when they are not well-formed UTF-8.
pub fn c_bytes_to_string(bytes: &[u8]) -> (res: Result<String, core::str::Utf8Error>)
    ensures
        res is Ok <==> valid_utf8(bytes@),
        res matches Ok(s) ==> s@ == decode_utf8(bytes@),
{
    match str_from_utf8(bytes) {
        Ok(s) => Ok(s.to_owned()),
        Err(e) => Err(e),
    }
}

/// Turns the bytes of a server-owned C string (without its terminating NUL) into a
/// `String`; the bytes must be well-formed UTF-8.
pub fn pg_str_to_rs_str(bytes: &[u8]) -> (s: String)
    requires
        valid_utf8(bytes@),
    ensures
        s@ == decode_utf8(bytes@),
{
    match str_from_utf8(bytes) {
        Ok(text) => text.to_owned(),
        Err(_) => {
            proof {
                assert(false);
            }
            String::new()
        },
    }
}

/// The number of characters before the first NUL character (all of them if there is none).
pub open spec fn nul_position(s: Seq<char>) -> nat
    decreases s.len(),
{
    if s.len() == 0 {
        0
    } else if s[0] == '\0' {
        0
    } else {
        1 + nul_position(s.drop_first())
    }
}

/// The characters before the first NUL character.
pub open spec fn until_nul(s: Seq<char>) -> Seq<char> {
    s.take(nul_position(s) as int)
}

/// The position of the first NUL is the first index at which a NUL stands, or the
/// length when none does.
pub proof fn lemma_nul_position(s: Seq<char>, k: int)
    requires
        0 <= k <= s.len(),
        forall|j: int| 0 <= j < k ==> s[j] != '\0',
        k == s.len() || s[k] == '\0',
    ensures
        nul_position(s) == k,
    decreases s.len(),
{
    if s.len() > 0 && k > 0 {
        assert forall|j: int| 0 <= j < k - 1 implies s.drop_first()[j] != '\0' by {
            assert(s.drop_first()[j] == s[j + 1]);
        }
        if k < s.len() {
            assert(s.drop_first()[k - 1] == s[k]);
        }
        lemma_nul_position(s.drop_first(), k - 1);
    }
}

/// The bytes of a name buffer, each C `char` read as an unsigned byte.
pub open spec fn name_bytes(attname: [CBool; 64]) -> Seq<u8> {
    attname@.map_values(|c: CBool| c as u8)
}

/// Copies a name buffer into bytes, each C `char` read as an unsigned byte.
fn name_buffer_bytes(attname: &[CBool; 64]) -> (bytes: Vec<u8>)
    ensures
        bytes@ == name_bytes(*attname),
{
    let mut bytes: Vec<u8> = Vec::new();
    let mut i: usize = 0;
    while i < 64
        invariant
            i <= 64,
            bytes@ == name_bytes(*attname).take(i as int),
        decreases 64 - i,
    {
        bytes.push(attname[i] as u8);
        i = i + 1;
        assert(bytes@ =~= name_bytes(*attname).take(i as int));
    }
    assert(bytes@ =~= name_bytes(*attname));
    bytes
}

/// Reads a fixed-size, NUL-padded name buffer (PostgreSQL's `NameData`): the whole
/// buffer must be well-formed UTF-8, and the name is made of its characters before
/// the first NUL.
pub fn parse_attname(attname: [CBool; 64]) -> (name: String)
    requires
        valid_utf8(name_bytes(attname)),
    ensures
        name@ == until_nul(decode_utf8(name_bytes(attname))),
{
    let bytes = name_buffer_bytes(&attname);
    let decoded = str_from_utf8(bytes.as_slice());
    match decoded {
        Ok(s) => {
            let len = s.unicode_len();
            let mut k: usize = 0;
            while k < len && s.get_char(k) != '\0'
                invariant
                    k <= len,
                    len == s@.len(),
                    forall|j: int| 0 <= j < k ==> s@[j] != '\0',
                decreases len - k,
            {
                k = k + 1;
            }
            proof {
                lemma_nul_position(s@, k as int);
            }
            s.substring_char(0, k).to_owned()
        },
        Err(_) => {
            proof {
                assert(false);
            }
            String::new()
        },
    }
}

/// [`parse_attname`] for any buffer: `None` exactly when the buffer is not well-formed UTF-8.
pub fn try_parse_attname(attname: [CBool; 64]) -> (name: Option<String>)
    ensures
        name is Some <==> valid_utf8(name_bytes(attname)),
        name matches Some(n) ==> n@ == until_nul(decode_utf8(name_bytes(attname))),
{
    let bytes = name_buffer_bytes(&attname);
    match str_from_utf8(bytes.as_slice()) {
        Ok(_) => Some(parse_attname(attname)),
        Err(_) => None,
    }
}

/// A name read from a buffer is the text of the buffer up to its first NUL: it is a
/// prefix of that text, holds no NUL, and is followed by a NUL unless it is all of it.
pub proof fn law_until_nul(s: Seq<char>)
    ensures
        nul_position(s) <= s.len(),
        until_nul(s).len() == nul_position(s),
        until_nul(s) == s.take(until_nul(s).len() as int),
        forall|j: int| 0 <= j < until_nul(s).len() ==> until_nul(s)[j] != '\0',
        until_nul(s).len() < s.len() ==> s[until_nul(s).len() as int] == '\0',
    decreases s.len(),
{
    if s.len() > 0 && s[0] != '\0' {
        let t = s.drop_first();
        law_until_nul(t);
        let k = nul_position(t) as int;
        assert(nul_position(s) == k + 1);
        assert forall|j: int| 0 <= j < k + 1 implies s[j] != '\0' by {
            if j > 0 {
                assert(s[j] == t[j - 1]);
                assert(until_nul(t)[j - 1] == t[j - 1]);
            }
        }
        if k + 1 < s.len() {
            assert(s[k + 1] == t[k]);
        }
    }
}

/// A name buffer is read as 64 bytes, byte `i` being C char `i` reinterpreted as
/// unsigned: a non-negative char is its own byte, a negative one is that value plus 256.
pub proof fn law_name_bytes(attname: [CBool; 64])
    ensures
        name_bytes(attname).len() == 64,
        forall|i: int| 0 <= i < 64 && attname@[i] >= 0 ==> name_bytes(attname)[i] == attname@[i],
        forall|i: int|
            0 <= i < 64 && attname@[i] < 0 ==> name_bytes(attname)[i] == attname@[i] + 256,
{
    assert forall|i: int| 0 <= i < 64 implies {
        &&& (attname@[i] >= 0 ==> name_bytes(attname)[i] == attname@[i])
        &&& (attname@[i] < 0 ==> name_bytes(attname)[i] == attname@[i] + 256)
    } by {
        let c: CBool = attname@[i];
        assert(c >= 0 ==> (c as u8) == c) by (bit_vector);
        assert(c < 0 ==> (c as u8) == c + 256) by (bit_vector);
    }
}

} // verus!
