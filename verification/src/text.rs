//! Text that the device and its host library hand over as raw values:
//! NUL-terminated byte strings, wide-character strings and JSON payloads.
use vstd::prelude::*;
use vstd::utf8::*;

verus! {

/// The text that `String::from_utf8_lossy` makes of invalid UTF-8 input.
pub uninterp spec fn lossy_utf8(bytes: Seq<u8>) -> Seq<char>;

/// The integer that `serde_json` finds under `key` in the JSON object that
/// `text` holds (`None` when the text is no JSON, no object, has no such
/// member, or the member is no integer representable as `i64`).
pub uninterp spec fn json_int_member(text: Seq<char>, key: Seq<char>) -> Option<i64>;

/// Appends one character to a string (std's `String::push`).
#[verifier::external_body]
pub(crate) fn push_char(s: &mut String, c: char)
    ensures
        final(s)@ == old(s)@.push(c),
{
    s.push(c);
}

/// std's `char::from_u32`: the character with the given code, or `None` when
/// the code is no Unicode scalar value.
#[verifier::external_body]
fn char_from_code(code: u32) -> (r: Option<char>)
    ensures
        r is Some <==> is_scalar(code),
        r matches Some(c) ==> c as u32 == code,
{
    char::from_u32(code)
}

/// std's `String::from_utf8_lossy`, turned into an owned string. Valid UTF-8
/// is decoded as it stands; of invalid input (where each ill-formed sequence
/// becomes U+FFFD) only its name is stated.
#[verifier::external_body]
pub(crate) fn utf8_lossy(bytes: &[u8]) -> (text: String)
    ensures
        text@ == lossy_utf8(bytes@),
        valid_utf8(bytes@) ==> text@ == decode_utf8(bytes@),
{
    String::from_utf8_lossy(bytes).into_owned()
}

/// Parses `text` with `serde_json` as a JSON value and reads the integer
/// member `key` of it (`Value::get`, then `Value::as_i64`). What the parse
/// yields is not restated here: the result is the name `json_int_member`.
#[verifier::external_body]
pub(crate) fn json_integer_member(text: &str, key: &str) -> (r: Option<i64>)
    ensures
        r == json_int_member(text@, key@),
{
    match serde_json::from_str::<serde_json::Value>(text) {
        Ok(value) => value.get(key).and_then(|v| v.as_i64()),
        Err(_) => None,
    }
}

/// The character that a wide-character code stands for, with `?` for codes
/// that are no Unicode scalar value.
pub open spec fn wide_char(code: u32) -> char {
    if is_scalar(code) {
        code as char
    } else {
        '?'
    }
}

/// Converts a wide-character string (without its terminating zero) to text,
/// replacing each code that is no Unicode scalar value by `?`.
pub fn wide_to_string(codes: &[u32]) -> (text: String)
    ensures
        text@ == codes@.map_values(|c: u32| wide_char(c)),
{
    let mut text = String::new();
    let n = codes.len();
    for i in 0..n
        invariant
            n == codes@.len(),
            text@ == codes@.take(i as int).map_values(|c: u32| wide_char(c)),
    {
        let code = codes[i];
        let c = match char_from_code(code) {
            Some(c) => {
                proof {
                    char_u32_cast(c, code);
                }
                c
            },
            None => '?',
        };
        assert(c == wide_char(code));
        push_char(&mut text, c);
        assert(codes@.take(i + 1).map_values(|c: u32| wide_char(c)) =~= codes@.take(
            i as int,
        ).map_values(|c: u32| wide_char(c)).push(wide_char(code)));
    }
    assert(codes@.take(n as int) =~= codes@);
    text
}

/// The index of the first zero byte, if there is one.
pub open spec fn first_nul(bytes: Seq<u8>) -> Option<int> {
    if exists|i: int| 0 <= i < bytes.len() && bytes[i] == 0 {
        Some(choose|i: int| 0 <= i < bytes.len() && bytes[i] == 0 && forall|j: int| 0 <= j < i ==> bytes[j] != 0)
    } else {
        None
    }
}

/// Finds the first zero byte.
pub fn find_nul(bytes: &[u8]) -> (r: Option<usize>)
    ensures
        match r {
            Some(i) => i < bytes@.len() && bytes@[i as int] == 0 && forall|j: int|
                0 <= j < i ==> bytes@[j] != 0,
            None => forall|j: int| 0 <= j < bytes@.len() ==> bytes@[j] != 0,
        },
{
    let n = bytes.len();
    for i in 0..n
        invariant
            n == bytes@.len(),
            forall|j: int| 0 <= j < i ==> bytes@[j] != 0,
    {
        if bytes[i] == 0 {
            return Some(i);
        }
    }
    None
}

/// The bytes of a C string: everything before the first zero byte, or all
/// bytes when there is none.
pub open spec fn c_string_bytes(bytes: Seq<u8>) -> Seq<u8> {
    match first_nul(bytes) {
        Some(i) => bytes.take(i),
        None => bytes,
    }
}

/// A zero byte with no zero before it is the first one.
pub(crate) proof fn lemma_first_nul(bytes: Seq<u8>, i: int)
    requires
        0 <= i < bytes.len(),
        bytes[i] == 0,
        forall|j: int| 0 <= j < i ==> bytes[j] != 0,
    ensures
        first_nul(bytes) == Some(i),
{
    let k = choose|k: int| 0 <= k < bytes.len() && bytes[k] == 0 && forall|j: int| 0 <= j < k ==> bytes[j] != 0;
    assert(exists|k: int| 0 <= k < bytes.len() && bytes[k] == 0 && forall|j: int| 0 <= j < k ==> bytes[j] != 0) by {
        assert(0 <= i < bytes.len() && bytes[i] == 0 && forall|j: int| 0 <= j < i ==> bytes[j] != 0);
    }
    if k < i {
        assert(bytes[k] != 0);
    }
    if i < k {
        assert(bytes[i] != 0);
    }
}

/// Reads the text of a C string held in a buffer (the NUL and what follows
/// it are dropped), decoding it as UTF-8 the lossy way.
pub fn c_string_to_string(bytes: &[u8]) -> (text: String)
    ensures
        text@ == lossy_utf8(c_string_bytes(bytes@)),
{
    match find_nul(bytes) {
        Some(i) => {
            proof {
                lemma_first_nul(bytes@, i as int);
            }
            let head = slice_prefix(bytes, i);
            utf8_lossy(head)
        },
        None => utf8_lossy(bytes),
    }
}

/// The first `n` elements of a slice.
pub(crate) fn slice_prefix(bytes: &[u8], n: usize) -> (head: &[u8])
    requires
        n <= bytes@.len(),
    ensures
        head@ == bytes@.take(n as int),
{
    let (head, _) = bytes.split_at(n);
    head
}

} // verus!
