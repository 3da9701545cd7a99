//! Text helpers: characters of a string, substring search, and the
//! specifications of the standard string functions that the engine calls.

use vstd::prelude::*;
use vstd::utf8::decode_utf8;
use vstd::utf8::valid_utf8;

verus! {

/// `String::push` appends one character to the end of the string.
pub assume_specification[ String::push ](s: &mut String, ch: char)
    ensures
        final(s)@ == old(s)@.push(ch),
;

/// The error of `core::str::from_utf8`; the engine only tells it from success.
#[verifier::external_type_specification]
#[verifier::external_body]
pub struct ExUtf8Error(core::str::Utf8Error);

/// `core::str::from_utf8` succeeds exactly on well-formed UTF-8, and the
/// string it returns is the text that the bytes encode.
pub assume_specification[ core::str::from_utf8 ](bytes: &[u8]) -> (r: Result<
    &str,
    core::str::Utf8Error,
>)
    ensures
        r is Ok <==> valid_utf8(bytes@),
        r matches Ok(s) ==> s@ == decode_utf8(bytes@),
;

/// The text that `bytes` encode, where they are well-formed UTF-8.
pub open spec fn decoded(bytes: Seq<u8>) -> Option<Seq<char>> {
    if valid_utf8(bytes) {
        Some(decode_utf8(bytes))
    } else {
        None
    }
}

/// Reads `bytes` as UTF-8 text.
pub fn decode(bytes: &[u8]) -> (r: Option<&str>)
    ensures
        match r {
            Some(s) => decoded(bytes@) == Some(s@),
            None => decoded(bytes@) is None,
        },
{
    match core::str::from_utf8(bytes) {
        Ok(s) => Some(s),
        Err(_) => None,
    }
}

/// The characters of `s`, in order.
pub fn chars_of(s: &str) -> (v: Vec<char>)
    ensures
        v@ == s@,
{
    let mut v: Vec<char> = Vec::new();
    for c in it: s.chars()
        invariant
            v@ == it.seq().take(it.index() as int),
    {
        v.push(c);
    }
    v
}

/// `probe` stands in `text` from position `at` on.
pub open spec fn occurs_at(text: Seq<char>, probe: Seq<char>, at: int) -> bool {
    0 <= at && at + probe.len() <= text.len() && text.subrange(at, at + probe.len()) == probe
}

/// `probe` occurs somewhere in `text` as a contiguous run of characters.
pub open spec fn has_substring(text: Seq<char>, probe: Seq<char>) -> bool {
    exists|at: int| occurs_at(text, probe, at)
}

/// Whether `probe` stands in `text` from position `at` on.
fn matches_at(text: &Vec<char>, probe: &Vec<char>, at: usize) -> (r: bool)
    requires
        at + probe@.len() <= text@.len(),
    ensures
        r == occurs_at(text@, probe@, at as int),
{
    let len: usize = probe.len();
    let end: usize = text.len();
    let mut j: usize = 0;
    while j < len
        invariant
            j <= len == probe@.len(),
            at + len <= end == text@.len(),
            forall|k: int| 0 <= k < j ==> text@[at + k] == probe@[k],
        decreases probe@.len() - j,
    {
        if text[at + j] != probe[j] {
            assert(text@.subrange(at as int, at + probe@.len())[j as int] != probe@[j as int]);
            return false;
        }
        j += 1;
    }
    assert(text@.subrange(at as int, at + probe@.len()) =~= probe@);
    true
}

/// Whether `probe` occurs in `text`.
pub fn contains(text: &str, probe: &str) -> (r: bool)
    ensures
        r == has_substring(text@, probe@),
{
    let hay = chars_of(text);
    let needle = chars_of(probe);
    if needle.len() > hay.len() {
        return false;
    }
    let last: usize = hay.len() - needle.len();
    let mut at: usize = 0;
    while at < last
        invariant
            hay@ == text@,
            needle@ == probe@,
            last == hay@.len() - needle@.len(),
            at <= last,
            forall|k: int| 0 <= k < at ==> !occurs_at(text@, probe@, k),
        decreases last - at,
    {
        if matches_at(&hay, &needle, at) {
            return true;
        }
        at += 1;
    }
    matches_at(&hay, &needle, last)
}

} // verus!
