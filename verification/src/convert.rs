//! Text conversions at the boundary between a shell and the library:
//! decoding C strings, making strings safe for C, and panic messages.

use vstd::prelude::*;
use vstd::utf8::{decode_utf8, valid_utf8};

verus! {

/// `std::str::from_utf8`, copied into an owned `String`.
///
/// The claim: the call succeeds exactly when `bytes` is well-formed UTF-8
/// (no stray continuation byte, no overlong form, no surrogate, nothing past
/// U+10FFFF), which is what vstd's `valid_utf8` states, and the characters
/// are then those that `decode_utf8` reads from the bytes.
#[verifier::external_body]
fn utf8_string(bytes: &[u8]) -> (res: Option<String>)
    ensures
        match res {
            Some(s) => valid_utf8(bytes@) && s@ == decode_utf8(bytes@),
            None => !valid_utf8(bytes@),
        },
{
    match std::str::from_utf8(bytes) {
        Ok(s) => Some(s.to_owned()),
        Err(_) => None,
    }
}

/// The characters of a byte string, when it is well-formed UTF-8.
pub open spec fn decoded(bytes: Seq<u8>) -> Option<Seq<char>> {
    if valid_utf8(bytes) {
        Some(decode_utf8(bytes))
    } else {
        None
    }
}

/// What a possibly absent C string decodes to: nothing for an absent string
/// or one that is not UTF-8.
pub open spec fn decoded_opt(bytes: Option<Seq<u8>>) -> Option<Seq<char>> {
    match bytes {
        Some(b) => decoded(b),
        None => None,
    }
}

/// The decoded entries of a C string array, in order, with the absent entries
/// and those that are not UTF-8 left out.
pub open spec fn decoded_entries(entries: Seq<Option<Seq<u8>>>) -> Seq<Seq<char>>
    decreases entries.len(),
{
    if entries.len() == 0 {
        Seq::empty()
    } else {
        let front = decoded_entries(entries.drop_last());
        match decoded_opt(entries.last()) {
            Some(s) => front.push(s),
            None => front,
        }
    }
}

/// What a possibly absent C string array decodes to: nothing when the array
/// is absent or when no entry survives decoding.
pub open spec fn decoded_list(entries: Option<Seq<Option<Seq<u8>>>>) -> Option<Seq<Seq<char>>> {
    match entries {
        Some(e) => if decoded_entries(e).len() == 0 {
            None
        } else {
            Some(decoded_entries(e))
        },
        None => None,
    }
}

pub open spec fn bytes_view(bytes: Option<Vec<u8>>) -> Option<Seq<u8>> {
    match bytes {
        Some(b) => Some(b@),
        None => None,
    }
}

pub open spec fn entries_view(entries: Seq<Option<Vec<u8>>>) -> Seq<Option<Seq<u8>>> {
    entries.map_values(|e: Option<Vec<u8>>| bytes_view(e))
}

pub open spec fn entry_list_view(entries: Option<Vec<Option<Vec<u8>>>>) -> Option<Seq<Option<Seq<u8>>>> {
    match entries {
        Some(e) => Some(entries_view(e@)),
        None => None,
    }
}

pub open spec fn string_view(s: Option<String>) -> Option<Seq<char>> {
    match s {
        Some(t) => Some(t@),
        None => None,
    }
}

pub open spec fn strings_view(v: Seq<String>) -> Seq<Seq<char>> {
    v.map_values(|s: String| s@)
}

pub open spec fn string_list_view(v: Option<Vec<String>>) -> Option<Seq<Seq<char>>> {
    match v {
        Some(l) => Some(strings_view(l@)),
        None => None,
    }
}

/// Decodes a C string that may be absent: an absent string and one that is
/// not UTF-8 both give `None`.
pub fn cstr_to_option_string(bytes: &Option<Vec<u8>>) -> (res: Option<String>)
    ensures
        string_view(res) == decoded_opt(bytes_view(*bytes)),
        match *bytes {
            Some(b) => if valid_utf8(b@) {
                res matches Some(text) && text@ == decode_utf8(b@)
            } else {
                res is None
            },
            None => res is None,
        },
{
    match bytes {
        Some(b) => utf8_string(b.as_slice()),
        None => None,
    }
}

/// Decodes a C string array that may be absent. Absent entries and entries
/// that are not UTF-8 are skipped; an absent or empty array, and one in which
/// no entry survives, give `None`.
pub fn cstr_array_to_vec(entries: &Option<Vec<Option<Vec<u8>>>>) -> (res: Option<Vec<String>>)
    ensures
        string_list_view(res) == decoded_list(entry_list_view(*entries)),
{
    match entries {
        None => None,
        Some(v) => {
            let ghost all = entries_view(v@);
            if v.len() == 0 {
                assert(all.len() == 0);
                return None;
            }
            let mut result: Vec<String> = Vec::new();
            let mut i: usize = 0;
            while i < v.len()
                invariant
                    i <= v.len(),
                    all == entries_view(v@),
                    strings_view(result@) == decoded_entries(all.take(i as int)),
                decreases v.len() - i,
            {
                let ghost before = result@;
                assert(all.take(i + 1).drop_last() == all.take(i as int));
                assert(all.take(i + 1).last() == bytes_view(v@[i as int]));
                match &v[i] {
                    Some(b) => {
                        match utf8_string(b.as_slice()) {
                            Some(text) => {
                                result.push(text);
                                assert(strings_view(result@) == strings_view(before).push(text@));
                            },
                            None => {},
                        }
                    },
                    None => {},
                }
                i = i + 1;
            }
            assert(all.take(v.len() as int) == all);
            if result.len() == 0 {
                None
            } else {
                Some(result)
            }
        },
    }
}

/// The characters of `s` before its first NUL character, all of them when it
/// has none: what survives when the text is handed to C as a NUL-terminated
/// string.
pub open spec fn before_first_nul(s: Seq<char>) -> Seq<char>
    decreases s.len(),
{
    if s.len() == 0 {
        Seq::empty()
    } else if s[0] == '\0' {
        Seq::empty()
    } else {
        seq![s[0]] + before_first_nul(s.drop_first())
    }
}

/// Cuts `value` at its first NUL character, so that what is left can travel
/// as a NUL-terminated C string; text without a NUL comes back whole.
pub fn truncate_at_nul(value: &str) -> (res: String)
    ensures
        res@ == before_first_nul(value@),
        res@.is_prefix_of(value@),
        !res@.contains('\0'),
        res@.len() < value@.len() ==> value@[res@.len() as int] == '\0',
{
    let len = value.unicode_len();
    let mut count: usize = 0;
    let mut found = false;
    for c in it: value.chars()
        invariant
            len == value@.len(),
            it.seq() == value@,
            count <= it.index() <= len,
            !found ==> count == it.index(),
            found ==> count < len && value@[count as int] == '\0',
            forall|j: int| 0 <= j < count ==> value@[j] != '\0',
    {
        if !found {
            if c == '\0' {
                found = true;
            } else {
                count = count + 1;
            }
        }
    }
    proof {
        lemma_before_first_nul(value@, count as int);
    }
    value.substring_char(0, count).to_owned()
}

/// When `k` characters of `s` hold no NUL and the next one, if any, is a
/// NUL, the text before the first NUL is the first `k` characters.
proof fn lemma_before_first_nul(s: Seq<char>, k: int)
    requires
        0 <= k <= s.len(),
        forall|j: int| 0 <= j < k ==> s[j] != '\0',
        k < s.len() ==> s[k] == '\0',
    ensures
        before_first_nul(s) == s.subrange(0, k),
    decreases s.len(),
{
    if s.len() == 0 || k == 0 {
    } else {
        let rest = s.drop_first();
        assert forall|j: int| 0 <= j < k - 1 implies rest[j] != '\0' by {
            assert(rest[j] == s[j + 1]);
        }
        lemma_before_first_nul(rest, k - 1);
        assert(s.subrange(0, k) == seq![s[0]] + rest.subrange(0, k - 1));
    }
}

/// The message that a caught panic becomes: its text when it carries one,
/// a fixed message otherwise.
pub fn panic_message(payload: Option<&str>) -> (res: String)
    ensures
        match payload {
            Some(text) => res@ == "panic: "@ + text@,
            None => res@ == "panic: unknown error"@,
        },
{
    match payload {
        Some(text) => {
            let mut message = "panic: ".to_owned();
            message.append(text);
            message
        },
        None => "panic: unknown error".to_owned(),
    }
}

} // verus!
