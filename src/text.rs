//! Fixed-size, NUL-terminated text fields decoded into string slices.

use vstd::prelude::*;
use vstd::string::StringSliceAdditionalSpecFns;
use vstd::utf8::valid_utf8;

verus! {

/// The number of bytes of `s` before its first zero byte (all of `s` when it holds none).
pub open spec fn text_len(s: Seq<u8>) -> nat
    decreases s.len(),
{
    if s.len() == 0 || s[0] == 0 {
        0
    } else {
        1 + text_len(s.drop_first())
    }
}

/// The text held by a NUL-terminated field: its bytes before the first zero.
pub open spec fn text_of(s: Seq<u8>) -> Seq<u8> {
    s.take(text_len(s) as int)
}

/// Relies on core::str::from_utf8: it borrows the bytes as a string slice exactly
/// when they are well-formed UTF-8, and fails otherwise.
#[verifier::external_body]
fn utf8_str<'a>(bytes: &'a [u8]) -> (r: Option<&'a str>)
    ensures
        r is Some <==> valid_utf8(bytes@),
        r matches Some(s) ==> s.spec_bytes() == bytes@,
{
    core::str::from_utf8(bytes).ok()
}

/// When no byte before `i` is zero and `s` ends or holds a zero at `i`, the text is `i` bytes long.
proof fn lemma_text_len(s: Seq<u8>, i: nat)
    requires
        i <= s.len(),
        forall|j: int| 0 <= j < i ==> s[j] != 0,
        i == s.len() || s[i as int] == 0,
    ensures
        text_len(s) == i,
    decreases i,
{
    if i > 0 {
        let t = s.drop_first();
        assert forall|j: int| 0 <= j < i - 1 implies t[j] != 0 by {
            assert(t[j] == s[j + 1]);
        }
        if i < s.len() {
            assert(t[i - 1] == s[i as int]);
        }
        lemma_text_len(t, (i - 1) as nat);
    }
}

/// Decodes a NUL-terminated text field: `None` when its first byte is zero (the
/// field was left empty) or when its text is not UTF-8, else the text before the
/// first zero byte (all of the field when it holds no zero).
pub fn string_from_u8<'a>(data: &'a [u8]) -> (r: Option<&'a str>)
    requires
        data@.len() > 0,
    ensures
        r is Some <==> data@[0] != 0 && valid_utf8(text_of(data@)),
        r matches Some(s) ==> s.spec_bytes() == text_of(data@) && s.spec_bytes().len() > 0,
{
    if data[0] == 0 {
        None
    } else {
        let mut strlen: usize = 0;
        while strlen < data.len() && data[strlen] != 0
            invariant
                strlen <= data@.len(),
                forall|j: int| 0 <= j < strlen ==> data@[j] != 0,
            decreases data@.len() - strlen,
        {
            strlen += 1;
        }
        proof {
            lemma_text_len(data@, strlen as nat);
        }
        let text = &data[0..strlen];
        assert(text@ == text_of(data@));
        utf8_str(text)
    }
}

/// Decodes a NUL-terminated text field into the text before its first zero byte;
/// a field whose first byte is zero gives the empty string.
pub fn string_from_slice<'a>(slice: &'a [u8]) -> (r: &'a str)
    requires
        valid_utf8(text_of(slice@)),
    ensures
        r.spec_bytes() == text_of(slice@),
{
    if slice.len() == 0 {
        proof {
            reveal_strlit("");
        }
        return "";
    }
    match string_from_u8(slice) {
        Some(s) => s,
        None => {
            proof {
                reveal_strlit("");
                assert(text_len(slice@) == 0);
            }
            ""
        },
    }
}

} // verus!
