//! Lines of text that the host reads for a mod: the trailing white space that is
//! cut off, and the bytes that are queued for the mod.
use vstd::prelude::*;
use vstd::utf8::{decode_utf8, encode_utf8, valid_utf8};

verus! {

/// Unicode's `White_Space` property, by which `char::is_whitespace` and
/// `str::trim_end` decide.
pub open spec fn is_white_space(c: char) -> bool {
    ||| '\u{9}' <= c <= '\u{d}'
    ||| c == ' '
    ||| c == '\u{85}'
    ||| c == '\u{a0}'
    ||| c == '\u{1680}'
    ||| '\u{2000}' <= c <= '\u{200a}'
    ||| c == '\u{2028}'
    ||| c == '\u{2029}'
    ||| c == '\u{202f}'
    ||| c == '\u{205f}'
    ||| c == '\u{3000}'
}

/// `s` without its trailing white space.
pub open spec fn trimmed_end(s: Seq<char>) -> Seq<char>
    decreases s.len(),
{
    if s.len() > 0 && is_white_space(s.last()) {
        trimmed_end(s.drop_last())
    } else {
        s
    }
}

/// The bytes that the host queues for a line that it read: the line without
/// its trailing white space (the line break among it), in UTF-8.
pub open spec fn queued_line(line: Seq<char>) -> Seq<u8> {
    encode_utf8(trimmed_end(line))
}

/// Calls `str::trim_end`, which the standard library documents as removing the
/// trailing characters that have the `White_Space` property. The result is claimed
/// to be exactly [`trimmed_end`] of the argument.
#[verifier::external_body]
pub(crate) fn trim_end(s: &str) -> (r: &str)
    ensures
        r@ == trimmed_end(s@),
{
    s.trim_end()
}

/// Calls `String::from_utf8`, which the standard library documents as accepting
/// exactly the valid UTF-8 byte sequences. It is claimed to succeed exactly on
/// [`valid_utf8`] input and then to hold the characters that the bytes encode.
#[verifier::external_body]
pub(crate) fn string_from_utf8(bytes: Vec<u8>) -> (r: Option<String>)
    ensures
        r is Some <==> valid_utf8(bytes@),
        r matches Some(s) ==> s@ == decode_utf8(bytes@),
{
    String::from_utf8(bytes).ok()
}

/// The bytes to queue for a line that was read: [`queued_line`].
pub fn line_bytes(line: &str) -> (r: Vec<u8>)
    ensures
        r@ == queued_line(line@),
{
    let t = trim_end(line);
    vstd::slice::slice_to_vec(t.as_bytes())
}

/// Trimming leaves a prefix of the line that does not end in white space, and
/// every character cut off is white space; trimming twice cuts nothing more.
pub proof fn law_trimmed_end(s: Seq<char>)
    ensures
        trimmed_end(s).len() <= s.len(),
        trimmed_end(s) == s.take(trimmed_end(s).len() as int),
        trimmed_end(s).len() > 0 ==> !is_white_space(trimmed_end(s).last()),
        forall|i: int| trimmed_end(s).len() <= i < s.len() ==> is_white_space(#[trigger] s[i]),
        trimmed_end(trimmed_end(s)) == trimmed_end(s),
    decreases s.len(),
{
    if s.len() > 0 && is_white_space(s.last()) {
        let t = s.drop_last();
        law_trimmed_end(t);
        assert forall|i: int| trimmed_end(s).len() <= i < s.len() implies is_white_space(
            #[trigger] s[i],
        ) by {
            if i < s.len() - 1 {
                assert(s[i] == t[i]);
            }
        }
        assert(t.take(trimmed_end(t).len() as int) == s.take(trimmed_end(t).len() as int));
    } else {
        assert(s.take(s.len() as int) == s);
    }
}

} // verus!
