//! Random identifiers for the host.

use crate::socket::{copy_out, read_bytes, read_code, text_bytes};
use vstd::prelude::*;
use vstd::utf8::{encode_utf8, is_ascii_chars, is_ascii_chars_encode_utf8};

verus! {

/// How many characters an identifier has.
pub const ID_LENGTH: usize = 21;

/// The characters of an identifier: letters, digits, `_` and `-`, all of
/// which can stand in a URL as they are.
pub open spec fn url_safe(c: char) -> bool {
    c == '_' || c == '-' || ('0' <= c && c <= '9') || ('a' <= c && c <= 'z') || ('A' <= c && c
        <= 'Z')
}

/// An identifier of `size` characters.
pub open spec fn is_id(text: Seq<char>, size: nat) -> bool {
    &&& text.len() == size
    &&& forall|i: int| 0 <= i < text.len() ==> url_safe(#[trigger] text[i])
}

/// Calls `nanoid::format` with the generator `nanoid::rngs::default` and
/// the alphabet `nanoid::alphabet::SAFE`. The characters are drawn at
/// random, so the contract says only what holds of every outcome: the text
/// has `size` characters, each of that alphabet. `format` never returns for
/// a size of 0 and multiplies the size by 8, which the `requires` keep away
/// from. The generator panics if the system gives it no entropy.
#[verifier::external_body]
fn random_id(size: usize) -> (id: String)
    requires
        0 < size <= usize::MAX / 8,
    ensures
        is_id(id@, size as nat),
{
    nanoid::format(nanoid::rngs::default, &nanoid::alphabet::SAFE, size)
}

/// Hands an identifier to a buffer of `dest_size` bytes: an identifier that
/// is shorter than the buffer replaces what `dest` held, and its length in
/// bytes is returned; otherwise `dest` stays as it was and 0 is returned.
pub fn write_id(id: String, dest: &mut Vec<u8>, dest_size: u32) -> (code: i32)
    ensures
        code == read_code(Some(encode_utf8(id@)), dest_size),
        final(dest)@ == read_bytes(Some(encode_utf8(id@)), dest_size, old(dest)@),
{
    copy_out(Some(text_bytes(id.as_str())), dest, dest_size)
}

/// Writes a fresh random identifier of 21 URL-safe characters into a buffer
/// of `dest_size` bytes. A buffer of more than 21 bytes receives the
/// identifier, and 21 is returned; a smaller one is left as it was, and 0
/// is returned.
pub fn pollnet_get_nanoid(dest: &mut Vec<u8>, dest_size: u32) -> (code: i32)
    ensures
        dest_size > ID_LENGTH ==> {
            &&& code == ID_LENGTH
            &&& final(dest)@.len() == ID_LENGTH
            &&& forall|i: int|
                0 <= i < ID_LENGTH ==> url_safe(#[trigger] final(dest)@[i] as char)
        },
        dest_size <= ID_LENGTH ==> code == 0 && final(dest)@ == old(dest)@,
{
    let id = random_id(ID_LENGTH);
    proof {
        assert(is_ascii_chars(id@)) by {
            assert forall|i: int| 0 <= i < id@.len() implies '\0' <= #[trigger] id@[i]
                <= '\u{7f}' by {
                assert(url_safe(id@[i]));
            }
        }
        is_ascii_chars_encode_utf8(id@);
    }
    let code = write_id(id, dest, dest_size);
    proof {
        if dest_size > ID_LENGTH {
            assert forall|i: int| 0 <= i < ID_LENGTH implies url_safe(
                #[trigger] dest@[i] as char,
            ) by {
                assert(url_safe(id@[i]));
                assert(dest@[i] == id@[i] as u8);
            }
        }
    }
    code
}

} // verus!
