//! Turning strings of the runtime into strings of this crate.

use vstd::prelude::*;
use crate::native::null_handle;
use crate::native::is_null;
use crate::native::RawString;

verus! {

/// The text that the lossy UTF-8 decoding of std gives for `bytes`: the
/// decoded characters, with the replacement character in place of each
/// invalid sequence.
pub uninterp spec fn utf8_lossy(bytes: Seq<u8>) -> Seq<char>;

/// True when no character of `text` is the terminator of a native string,
/// so that the text can be handed to the runtime whole.
pub open spec fn has_no_terminator(text: Seq<char>) -> bool {
    forall|at: int| 0 <= at < text.len() ==> text[at] != '\0'
}

/// What `stringify` gives for a native string: a fixed placeholder for the
/// null address, the lossy decoding of the bytes otherwise.
pub open spec fn stringified(input: RawString) -> Seq<char> {
    if null_handle(input.address) {
        "(NULL)"@
    } else {
        utf8_lossy(input.bytes@)
    }
}

/// Calls `String::from_utf8_lossy` of std. The contract names the text it
/// returns for the given bytes and claims nothing more about it.
#[verifier::external_body]
fn decode_utf8_lossy(bytes: &Vec<u8>) -> (text: String)
    ensures
        text@ == utf8_lossy(bytes@),
{
    String::from_utf8_lossy(bytes).into_owned()
}

/// Turns a native string into a `String`. For the null address the result
/// is "(NULL)".
pub fn stringify(input: &RawString) -> (text: String)
    ensures
        text@ == stringified(*input),
{
    if is_null(input.address) {
        "(NULL)".to_string()
    } else {
        decode_utf8_lossy(&input.bytes)
    }
}

} // verus!
