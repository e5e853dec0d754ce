//! Saving a file the UI hands over: its bytes and the extension offered in
//! the save dialog.

use vstd::prelude::*;
use crate::b64::{base64_encode, base64_error_text, decode_base64};
use crate::http::{split_char, split_on};
use crate::text::{push_str, to_owned_string};

verus! {

/// The extension offered for a MIME type: what follows its first `/` (up to
/// a second one), `bin` when it has none.
pub open spec fn extension_spec(mime_type: Seq<char>) -> Seq<char> {
    let pieces = split_on(mime_type, '/');
    if pieces.len() >= 2 {
        pieces[1]
    } else {
        "bin"@
    }
}

pub fn save_file_extension(mime_type: &str) -> (r: String)
    ensures
        r@ == extension_spec(mime_type@),
{
    let pieces = split_char(mime_type, '/');
    proof {
        assert(pieces@.map_values(|t: String| t@).len() == pieces@.len());
    }
    if pieces.len() >= 2 {
        proof {
            assert(pieces@.map_values(|t: String| t@)[1] == pieces@[1]@);
        }
        pieces[1].clone()
    } else {
        to_owned_string("bin")
    }
}

/// The bytes of a file sent as base64; `Failed to decode data: ` and the
/// decoder's complaint when it is not base64.
pub fn decode_file_data(data: &str) -> (r: Result<Vec<u8>, String>)
    ensures
        r matches Ok(b) ==> base64_encode(b@) == data@,
        (exists|b: Seq<u8>| base64_encode(b) == data@) ==> r is Ok,
        r matches Err(e) ==> e@ == "Failed to decode data: "@ + base64_error_text(data@),
{
    match decode_base64(data) {
        Ok(b) => Ok(b),
        Err(e) => {
            let mut m = to_owned_string("Failed to decode data: ");
            push_str(&mut m, e.as_str());
            Err(m)
        },
    }
}

} // verus!
