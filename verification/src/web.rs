//! The verified pieces of the management surface: the error type returned
//! by every endpoint, the notifications pushed over the WebSocket, and the
//! safe-name check applied to mapping-file names.

use vstd::prelude::*;
use vstd::string::StringSliceAdditionalSpecFns;

verus! {

/// An endpoint failure: an HTTP status code and a message.
#[derive(Debug, Clone)]
pub struct WebServerError(pub u16, pub String);

impl WebServerError {
    /// A 500 with the given message.
    pub fn internal_error(message: String) -> (r: WebServerError)
        ensures
            r.0 == 500,
            r.1@ == message@,
    {
        WebServerError(500, message)
    }

    /// A 400 with the given message.
    pub fn bad_request(message: String) -> (r: WebServerError)
        ensures
            r.0 == 400,
            r.1@ == message@,
    {
        WebServerError(400, message)
    }
}

/// An event pushed to every WebSocket client.
#[derive(Debug, Clone)]
pub enum WebSocketNotification {
    ScrcpyDeviceList { scids: Vec<String> },
    ScrcpyDeviceConnection { scid: String, main: bool, connected: bool },
    ScrcpyDeviceRotation { rotation: u16, width: u32, height: u32, scid: String },
}

/// Whether a byte may appear in a mapping-file name. The path separators,
/// the NUL byte and the characters `< > : " | ? *` are refused.
pub open spec fn spec_safe_name_byte(b: u8) -> bool {
    b != 0x2F  // '/'
    && b != 0x5C  // backslash
    && b != 0x00 && b != 0x3C  // '<'
    && b != 0x3E  // '>'
    && b != 0x3A  // ':'
    && b != 0x22  // '"'
    && b != 0x7C  // '|'
    && b != 0x3F  // '?'
    && b != 0x2A  // '*'

}

/// Whether a name is safe to use as a mapping-file name: non-empty, not the
/// bare current-directory name, free of the refused bytes, and free of any
/// two consecutive dots.
pub open spec fn spec_is_safe_file_name(b: Seq<u8>) -> bool {
    &&& b.len() > 0
    &&& b != seq![0x2Eu8]
    &&& forall|i: int| 0 <= i < b.len() ==> spec_safe_name_byte(#[trigger] b[i])
    &&& forall|i: int| 0 <= i < b.len() - 1 ==> !(#[trigger] b[i] == 0x2E && b[i + 1] == 0x2E)
}

/// Checks that a file name is safe to open under the mapping directory.
pub fn is_safe_file_name(name: &str) -> (r: bool)
    ensures
        r == spec_is_safe_file_name(name.spec_bytes()),
{
    let bytes = name.as_bytes();
    let n = bytes.len();
    if n == 0 {
        return false;
    }
    if n == 1 && *vstd::slice::slice_index_get(bytes, 0) == 0x2E {
        proof {
            assert(name.spec_bytes() =~= seq![0x2Eu8]);
        }
        return false;
    }
    proof {
        if name.spec_bytes() == seq![0x2Eu8] {
            assert(name.spec_bytes().len() == 1);
        }
    }
    let mut i: usize = 0;
    while i < n
        invariant
            0 <= i <= n,
            n == name.spec_bytes().len(),
            bytes@ == name.spec_bytes(),
            forall|k: int| 0 <= k < i ==> spec_safe_name_byte(#[trigger] bytes@[k]),
            forall|k: int|
                0 <= k < i - 1 ==> !(#[trigger] bytes@[k] == 0x2E && bytes@[k + 1] == 0x2E),
        decreases n - i,
    {
        let b = *vstd::slice::slice_index_get(bytes, i);
        if b == 0x2F || b == 0x5C || b == 0x00 || b == 0x3C || b == 0x3E || b == 0x3A || b == 0x22
            || b == 0x7C || b == 0x3F || b == 0x2A {
            return false;
        }
        if i > 0 {
            let prev = *vstd::slice::slice_index_get(bytes, i - 1);
            if prev == 0x2E && b == 0x2E {
                return false;
            }
        }
        i = i + 1;
    }
    true
}

} // verus!
