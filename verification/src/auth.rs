use crate::response::{ApiError, Status};
use vstd::prelude::*;
use vstd::string::StringSliceAdditionalSpecFns;

verus! {

/// A byte that a header value may hold for it to read as text: visible
/// ASCII or a tab.
pub open spec fn is_visible_ascii(b: u8) -> bool {
    (32 <= b && b < 127) || b == 9
}

/// A header value that reads as text: every byte is visible ASCII.
pub open spec fn is_header_text(bytes: Seq<u8>) -> bool {
    forall|i: int| 0 <= i < bytes.len() ==> is_visible_ascii(#[trigger] bytes[i])
}

/// The text of the `x-api-key` header, as bytes: none when the header is
/// absent or does not read as text.
pub open spec fn header_text(header: Option<Seq<u8>>) -> Option<Seq<u8>> {
    match header {
        Some(b) => if is_header_text(b) {
            Some(b)
        } else {
            None
        },
        None => None,
    }
}

/// The key a request presents to the handlers: the header's text, or the
/// empty text when there is none.
pub open spec fn presented_key(header: Option<Seq<u8>>) -> Seq<u8> {
    match header_text(header) {
        Some(b) => b,
        None => Seq::empty(),
    }
}

/// The request passes the route guard for the master key: its header reads
/// as text and that text is the key.
pub open spec fn admitted_by_master_key(header: Option<Seq<u8>>, master: Seq<u8>) -> bool {
    header_text(header) == Some(master)
}

/// The request is authorized by the configured key: the presented key is
/// not empty and is the configured key.
pub open spec fn authorized_by(header: Option<Seq<u8>>, key: Seq<u8>) -> bool {
    presented_key(header).len() > 0 && presented_key(header) == key
}

/// The route guard and the handlers' check agree for a non-empty key: a
/// request passes one exactly when it passes the other. They differ only
/// for the empty key, which the guard accepts from an empty header and the
/// handlers never accept.
pub proof fn guard_and_check_agree(header: Option<Seq<u8>>, key: Seq<u8>)
    ensures
        key.len() > 0 ==> (admitted_by_master_key(header, key) <==> authorized_by(header, key)),
        !authorized_by(header, Seq::empty()),
{
}

/// A header reads as text exactly when each of its bytes is a tab or
/// lies between the space (32) and the tilde (126), letters of either case
/// included; the route guard then admits exactly the header whose bytes are
/// the key's.
pub proof fn header_text_is_visible_ascii(bytes: Seq<u8>, key: Seq<u8>)
    ensures
        (forall|i: int| 0 <= i < bytes.len() ==> 32 <= #[trigger] bytes[i] <= 126 || bytes[i] == 9)
            ==> header_text(Some(bytes)) == Some(bytes),
        (exists|i: int| 0 <= i < bytes.len() && !(32 <= #[trigger] bytes[i] <= 126 || bytes[i] == 9))
            ==> header_text(Some(bytes)) is None,
        header_text(None) is None,
        admitted_by_master_key(Some(bytes), key) <==> (bytes == key && forall|i: int|
            0 <= i < bytes.len() ==> 32 <= #[trigger] bytes[i] <= 126 || bytes[i] == 9),
{
}

pub open spec fn opt_bytes(header: Option<&[u8]>) -> Option<Seq<u8>> {
    match header {
        Some(b) => Some(b@),
        None => None,
    }
}

pub open spec fn missing_key_text() -> Seq<char> {
    "Server configuration error: DISCOVERY_API_KEY not set."@
}

pub open spec fn unauthorized_text() -> Seq<char> {
    "Unauthorized"@
}

fn is_text(bytes: &[u8]) -> (r: bool)
    ensures
        r == is_header_text(bytes@),
{
    let mut i: usize = 0;
    while i < bytes.len()
        invariant
            i <= bytes@.len(),
            forall|j: int| 0 <= j < i ==> is_visible_ascii(#[trigger] bytes@[j]),
        decreases bytes@.len() - i,
    {
        let b = bytes[i];
        if !((32 <= b && b < 127) || b == 9) {
            return false;
        }
        i = i + 1;
    }
    true
}

pub fn bytes_equal(a: &[u8], b: &[u8]) -> (r: bool)
    ensures
        r == (a@ == b@),
{
    if a.len() != b.len() {
        return false;
    }
    let mut i: usize = 0;
    while i < a.len()
        invariant
            i <= a@.len(),
            a@.len() == b@.len(),
            forall|j: int| 0 <= j < i ==> a@[j] == b@[j],
        decreases a@.len() - i,
    {
        if a[i] != b[i] {
            return false;
        }
        i = i + 1;
    }
    assert(a@ =~= b@);
    true
}

/// The text of the header, when it reads as text.
pub fn header_value_text(header: Option<&[u8]>) -> (r: Option<&[u8]>)
    ensures
        opt_bytes(r) == header_text(opt_bytes(header)),
{
    match header {
        Some(b) => if is_text(b) {
            Some(b)
        } else {
            None
        },
        None => None,
    }
}

/// The route guard of the authenticated endpoints: a request passes when
/// its `x-api-key` header reads as text equal to the master key, and is
/// refused as unauthorized otherwise.
pub fn api_key_auth(header: Option<&[u8]>, master_key: &str) -> (r: Result<(), Status>)
    ensures
        r is Ok <==> admitted_by_master_key(opt_bytes(header), master_key.spec_bytes()),
        r is Err ==> r == Err::<(), Status>(Status::Unauthorized),
{
    let master = master_key.as_bytes();
    match header_value_text(header) {
        Some(text) => if bytes_equal(text, master) {
            Ok(())
        } else {
            Err(Status::Unauthorized)
        },
        None => Err(Status::Unauthorized),
    }
}

/// The key check that the mutating endpoints make against the configured
/// key: no configured key is a server configuration error; a missing,
/// empty or different presented key is unauthorized.
pub fn authorize_request(configured_key: Option<&str>, header: Option<&[u8]>) -> (r: Result<(), ApiError>)
    ensures
        (match configured_key {
            None => r matches Err(e) && e.status == Status::InternalServerError && e.message@ == missing_key_text(),
            Some(k) => if authorized_by(opt_bytes(header), k.spec_bytes()) {
                r is Ok
            } else {
                r matches Err(e) && e.status == Status::Unauthorized && e.message@ == unauthorized_text()
            },
        }),
{
    match configured_key {
        None => Err(ApiError {
            status: Status::InternalServerError,
            message: String::from_str("Server configuration error: DISCOVERY_API_KEY not set."),
        }),
        Some(k) => {
            let expected = k.as_bytes();
            let accepted = match header_value_text(header) {
                Some(text) => text.len() > 0 && bytes_equal(text, expected),
                None => false,
            };
            if accepted {
                Ok(())
            } else {
                Err(ApiError { status: Status::Unauthorized, message: String::from_str("Unauthorized") })
            }
        },
    }
}

} // verus!
