use vstd::prelude::*;
use vstd::string::StringSliceAdditionalSpecFns;

use crate::error::AppError;

verus! {

/// The shared secret that the `Authorization` header of an admin request
/// must carry.
pub const ADMIN_SECRET_KEY: &'static str = "im-the-admin";

/// A request made by the administrator.
pub struct Admin;

/// A header byte that `http::HeaderValue::to_str` accepts: visible ASCII
/// or a horizontal tab.
pub open spec fn is_visible_ascii(b: u8) -> bool {
    (32 <= b && b < 127) || b == 9
}

/// The header's bytes read as text and compared with the secret: text is
/// only made of visible ASCII bytes, and it must be exactly the secret.
pub open spec fn grants_admin(header: Seq<u8>) -> bool {
    &&& forall|i: int| 0 <= i < header.len() ==> is_visible_ascii(#[trigger] header[i])
    &&& header == ADMIN_SECRET_KEY.spec_bytes()
}

/// Whether every byte is visible ASCII (as `HeaderValue::to_str` checks).
fn all_visible_ascii(bytes: &[u8]) -> (r: bool)
    ensures
        r == forall|i: int| 0 <= i < bytes@.len() ==> is_visible_ascii(#[trigger] bytes@[i]),
{
    let n = bytes.len();
    for i in 0..n
        invariant
            n == bytes@.len(),
            forall|j: int| 0 <= j < i ==> is_visible_ascii(#[trigger] bytes@[j]),
    {
        let b = bytes[i];
        if !((32 <= b && b < 127) || b == 9) {
            return false;
        }
    }
    true
}

/// Whether two byte strings are equal.
fn same_bytes(a: &[u8], b: &[u8]) -> (r: bool)
    ensures
        r == (a@ == b@),
{
    if a.len() != b.len() {
        return false;
    }
    let n = a.len();
    for i in 0..n
        invariant
            n == a@.len(),
            n == b@.len(),
            forall|j: int| 0 <= j < i ==> a@[j] == b@[j],
    {
        if a[i] != b[i] {
            return false;
        }
    }
    assert(a@ =~= b@);
    true
}

impl Admin {
    /// Admits a request as the administrator's by its `Authorization`
    /// header (the header's bytes, if it has one): a missing header and a
    /// header that is not the secret are refused differently.
    pub fn authorize(header: Option<&[u8]>) -> (r: Result<Admin, AppError>)
        ensures
            header is None ==> r == Err::<Admin, AppError>(AppError::MissingAuthorization),
            header matches Some(h) ==> (r is Ok <==> grants_admin(h@)),
            header matches Some(h) ==> (!grants_admin(h@) ==> r == Err::<Admin, AppError>(
                AppError::InvalidCredentials,
            )),
    {
        let auth = match header {
            Some(auth) => auth,
            None => return Err(AppError::MissingAuthorization),
        };
        if !all_visible_ascii(auth) {
            return Err(AppError::InvalidCredentials);
        }
        if same_bytes(auth, ADMIN_SECRET_KEY.as_bytes()) {
            Ok(Admin)
        } else {
            Err(AppError::InvalidCredentials)
        }
    }
}

} // verus!
