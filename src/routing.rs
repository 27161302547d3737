use vstd::prelude::*;
use crate::text::{has_prefix, same_text};

verus! {

/// The operation that a request asks for.
#[derive(Clone, Copy, Debug, PartialEq, Eq, Structural)]
pub enum Route {
    BeginRegistration,
    ConfirmRegistration,
    RequestBundle,
    Unknown,
}

/// Which operation a method and path select: all three are `POST`; a bundle request names its
/// target after `/bundle/`.
pub open spec fn route_of(method: Seq<char>, path: Seq<char>) -> Route {
    if method != "POST"@ {
        Route::Unknown
    } else if path == "/register/phone"@ {
        Route::BeginRegistration
    } else if path == "/register/otp"@ {
        Route::ConfirmRegistration
    } else if "/bundle/"@.len() <= path.len() && path.subrange(0, "/bundle/"@.len() as int)
        == "/bundle/"@ {
        Route::RequestBundle
    } else {
        Route::Unknown
    }
}

/// Selects the operation for a request's method and path.
pub fn route(method: &str, path: &str) -> (r: Route)
    ensures
        r == route_of(method@, path@),
{
    if !same_text(method, "POST") {
        Route::Unknown
    } else if same_text(path, "/register/phone") {
        Route::BeginRegistration
    } else if same_text(path, "/register/otp") {
        Route::ConfirmRegistration
    } else if has_prefix(path, "/bundle/") {
        Route::RequestBundle
    } else {
        Route::Unknown
    }
}

} // verus!
