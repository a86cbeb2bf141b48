//! The route table: which handler answers a request line.

use crate::text::{has_prefix, skip_chars, starts_with, str_eq};
use vstd::prelude::*;
use vstd::string::StrSliceExecFns;

verus! {

/// The handler that answers a request.
#[derive(Clone, Copy, Debug, PartialEq, Eq, Structural)]
pub enum Route {
    /// The redirect callback: `/oauth/callback` or the launcher's alias.
    Callback,
    /// The explicit close request: `/close`.
    Close,
    /// A static file below `/assets/`.
    Asset,
    /// A known path asked for with a method that it does not serve.
    MethodNotAllowed,
    /// Anything else.
    NotFound,
}

/// Whether `method` is served by the routes: `GET`, and `HEAD`, which is
/// answered as a `GET` whose body the server leaves out.
pub open spec fn is_read_method(method: Seq<char>) -> bool {
    method == "GET"@ || method == "HEAD"@
}

/// Whether `path` is the callback route or its launcher alias.
pub open spec fn is_callback_path(path: Seq<char>) -> bool {
    path == "/oauth/callback"@ || path == "/pclce_oauth"@
}

/// Whether `path` is the close route.
pub open spec fn is_close_path(path: Seq<char>) -> bool {
    path == "/close"@
}

/// Whether `path` names a file below the asset prefix. The prefix alone
/// names none.
pub open spec fn is_asset_path(path: Seq<char>) -> bool {
    has_prefix(path, "/assets/"@) && path.len() > "/assets/"@.len()
}

/// The part of an asset path that is resolved against the asset root.
pub open spec fn asset_relative(path: Seq<char>) -> Seq<char> {
    path.skip("/assets/"@.len() as int)
}

/// The route of a request line. Paths outside the table are not found
/// whatever the method; a path of the table answers reads only.
pub open spec fn route_for(method: Seq<char>, path: Seq<char>) -> Route {
    if is_callback_path(path) {
        if is_read_method(method) {
            Route::Callback
        } else {
            Route::MethodNotAllowed
        }
    } else if is_close_path(path) {
        if is_read_method(method) {
            Route::Close
        } else {
            Route::MethodNotAllowed
        }
    } else if is_asset_path(path) {
        if is_read_method(method) {
            Route::Asset
        } else {
            Route::MethodNotAllowed
        }
    } else {
        Route::NotFound
    }
}

/// The part of `path` below the asset prefix, or `None` where `path` is no
/// asset path.
pub fn asset_relative_path(path: &str) -> (relative: Option<String>)
    ensures
        match relative {
            Some(rest) => is_asset_path(path@) && rest@ == asset_relative(path@),
            None => !is_asset_path(path@),
        },
{
    let prefix = "/assets/";
    if !starts_with(path, prefix) {
        return None;
    }
    let skipped = prefix.unicode_len();
    if path.unicode_len() <= skipped {
        return None;
    }
    Some(skip_chars(path, skipped))
}

/// Finds the route of a request line.
pub fn resolve_route(method: &str, path: &str) -> (route: Route)
    ensures
        route == route_for(method@, path@),
{
    let known = if str_eq(path, "/oauth/callback") || str_eq(path, "/pclce_oauth") {
        Route::Callback
    } else if str_eq(path, "/close") {
        Route::Close
    } else if asset_relative_path(path).is_some() {
        Route::Asset
    } else {
        return Route::NotFound;
    };
    if str_eq(method, "GET") || str_eq(method, "HEAD") {
        known
    } else {
        Route::MethodNotAllowed
    }
}

} // verus!
