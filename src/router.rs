use vstd::prelude::*;

use crate::token::tokens_match;

verus! {

/// The request methods that the service tells apart.
#[derive(Clone, Copy, Debug, PartialEq, Eq, Structural)]
pub enum Method {
    Get,
    Head,
    Put,
    Other,
}

/// What a request asks for, once its method and path have been read.
#[derive(Clone, Copy, Debug, PartialEq, Eq, Structural)]
pub enum Route {
    /// The index page.
    Index,
    /// The status document.
    StatusJson,
    /// The flag as plain text.
    StatusText,
    /// The image that shows the flag.
    StatusPng,
    /// An authorized change: `true` opens, `false` closes.
    SetStatus(bool),
    /// A change with a token that is not the configured one.
    Forbidden,
    /// A change with the right token and an action that is neither `0` nor `1`.
    UnknownAction,
    /// Nothing is served at this method and path.
    NotFound,
}

/// The version segment that prefixes every status path.
pub const VERSION: &'static str = "v1";
/// Segment of the status paths.
pub const STATUS: &'static str = "status";
/// Segment of the status document.
pub const STATUS_JSON: &'static str = "status.json";
/// Segment of the status image.
pub const STATUS_PNG: &'static str = "status.png";
/// Action segment that opens the space.
pub const OPEN_DIGIT: &'static str = "1";
/// Action segment that closes the space.
pub const CLOSE_DIGIT: &'static str = "0";

/// The path segments of a request as character sequences.
pub open spec fn segments(path: Seq<String>) -> Seq<Seq<char>> {
    path.map_values(|s: String| s@)
}

pub open spec fn is_read(m: Method) -> bool {
    m == Method::Get || m == Method::Head
}

/// The root path: one empty segment or the version alone, or the version
/// followed by an empty segment.
pub open spec fn is_root(p: Seq<Seq<char>>) -> bool {
    (p.len() == 1 && (p[0] == ""@ || p[0] == VERSION@))
        || (p.len() == 2 && p[0] == VERSION@ && p[1] == ""@)
}

/// Four segments under the status path: version, `status`, token, action.
pub open spec fn is_change_path(p: Seq<Seq<char>>) -> bool {
    p.len() == 4 && p[0] == VERSION@ && p[1] == STATUS@
}

/// The route of a request for `m` on the segments `p`, given the configured
/// `token`. Segments match exactly and by position.
pub open spec fn route_of(m: Method, p: Seq<Seq<char>>, token: Seq<char>) -> Route {
    if is_read(m) && is_root(p) {
        Route::Index
    } else if is_read(m) && p.len() == 2 && p[0] == VERSION@ {
        if p[1] == STATUS_JSON@ {
            Route::StatusJson
        } else if p[1] == STATUS@ {
            Route::StatusText
        } else if p[1] == STATUS_PNG@ {
            Route::StatusPng
        } else {
            Route::NotFound
        }
    } else if m == Method::Put && is_change_path(p) {
        if p[2] != token {
            Route::Forbidden
        } else if p[3] == OPEN_DIGIT@ {
            Route::SetStatus(true)
        } else if p[3] == CLOSE_DIGIT@ {
            Route::SetStatus(false)
        } else {
            Route::UnknownAction
        }
    } else {
        Route::NotFound
    }
}

/// Whether the segment `s` is exactly the word `w`.
fn is_word(s: &String, w: &str) -> (r: bool)
    ensures
        r == (s@ == w@),
{
    let owned = w.to_owned();
    *s == owned
}

/// Reads method and path segments into a route; the token segment of a
/// change is compared with `token` before its action segment is read.
pub fn route(method: Method, path: &Vec<String>, token: &String) -> (r: Route)
    ensures
        r == route_of(method, segments(path@), token@),
{
    let ghost p = segments(path@);
    assert(p.len() == path@.len());
    assert(forall|i: int| 0 <= i < p.len() ==> p[i] == (#[trigger] path@[i])@);
    let read = method == Method::Get || method == Method::Head;
    let n = path.len();
    if read && n == 1 && (is_word(&path[0], "") || is_word(&path[0], VERSION)) {
        return Route::Index;
    }
    if read && n == 2 && is_word(&path[0], VERSION) && is_word(&path[1], "") {
        return Route::Index;
    }
    if read && n == 2 && is_word(&path[0], VERSION) {
        if is_word(&path[1], STATUS_JSON) {
            Route::StatusJson
        } else if is_word(&path[1], STATUS) {
            Route::StatusText
        } else if is_word(&path[1], STATUS_PNG) {
            Route::StatusPng
        } else {
            Route::NotFound
        }
    } else if method == Method::Put && n == 4 && is_word(&path[0], VERSION) && is_word(
        &path[1],
        STATUS,
    ) {
        if !tokens_match(&path[2], token) {
            Route::Forbidden
        } else if is_word(&path[3], OPEN_DIGIT) {
            Route::SetStatus(true)
        } else if is_word(&path[3], CLOSE_DIGIT) {
            Route::SetStatus(false)
        } else {
            Route::UnknownAction
        }
    } else {
        Route::NotFound
    }
}

/// A request that is not one of the defined routes (a read of the root,
/// of the status document, of the plain status or of the image, or a change
/// of four segments under the status path) is not found, whatever its method.
pub proof fn lemma_unmatched_not_found(m: Method, p: Seq<Seq<char>>, token: Seq<char>)
    requires
        !(is_read(m) && is_root(p)),
        !(is_read(m) && p.len() == 2 && p[0] == VERSION@ && (p[1] == STATUS_JSON@ || p[1]
            == STATUS@ || p[1] == STATUS_PNG@)),
        !(m == Method::Put && p.len() == 4 && p[0] == VERSION@ && p[1] == STATUS@),
    ensures
        route_of(m, p, token) == Route::NotFound,
{
}

/// A change with other than four segments is not found, whatever the token.
pub proof fn lemma_change_needs_four_segments(p: Seq<Seq<char>>, token: Seq<char>)
    requires
        p.len() != 4,
    ensures
        route_of(Method::Put, p, token) == Route::NotFound,
{
}

} // verus!
