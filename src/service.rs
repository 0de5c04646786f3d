use vstd::prelude::*;
use vstd::rwlock::RwLock;

use crate::clock::{now, Timestamp};
use crate::response::{
    index, index_view, json_view, status_document, not_found, path_text, png_view, status_json, status_line,
    status_png, status_text, text, text_view, occurs_at, contains, lemma_document_names_one_flag, lemma_document_shows_flag, DOC_HEAD, DOC_TAIL, OPEN_KEY, Reply, ReplyView, FORBIDDEN, NOT_FOUND, OK,
};
use crate::router::{
    is_change_path, route, route_of, segments, Method, Route, CLOSE_DIGIT, OPEN_DIGIT, STATUS, STATUS_JSON, VERSION,
};
use crate::status::{apply, Snapshot, SpaceApi, SpaceStatus, Transition};

verus! {

/// Reply body of a change that opened the space.
pub const OPENED: &'static str = "open";
/// Reply body of a change that closed the space.
pub const CLOSED: &'static str = "closed";
/// Reply body of a change with a wrong token.
pub const WRONG_TOKEN: &'static str = "Wrong Token";
/// Reply body of an authorized change whose action is unknown.
pub const NO_ACTION: &'static str = "Not Found";

/// The reply to a request on `route` at the path `p`, where `s` is the
/// state it saw (after its own change, if it made one) and the two images
/// are the configured ones.
pub open spec fn reply_of(
    route: Route,
    s: Snapshot,
    open_image: Seq<char>,
    closed_image: Seq<char>,
    p: Seq<Seq<char>>,
) -> ReplyView {
    match route {
        Route::Index => index_view(),
        Route::StatusJson => json_view(s),
        Route::StatusText => text_view(OK, status_line(s.is_open)),
        Route::StatusPng => png_view(s, open_image, closed_image),
        Route::SetStatus(b) => text_view(OK, if b { OPENED@ } else { CLOSED@ }),
        Route::Forbidden => text_view(FORBIDDEN, WRONG_TOKEN@),
        Route::UnknownAction => text_view(NOT_FOUND, NO_ACTION@),
        Route::NotFound => text_view(NOT_FOUND, "Not found "@ + path_text(p)),
    }
}

/// The state after a request on `route` made at `at`: only an authorized
/// change moves it.
pub open spec fn next_state(s: Snapshot, route: Route, at: Timestamp) -> Snapshot {
    match route {
        Route::SetStatus(true) => apply(s, Transition::Open(at)),
        Route::SetStatus(false) => apply(s, Transition::Close(at)),
        _ => s,
    }
}

/// Whether a route reads the shared state.
pub open spec fn reads_state(route: Route) -> bool {
    route == Route::StatusJson || route == Route::StatusText || route == Route::StatusPng
}

/// The reply to a route that needs no state.
fn fixed_reply(route: Route, path: &Vec<String>) -> (r: Reply)
    requires
        route == Route::Index || route == Route::Forbidden || route == Route::UnknownAction
            || route == Route::NotFound,
    ensures
        forall|s: Snapshot, o: Seq<char>, c: Seq<char>|
            r@ == #[trigger] reply_of(route, s, o, c, segments(path@)),
{
    match route {
        Route::Index => index(),
        Route::Forbidden => text(FORBIDDEN, WRONG_TOKEN),
        Route::UnknownAction => text(NOT_FOUND, NO_ACTION),
        _ => not_found(path),
    }
}

/// The reply to a route that reads the state `status`.
fn state_reply(route: Route, status: &SpaceStatus) -> (r: Reply)
    requires
        reads_state(route),
    ensures
        forall|p: Seq<Seq<char>>|
            r@ == #[trigger] reply_of(
                route,
                status.snapshot_of(),
                status.open@,
                status.close@,
                p,
            ),
{
    match route {
        Route::StatusJson => status_json(status),
        Route::StatusText => status_text(status.status),
        _ => status_png(status),
    }
}

/// Serves a change request on the segments `path`: it must be the status
/// path with `token` as its third segment and `1` (open) or `0` (close) as
/// its fourth. The token is compared before the action is read, and only an
/// authorized change with a known action touches the state, as of `at`.
pub fn write_status(status: &mut SpaceStatus, path: &Vec<String>, token: &String, at: Timestamp) -> (r:
    Reply)
    ensures
        final(status).open == old(status).open,
        final(status).close == old(status).close,
        !is_change_path(segments(path@)) ==> {
            &&& r@ == text_view(NOT_FOUND, "Not found "@ + path_text(segments(path@)))
            &&& final(status).snapshot_of() == old(status).snapshot_of()
        },
        is_change_path(segments(path@)) && segments(path@)[2] != token@ ==> {
            &&& r@ == text_view(FORBIDDEN, WRONG_TOKEN@)
            &&& final(status).snapshot_of() == old(status).snapshot_of()
        },
        is_change_path(segments(path@)) && segments(path@)[2] == token@ && segments(path@)[3]
            == OPEN_DIGIT@ ==> {
            &&& r@ == text_view(OK, OPENED@)
            &&& final(status).snapshot_of() == apply(old(status).snapshot_of(), Transition::Open(at))
        },
        is_change_path(segments(path@)) && segments(path@)[2] == token@ && segments(path@)[3]
            == CLOSE_DIGIT@ ==> {
            &&& r@ == text_view(OK, CLOSED@)
            &&& final(status).snapshot_of() == apply(
                old(status).snapshot_of(),
                Transition::Close(at),
            )
        },
        is_change_path(segments(path@)) && segments(path@)[2] == token@ && segments(path@)[3]
            != OPEN_DIGIT@ && segments(path@)[3] != CLOSE_DIGIT@ ==> {
            &&& r@ == text_view(NOT_FOUND, NO_ACTION@)
            &&& final(status).snapshot_of() == old(status).snapshot_of()
        },
{
    let rt = route(Method::Put, path, token);
    proof {
        reveal_strlit("0");
        reveal_strlit("1");
        assert(CLOSE_DIGIT@[0] != OPEN_DIGIT@[0]);
    }
    match rt {
        Route::SetStatus(true) => {
            status.open_at(at);
            text(OK, OPENED)
        },
        Route::SetStatus(false) => {
            status.close_at(at);
            text(OK, CLOSED)
        },
        Route::Forbidden => text(FORBIDDEN, WRONG_TOKEN),
        Route::UnknownAction => text(NOT_FOUND, NO_ACTION),
        _ => not_found(path),
    }
}

impl SpaceApi {
    /// Serves one request for `method` on the segments `path`, with
    /// `token` as the configured secret and `at` as the time of a change.
    /// The token is checked before any change, and a request that is not
    /// an authorized change leaves the state as it was.
    pub fn handle(&mut self, method: Method, path: &Vec<String>, token: &String, at: Timestamp) -> (r:
        Reply)
        ensures
            final(self).status.snapshot_of() == next_state(
                old(self).status.snapshot_of(),
                route_of(method, segments(path@), token@),
                at,
            ),
            final(self).status.open == old(self).status.open,
            final(self).status.close == old(self).status.close,
            r@ == reply_of(
                route_of(method, segments(path@), token@),
                final(self).status.snapshot_of(),
                final(self).status.open@,
                final(self).status.close@,
                segments(path@),
            ),
    {
        let rt = route(method, path, token);
        match rt {
            Route::SetStatus(_) | Route::Forbidden | Route::UnknownAction => write_status(
                &mut self.status,
                path,
                token,
                at,
            ),
            Route::StatusJson | Route::StatusText | Route::StatusPng => state_reply(
                rt,
                &self.status,
            ),
            _ => fixed_reply(rt, path),
        }
    }
}

/// What the lock of a store keeps true of the record it guards: the image
/// paths are the configured ones and the time of change is well formed.
pub open spec fn guarded(a: SpaceApi, open_image: Seq<char>, closed_image: Seq<char>) -> bool {
    a.status.open@ == open_image && a.status.close@ == closed_image && a.status.modified.wf()
}

/// The shared status record behind one lock, used by every request at once.
/// Each read copies flag and time under the lock, and each change sets both
/// under it, so no reader sees one without the other.
pub struct StatusStore {
    lock: RwLock<SpaceApi, spec_fn(SpaceApi) -> bool>,
    open_image: Ghost<Seq<char>>,
    closed_image: Ghost<Seq<char>>,
}

impl StatusStore {
    /// The path of the image shown while open.
    pub closed spec fn open_image(&self) -> Seq<char> {
        self.open_image@
    }

    /// The path of the image shown while closed.
    pub closed spec fn closed_image(&self) -> Seq<char> {
        self.closed_image@
    }

    /// The lock guards exactly the records that keep the configured images.
    pub closed spec fn wf(&self) -> bool {
        forall|a: SpaceApi|
            #[trigger] self.lock.inv(a) <==> guarded(a, self.open_image@, self.closed_image@)
    }

    /// A store that starts from `api`.
    pub fn new(api: SpaceApi) -> (r: StatusStore)
        requires
            api.status.modified.wf(),
        ensures
            r.wf(),
            r.open_image() == api.status.open@,
            r.closed_image() == api.status.close@,
    {
        let ghost o = api.status.open@;
        let ghost c = api.status.close@;
        let ghost pred = |a: SpaceApi| guarded(a, o, c);
        let lock = RwLock::new(api, Ghost(pred));
        StatusStore { lock, open_image: Ghost(o), closed_image: Ghost(c) }
    }

    /// Copies the flag and the time of its last change, both under the lock.
    pub fn read(&self) -> (r: Snapshot)
        requires
            self.wf(),
        ensures
            r.modified.wf(),
    {
        let (api, handle) = self.lock.acquire_write();
        let snap = api.status.snapshot();
        handle.release_write(api);
        snap
    }

    /// Marks the space open as of the current time, under the lock.
    pub fn open(&self)
        requires
            self.wf(),
    {
        let (mut api, handle) = self.lock.acquire_write();
        api.status.open();
        handle.release_write(api);
    }

    /// Marks the space closed as of the current time, under the lock.
    pub fn close(&self)
        requires
            self.wf(),
    {
        let (mut api, handle) = self.lock.acquire_write();
        api.status.close();
        handle.release_write(api);
    }

    /// Serves one request for `method` on the segments `path`, with `token`
    /// as the configured secret. The lock is taken only by requests that
    /// read or change the state; a change reads the clock under it. The
    /// reply is the one for the state that the request saw.
    pub fn handle(&self, method: Method, path: &Vec<String>, token: &String) -> (r: Reply)
        requires
            self.wf(),
        ensures
            exists|s: Snapshot|
                s.modified.wf() && r@ == #[trigger] reply_of(
                    route_of(method, segments(path@), token@),
                    s,
                    self.open_image(),
                    self.closed_image(),
                    segments(path@),
                ),
    {
        let rt = route(method, path, token);
        match rt {
            Route::SetStatus(open) => {
                let (mut api, handle) = self.lock.acquire_write();
                let at = now();
                let r = write_status(&mut api.status, path, token, at);
                let ghost s = api.status.snapshot_of();
                handle.release_write(api);
                assert(r@ == reply_of(rt, s, self.open_image(), self.closed_image(), segments(path@)));
                r
            },
            Route::StatusJson | Route::StatusText | Route::StatusPng => {
                let (api, handle) = self.lock.acquire_write();
                let r = state_reply(rt, &api.status);
                let ghost s = api.status.snapshot_of();
                assert(r@ == reply_of(rt, s, api.status.open@, api.status.close@, segments(path@)));
                handle.release_write(api);
                r
            },
            _ => {
                let r = fixed_reply(rt, path);
                let ghost s = Snapshot { is_open: false, modified: Timestamp { sec: 0, nsec: 0 } };
                assert(r@ == reply_of(rt, s, self.open_image(), self.closed_image(), segments(path@)));
                r
            },
        }
    }
}

/// A change whose token is wrong is refused with 403 whatever its action
/// segment, leaves the state as it was, and gets the same reply whatever
/// that state was.
pub proof fn lemma_wrong_token_changes_nothing(
    p: Seq<Seq<char>>,
    token: Seq<char>,
    s: Snapshot,
    at: Timestamp,
    open_image: Seq<char>,
    closed_image: Seq<char>,
)
    requires
        p.len() == 4,
        p[0] == VERSION@,
        p[1] == STATUS@,
        p[2] != token,
    ensures
        route_of(Method::Put, p, token) == Route::Forbidden,
        next_state(s, route_of(Method::Put, p, token), at) == s,
        reply_of(route_of(Method::Put, p, token), s, open_image, closed_image, p) == text_view(
            FORBIDDEN,
            WRONG_TOKEN@,
        ),
{
}

/// The four segments of a change with `token` and the action `digit`.
pub open spec fn change_path(token: Seq<char>, digit: Seq<char>) -> Seq<Seq<char>> {
    seq![VERSION@, STATUS@, token, digit]
}

/// The two segments of a read of `name`.
pub open spec fn read_path(name: Seq<char>) -> Seq<Seq<char>> {
    seq![VERSION@, name]
}

/// After an authorized change with action `1` the plain-text status reads
/// `Status true`, and after one with action `0` it reads `Status false`.
pub proof fn lemma_change_then_status_text(
    token: Seq<char>,
    s: Snapshot,
    at: Timestamp,
    open_image: Seq<char>,
    closed_image: Seq<char>,
)
    ensures
        ({
            let after = next_state(s, route_of(Method::Put, change_path(token, OPEN_DIGIT@), token), at);
            reply_of(route_of(Method::Get, read_path(STATUS@), token), after, open_image, closed_image, read_path(STATUS@))
                == text_view(OK, "Status true"@)
        }),
        ({
            let after = next_state(s, route_of(Method::Put, change_path(token, CLOSE_DIGIT@), token), at);
            reply_of(route_of(Method::Get, read_path(STATUS@), token), after, open_image, closed_image, read_path(STATUS@))
                == text_view(OK, "Status false"@)
        }),
{
    reveal_strlit("v1");
    reveal_strlit("status");
    reveal_strlit("status.json");
    reveal_strlit("status.png");
    reveal_strlit("");
    reveal_strlit("1");
    reveal_strlit("0");
    reveal_strlit("Status ");
    reveal_strlit("true");
    reveal_strlit("false");
    reveal_strlit("Status true");
    reveal_strlit("Status false");
    assert(read_path(STATUS@)[1] != STATUS_JSON@);
    assert(CLOSE_DIGIT@[0] != OPEN_DIGIT@[0]);
    assert(change_path(token, CLOSE_DIGIT@)[3] != OPEN_DIGIT@);
    assert(("Status "@ + "true"@) =~= "Status true"@);
    assert(("Status "@ + "false"@) =~= "Status false"@);
}

/// The status document served after opening shows `"open": true` at both
/// open-state fields and never says `false`; after closing it shows
/// `"open": false` at both and never says `true`.
pub proof fn lemma_document_follows_flag(s: Snapshot, at: Timestamp, open_image: Seq<char>, closed_image: Seq<char>, p: Seq<Seq<char>>)
    ensures
        reply_of(Route::StatusJson, apply(s, Transition::Open(at)), open_image, closed_image, p).body
            == crate::response::BodyView::Text(status_document(true)),
        reply_of(Route::StatusJson, apply(s, Transition::Close(at)), open_image, closed_image, p).body
            == crate::response::BodyView::Text(status_document(false)),
        occurs_at(status_document(true), OPEN_KEY@ + "true"@, DOC_HEAD@.len() as int),
        occurs_at(
            status_document(true),
            OPEN_KEY@ + "true"@,
            status_document(true).len() - DOC_TAIL@.len() - 4 - OPEN_KEY@.len(),
        ),
        occurs_at(status_document(false), OPEN_KEY@ + "false"@, DOC_HEAD@.len() as int),
        occurs_at(
            status_document(false),
            OPEN_KEY@ + "false"@,
            status_document(false).len() - DOC_TAIL@.len() - 5 - OPEN_KEY@.len(),
        ),
        !contains(status_document(true), "false"@),
        !contains(status_document(false), "true"@),
{
    lemma_document_names_one_flag();
    reveal_strlit("true");
    reveal_strlit("false");
    lemma_document_shows_flag(true);
    lemma_document_shows_flag(false);
}

/// The image served after opening is the configured open image, and after
/// closing the configured closed image.
pub proof fn lemma_image_follows_flag(s: Snapshot, at: Timestamp, open_image: Seq<char>, closed_image: Seq<char>, p: Seq<Seq<char>>)
    ensures
        reply_of(Route::StatusPng, apply(s, Transition::Open(at)), open_image, closed_image, p).body
            == crate::response::BodyView::Asset(open_image),
        reply_of(Route::StatusPng, apply(s, Transition::Close(at)), open_image, closed_image, p).body
            == crate::response::BodyView::Asset(closed_image),
{
}

} // verus!
