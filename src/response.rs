use vstd::prelude::*;

use crate::clock::Timestamp;
use crate::router::segments;
use crate::status::{Snapshot, SpaceStatus};

verus! {

/// Status code of a served request.
pub const OK: u16 = 200;
/// Status code of a change with a wrong token.
pub const FORBIDDEN: u16 = 403;
/// Status code of a request for which nothing is served.
pub const NOT_FOUND: u16 = 404;

/// Seconds for which a client may cache a served page.
pub const MAX_AGE: u32 = 60;

/// The index page, loaded by whoever sends the reply.
pub const INDEX_PAGE: &'static str = "assets/index.html";

/// The fixed part of the status document, up to the nested open state.
pub const DOC_HEAD: &'static str = r##"{
                        "api": "0.13",
                        "space": "AFRA",
                        "logo": "https://afra-berlin.de/dokuwiki/lib/exe/fetch.php?t=1426288945&w=128&h=128&tok=561205&media=afra-logo.png",
                        "url": "https://afra-berlin.de",
                        "location": {
                            "address": "Margaretenstr. 30, 10317 Berlin, Germany",
                            "lon": 13.4961541,
                            "lat": 52.5082224
                        },
                        "contact": {
                            "twitter": "@afra_berlin",
                            "irc": "irc://irc.freenode.net/#afra",
                            "email": "info@afra-berlin.de",
                            "ml": "afra@afra-berlin.de",
                            "issue_mail": "info@afra-berlin.de"
                        },
                        "issue_report_channels": [
                            "issue_mail"
                        ],
                        "state": {
                            "##;
/// The key in front of each of the two open-state values.
pub const OPEN_KEY: &'static str = r#""open": "#;
/// What stands between the nested open state and the top-level one.
pub const DOC_MID: &'static str = "\n                        },\n                        ";
/// The end of the status document.
pub const DOC_TAIL: &'static str = "\n                    }";

/// How the body of a reply is given.
pub enum Body {
    /// The body itself.
    Text(String),
    /// The path of a file whose bytes are the body.
    Asset(String),
}

/// The media type of a reply's body.
#[derive(Clone, Copy, Debug, PartialEq, Eq, Structural)]
pub enum ContentKind {
    Html,
    Json,
    Png,
}

/// A reply to a request, without the bytes of a file it refers to.
pub struct Reply {
    pub code: u16,
    pub body: Body,
    pub content_type: Option<ContentKind>,
    /// Seconds for which a client may cache the reply.
    pub max_age: Option<u32>,
    /// The time of the last change of what the reply shows.
    pub last_modified: Option<Timestamp>,
}

/// A body as plain values.
pub enum BodyView {
    Text(Seq<char>),
    Asset(Seq<char>),
}

/// A reply as plain values.
pub struct ReplyView {
    pub code: u16,
    pub body: BodyView,
    pub content_type: Option<ContentKind>,
    pub max_age: Option<u32>,
    pub last_modified: Option<Timestamp>,
}

impl View for Body {
    type V = BodyView;

    open spec fn view(&self) -> BodyView {
        match self {
            Body::Text(s) => BodyView::Text(s@),
            Body::Asset(s) => BodyView::Asset(s@),
        }
    }
}

impl View for Reply {
    type V = ReplyView;

    open spec fn view(&self) -> ReplyView {
        ReplyView {
            code: self.code,
            body: self.body@,
            content_type: self.content_type,
            max_age: self.max_age,
            last_modified: self.last_modified,
        }
    }
}

/// A plain-text reply with no caching headers.
pub open spec fn text_view(code: u16, text: Seq<char>) -> ReplyView {
    ReplyView {
        code,
        body: BodyView::Text(text),
        content_type: None,
        max_age: None,
        last_modified: None,
    }
}

/// The word for a flag.
pub open spec fn flag_text(b: bool) -> Seq<char> {
    if b {
        "true"@
    } else {
        "false"@
    }
}

/// The status document with the flag at both open-state fields.
pub open spec fn status_document(is_open: bool) -> Seq<char> {
    DOC_HEAD@ + OPEN_KEY@ + flag_text(is_open) + DOC_MID@ + OPEN_KEY@ + flag_text(is_open)
        + DOC_TAIL@
}

/// Whether `word` occurs in `s` at position `i`.
pub open spec fn occurs_at(s: Seq<char>, word: Seq<char>, i: int) -> bool {
    0 <= i && i + word.len() <= s.len() && s.subrange(i, i + word.len()) == word
}

fn flag_word(b: bool) -> (r: &'static str)
    ensures
        r@ == flag_text(b),
{
    if b {
        "true"
    } else {
        "false"
    }
}

/// The status document for the flag `is_open`.
pub fn status_document_text(is_open: bool) -> (r: String)
    ensures
        r@ == status_document(is_open),
{
    let flag = flag_word(is_open);
    let mut doc = DOC_HEAD.to_owned();
    doc.append(OPEN_KEY);
    doc.append(flag);
    doc.append(DOC_MID);
    doc.append(OPEN_KEY);
    doc.append(flag);
    doc.append(DOC_TAIL);
    doc
}

/// The document shows the flag after the nested and the top-level open key.
pub proof fn lemma_document_shows_flag(is_open: bool)
    ensures
        occurs_at(
            status_document(is_open),
            OPEN_KEY@ + flag_text(is_open),
            DOC_HEAD@.len() as int,
        ),
        occurs_at(
            status_document(is_open),
            OPEN_KEY@ + flag_text(is_open),
            status_document(is_open).len() - DOC_TAIL@.len() - flag_text(is_open).len()
                - OPEN_KEY@.len(),
        ),
{
    let d = status_document(is_open);
    let w = OPEN_KEY@ + flag_text(is_open);
    let h = DOC_HEAD@.len() as int;
    assert(d.subrange(h, h + w.len()) =~= w);
    let j = d.len() - DOC_TAIL@.len() - flag_text(is_open).len() - OPEN_KEY@.len();
    assert(d.subrange(j, j + w.len()) =~= w);
}

/// Whether `word` occurs anywhere in `s`.
pub open spec fn contains(s: Seq<char>, word: Seq<char>) -> bool {
    exists|i: int| occurs_at(s, word, i)
}

/// A word with two neighbouring characters, at `k` and `k + 1`, that never
/// stand side by side in `s` does not occur in `s`.
pub proof fn lemma_absent_by_pair(s: Seq<char>, word: Seq<char>, k: int)
    requires
        0 <= k < word.len() - 1,
        forall|i: int| 0 <= i < s.len() - 1 && #[trigger] s[i] == word[k] ==> s[i + 1] != word[k + 1],
    ensures
        !contains(s, word),
{
    if contains(s, word) {
        let i = choose|i: int| occurs_at(s, word, i);
        assert(s.subrange(i, i + word.len())[k] == s[i + k]);
        assert(s.subrange(i, i + word.len())[k + 1] == s[i + k + 1]);
    }
}

/// The document of an open space never says `false`, and that of a closed
/// space never says `true`.
pub proof fn lemma_document_names_one_flag()
    ensures
        !contains(status_document(true), "false"@),
        !contains(status_document(false), "true"@),
{
    reveal_strlit(r##"{
                        "api": "0.13",
                        "space": "AFRA",
                        "logo": "https://afra-berlin.de/dokuwiki/lib/exe/fetch.php?t=1426288945&w=128&h=128&tok=561205&media=afra-logo.png",
                        "url": "https://afra-berlin.de",
                        "location": {
                            "address": "Margaretenstr. 30, 10317 Berlin, Germany",
                            "lon": 13.4961541,
                            "lat": 52.5082224
                        },
                        "contact": {
                            "twitter": "@afra_berlin",
                            "irc": "irc://irc.freenode.net/#afra",
                            "email": "info@afra-berlin.de",
                            "ml": "afra@afra-berlin.de",
                            "issue_mail": "info@afra-berlin.de"
                        },
                        "issue_report_channels": [
                            "issue_mail"
                        ],
                        "state": {
                            "##);
    reveal_strlit(r#""open": "#);
    reveal_strlit("\n                        },\n                        ");
    reveal_strlit("\n                    }");
    reveal_strlit("true");
    reveal_strlit("false");
    let d = status_document(true);
    assert(forall|i: int| 0 <= i < d.len() - 1 && #[trigger] d[i] == 'f' ==> d[i + 1] != 'a');
    lemma_absent_by_pair(d, "false"@, 0);
    let e = status_document(false);
    assert(forall|i: int| 0 <= i < e.len() - 1 && #[trigger] e[i] == 'r' ==> e[i + 1] != 'u');
    lemma_absent_by_pair(e, "true"@, 1);
}

/// The reply for the status document.
pub open spec fn json_view(s: Snapshot) -> ReplyView {
    ReplyView {
        code: OK,
        body: BodyView::Text(status_document(s.is_open)),
        content_type: Some(ContentKind::Json),
        max_age: Some(MAX_AGE),
        last_modified: Some(s.modified),
    }
}

/// The reply for the status image: the open image while open, else the
/// closed one.
pub open spec fn png_view(s: Snapshot, open_image: Seq<char>, closed_image: Seq<char>) -> ReplyView {
    ReplyView {
        code: OK,
        body: BodyView::Asset(if s.is_open { open_image } else { closed_image }),
        content_type: Some(ContentKind::Png),
        max_age: Some(MAX_AGE),
        last_modified: Some(s.modified),
    }
}

/// The reply for the index page.
pub open spec fn index_view() -> ReplyView {
    ReplyView {
        code: OK,
        body: BodyView::Asset(INDEX_PAGE@),
        content_type: Some(ContentKind::Html),
        max_age: Some(MAX_AGE),
        last_modified: None,
    }
}

/// The flag as text: `Status true` or `Status false`.
pub open spec fn status_line(is_open: bool) -> Seq<char> {
    "Status "@ + flag_text(is_open)
}

/// The reply for the index page.
pub fn index() -> (r: Reply)
    ensures
        r@ == index_view(),
{
    Reply {
        code: OK,
        body: Body::Asset(INDEX_PAGE.to_owned()),
        content_type: Some(ContentKind::Html),
        max_age: Some(MAX_AGE),
        last_modified: None,
    }
}

/// The reply for the status document of `status`.
pub fn status_json(status: &SpaceStatus) -> (r: Reply)
    ensures
        r@ == json_view(status.snapshot_of()),
{
    Reply {
        code: OK,
        body: Body::Text(status_document_text(status.status)),
        content_type: Some(ContentKind::Json),
        max_age: Some(MAX_AGE),
        last_modified: Some(status.modified),
    }
}

/// The reply for the status image of `status`.
pub fn status_png(status: &SpaceStatus) -> (r: Reply)
    ensures
        r@ == png_view(status.snapshot_of(), status.open@, status.close@),
{
    let file = if status.status {
        status.open.clone()
    } else {
        status.close.clone()
    };
    Reply {
        code: OK,
        body: Body::Asset(file),
        content_type: Some(ContentKind::Png),
        max_age: Some(MAX_AGE),
        last_modified: Some(status.modified),
    }
}

/// The reply for the flag as plain text.
pub fn status_text(is_open: bool) -> (r: Reply)
    ensures
        r@ == text_view(OK, status_line(is_open)),
{
    let mut line = "Status ".to_owned();
    line.append(flag_word(is_open));
    Reply {
        code: OK,
        body: Body::Text(line),
        content_type: None,
        max_age: None,
        last_modified: None,
    }
}

/// The segments of a path joined into one, each after a slash.
pub open spec fn path_text(p: Seq<Seq<char>>) -> Seq<char>
    decreases p.len(),
{
    if p.len() == 0 {
        Seq::empty()
    } else {
        path_text(p.drop_last()) + "/"@ + p.last()
    }
}

/// The reply for a request at `path` for which nothing is served; it
/// names the path.
pub fn not_found(path: &Vec<String>) -> (r: Reply)
    ensures
        r@ == text_view(NOT_FOUND, "Not found "@ + path_text(segments(path@))),
{
    let mut body = "Not found ".to_owned();
    let mut i: usize = 0;
    while i < path.len()
        invariant
            i <= path.len(),
            body@ == "Not found "@ + path_text(segments(path@).subrange(0, i as int)),
        decreases path.len() - i,
    {
        body.append("/");
        body.append(path[i].as_str());
        proof {
            let p = segments(path@);
            let q = p.subrange(0, i + 1);
            assert(q.drop_last() =~= p.subrange(0, i as int));
            assert(q.last() == path@[i as int]@);
            assert(path_text(q) == path_text(q.drop_last()) + "/"@ + q.last());
            assert(body@ =~= "Not found "@ + path_text(q));
        }
        i = i + 1;
    }
    proof {
        assert(segments(path@).subrange(0, path.len() as int) =~= segments(path@));
    }
    Reply {
        code: NOT_FOUND,
        body: Body::Text(body),
        content_type: None,
        max_age: None,
        last_modified: None,
    }
}

/// A plain-text reply with no caching headers.
pub fn text(code: u16, body: &str) -> (r: Reply)
    ensures
        r@ == text_view(code, body@),
{
    Reply {
        code,
        body: Body::Text(body.to_owned()),
        content_type: None,
        max_age: None,
        last_modified: None,
    }
}

} // verus!
