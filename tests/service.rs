use spacestatus::clock::Timestamp;
use spacestatus::response::{status_document_text, Body, ContentKind, Reply};
use spacestatus::router::{route, Method, Route};
use spacestatus::service::{write_status, StatusStore};
use spacestatus::status::{SpaceApi, SpaceStatus};
use spacestatus::token::tokens_match;

const TOKEN: &str = "Hee2noh8aic3iech";

fn founding() -> Timestamp {
    Timestamp::new(1375120980, 0)
}

fn api() -> SpaceApi {
    SpaceApi {
        status: SpaceStatus::new(
            String::from("assets/open.png"),
            String::from("assets/close.png"),
            founding(),
        ),
    }
}

fn path(p: &[&str]) -> Vec<String> {
    p.iter().map(|s| s.to_string()).collect()
}

fn text_of(r: &Reply) -> String {
    match &r.body {
        Body::Text(t) => t.clone(),
        Body::Asset(a) => panic!("asset {}", a),
    }
}

fn asset_of(r: &Reply) -> String {
    match &r.body {
        Body::Asset(a) => a.clone(),
        Body::Text(t) => panic!("text {}", t),
    }
}

fn call(a: &mut SpaceApi, m: Method, p: &[&str], at: Timestamp) -> Reply {
    a.handle(m, &path(p), &TOKEN.to_string(), at)
}

#[test]
fn starts_closed() {
    let a = api();
    assert!(!a.status.status);
    assert_eq!(a.status.modified, founding());
}

#[test]
fn open_then_read() {
    let mut s = api().status;
    let at = Timestamp::new(1700000000, 5);
    s.open_at(at);
    let snap = s.snapshot();
    assert!(snap.is_open);
    assert_eq!(snap.modified, at);
}

#[test]
fn open_twice_refreshes_time() {
    let mut s = api().status;
    let t1 = Timestamp::new(1700000000, 0);
    let t2 = Timestamp::new(1700000060, 0);
    s.open_at(t1);
    assert!(s.status);
    assert_eq!(s.modified, t1);
    s.open_at(t2);
    assert!(s.status);
    assert_eq!(s.modified, t2);
}

#[test]
fn close_at_sets_both() {
    let mut s = api().status;
    let t = Timestamp::new(1700000000, 0);
    s.open_at(t);
    let t2 = Timestamp::new(1700000100, 7);
    s.close_at(t2);
    assert!(!s.status);
    assert_eq!(s.modified, t2);
}

#[test]
fn open_reads_the_clock() {
    let mut s = api().status;
    s.open();
    assert!(s.status);
    assert!(s.modified.sec > founding().sec);
    assert!(s.modified.nsec >= 0 && s.modified.nsec < 1_000_000_000);
    s.close();
    assert!(!s.status);
}

#[test]
fn token_comparison() {
    assert!(tokens_match(&TOKEN.to_string(), &TOKEN.to_string()));
    assert!(!tokens_match(&"Hee2noh8aic3iecH".to_string(), &TOKEN.to_string()));
    assert!(!tokens_match(&"Hee2".to_string(), &TOKEN.to_string()));
    assert!(!tokens_match(&"".to_string(), &TOKEN.to_string()));
    assert!(tokens_match(&"".to_string(), &"".to_string()));
}

#[test]
fn routes_of_reads() {
    let t = TOKEN.to_string();
    assert_eq!(route(Method::Get, &path(&[""]), &t), Route::Index);
    assert_eq!(route(Method::Head, &path(&["v1", ""]), &t), Route::Index);
    assert_eq!(route(Method::Get, &path(&["v1"]), &t), Route::Index);
    assert_eq!(route(Method::Get, &path(&["v1", "status.json"]), &t), Route::StatusJson);
    assert_eq!(route(Method::Head, &path(&["v1", "status"]), &t), Route::StatusText);
    assert_eq!(route(Method::Get, &path(&["v1", "status.png"]), &t), Route::StatusPng);
}

#[test]
fn routes_of_changes() {
    let t = TOKEN.to_string();
    assert_eq!(route(Method::Put, &path(&["v1", "status", TOKEN, "1"]), &t), Route::SetStatus(true));
    assert_eq!(route(Method::Put, &path(&["v1", "status", TOKEN, "0"]), &t), Route::SetStatus(false));
    assert_eq!(route(Method::Put, &path(&["v1", "status", TOKEN, "2"]), &t), Route::UnknownAction);
    assert_eq!(route(Method::Put, &path(&["v1", "status", "nope", "2"]), &t), Route::Forbidden);
}

#[test]
fn unmatched_paths_are_not_found() {
    let t = TOKEN.to_string();
    let cases: Vec<(Method, Vec<String>)> = vec![
        (Method::Get, path(&["v2", "status"])),
        (Method::Get, path(&["v1", "status", "extra"])),
        (Method::Get, path(&["v1", "nothing"])),
        (Method::Get, path(&["status.json"])),
        (Method::Other, path(&["v1", "status"])),
        (Method::Put, path(&["v1", "status.json"])),
        (Method::Put, path(&[""])),
        (Method::Other, path(&[""])),
        (Method::Put, path(&["v1", "status", TOKEN])),
        (Method::Put, path(&["v1", "status", TOKEN, "1", "x"])),
        (Method::Get, path(&["v1", "status", TOKEN, "1"])),
    ];
    for (m, p) in cases {
        assert_eq!(route(m, &p, &t), Route::NotFound);
    }
}

#[test]
fn not_found_names_the_path() {
    let mut a = api();
    let r = call(&mut a, Method::Get, &["v1", "nothing"], founding());
    assert_eq!(r.code, 404);
    assert_eq!(text_of(&r), "Not found /v1/nothing");
    let r = call(&mut a, Method::Put, &["v1", "status", TOKEN, "7"], founding());
    assert_eq!(r.code, 404);
    assert_eq!(text_of(&r), "Not Found");
    assert!(!a.status.status);
}

#[test]
fn wrong_token_is_forbidden() {
    let mut a = api();
    for digit in ["0", "1", "x"] {
        let r = call(&mut a, Method::Put, &["v1", "status", "guess", digit], Timestamp::new(1800000000, 0));
        assert_eq!(r.code, 403);
        assert_eq!(text_of(&r), "Wrong Token");
        assert!(!a.status.status);
        assert_eq!(a.status.modified, founding());
    }
    call(&mut a, Method::Put, &["v1", "status", TOKEN, "1"], Timestamp::new(1800000000, 0));
    let r = call(&mut a, Method::Put, &["v1", "status", "guess", "0"], Timestamp::new(1800000100, 0));
    assert_eq!(r.code, 403);
    assert!(a.status.status);
}

#[test]
fn change_then_status_text() {
    let mut a = api();
    let r = call(&mut a, Method::Put, &["v1", "status", TOKEN, "1"], Timestamp::new(1800000000, 0));
    assert_eq!(r.code, 200);
    assert_eq!(text_of(&r), "open");
    let r = call(&mut a, Method::Get, &["v1", "status"], founding());
    assert_eq!(r.code, 200);
    assert_eq!(text_of(&r), "Status true");
    let r = call(&mut a, Method::Put, &["v1", "status", TOKEN, "0"], Timestamp::new(1800000001, 0));
    assert_eq!(text_of(&r), "closed");
    let r = call(&mut a, Method::Get, &["v1", "status"], founding());
    assert_eq!(text_of(&r), "Status false");
    assert_eq!(a.status.modified, Timestamp::new(1800000001, 0));
}

#[test]
fn document_follows_flag() {
    let mut a = api();
    let at = Timestamp::new(1800000000, 0);
    call(&mut a, Method::Put, &["v1", "status", TOKEN, "1"], at);
    let r = call(&mut a, Method::Get, &["v1", "status.json"], founding());
    let doc = text_of(&r);
    assert_eq!(r.code, 200);
    assert_eq!(r.content_type, Some(ContentKind::Json));
    assert_eq!(r.max_age, Some(60));
    assert_eq!(r.last_modified, Some(at));
    assert!(doc.contains("\"open\": true"));
    assert_eq!(doc.matches("\"open\": true").count(), 2);
    assert!(!doc.contains("false"));
    call(&mut a, Method::Put, &["v1", "status", TOKEN, "0"], at);
    let doc = text_of(&call(&mut a, Method::Head, &["v1", "status.json"], founding()));
    assert_eq!(doc.matches("\"open\": false").count(), 2);
    assert!(!doc.contains("true"));
}

#[test]
fn document_is_space_api() {
    let doc = status_document_text(true);
    assert!(doc.starts_with("{"));
    assert!(doc.ends_with("}"));
    assert!(doc.contains("\"api\": \"0.13\""));
    assert!(doc.contains("\"space\": \"AFRA\""));
    assert!(doc.contains("\"state\": {\n                            \"open\": true\n                        }"));
}

const TEMPLATE: &str = r##"{
                        "api": "0.13",
                        "space": "AFRA",
                        "logo": "https://afra-berlin.de/dokuwiki/lib/exe/fetch.php?t=1426288945&w=128&h=128&tok=561205&media=afra-logo.png",
                        "url": "https://afra-berlin.de",
                        "location": {
                            "address": "Margaretenstr. 30, 10317 Berlin, Germany",
                            "lon": 13.4961541,
                            "lat": 52.5082224
                        },
                        "contact": {
                            "twitter": "@afra_berlin",
                            "irc": "irc://irc.freenode.net/#afra",
                            "email": "info@afra-berlin.de",
                            "ml": "afra@afra-berlin.de",
                            "issue_mail": "info@afra-berlin.de"
                        },
                        "issue_report_channels": [
                            "issue_mail"
                        ],
                        "state": {
                            "open": {}
                        },
                        "open": {}
                    }"##;

#[test]
fn document_is_template_with_flag() {
    assert_eq!(status_document_text(true), TEMPLATE.replace("{}", "true"));
    assert_eq!(status_document_text(false), TEMPLATE.replace("{}", "false"));
}

#[test]
fn write_status_checks_token_then_action() {
    let t = TOKEN.to_string();
    let at = Timestamp::new(1800000000, 0);
    let mut s = api().status;
    for digit in ["0", "1", "2", ""] {
        let r = write_status(&mut s, &path(&["v1", "status", "wrong", digit]), &t, at);
        assert_eq!(r.code, 403);
        assert_eq!(text_of(&r), "Wrong Token");
        assert!(!s.status);
        assert_eq!(s.modified, founding());
    }
    for digit in ["2", "", "true"] {
        let r = write_status(&mut s, &path(&["v1", "status", TOKEN, digit]), &t, at);
        assert_eq!(r.code, 404);
        assert_eq!(text_of(&r), "Not Found");
        assert!(!s.status);
        assert_eq!(s.modified, founding());
    }
    let r = write_status(&mut s, &path(&["v1", "status", TOKEN, "1", "x"]), &t, at);
    assert_eq!(r.code, 404);
    assert!(!s.status);
    let r = write_status(&mut s, &path(&["v1", "status", TOKEN, "1"]), &t, at);
    assert_eq!(r.code, 200);
    assert_eq!(text_of(&r), "open");
    assert!(s.status);
    assert_eq!(s.modified, at);
    let r = write_status(&mut s, &path(&["v1", "status", "wrong", "0"]), &t, founding());
    assert_eq!(r.code, 403);
    assert_eq!(text_of(&r), "Wrong Token");
    assert!(s.status);
    let later = Timestamp::new(1800000050, 0);
    let r = write_status(&mut s, &path(&["v1", "status", TOKEN, "0"]), &t, later);
    assert_eq!(text_of(&r), "closed");
    assert!(!s.status);
    assert_eq!(s.modified, later);
}

#[test]
fn image_follows_flag() {
    let mut a = api();
    let r = call(&mut a, Method::Get, &["v1", "status.png"], founding());
    assert_eq!(asset_of(&r), "assets/close.png");
    assert_eq!(r.content_type, Some(ContentKind::Png));
    assert_eq!(r.last_modified, Some(founding()));
    call(&mut a, Method::Put, &["v1", "status", TOKEN, "1"], Timestamp::new(1800000000, 0));
    let r = call(&mut a, Method::Get, &["v1", "status.png"], founding());
    assert_eq!(asset_of(&r), "assets/open.png");
    assert_eq!(r.last_modified, Some(Timestamp::new(1800000000, 0)));
}

#[test]
fn index_page() {
    let mut a = api();
    for p in [&[""][..], &["v1", ""][..]] {
        let r = call(&mut a, Method::Get, p, founding());
        assert_eq!(r.code, 200);
        assert_eq!(asset_of(&r), "assets/index.html");
        assert_eq!(r.content_type, Some(ContentKind::Html));
        assert_eq!(r.max_age, Some(60));
        assert_eq!(r.last_modified, None);
    }
}

#[test]
fn store_serves_and_changes() {
    let store = StatusStore::new(api());
    let t = TOKEN.to_string();
    assert!(!store.read().is_open);
    let r = store.handle(Method::Get, &path(&["v1", "status"]), &t);
    assert_eq!(text_of(&r), "Status false");
    let r = store.handle(Method::Put, &path(&["v1", "status", "bad", "1"]), &t);
    assert_eq!(r.code, 403);
    assert!(!store.read().is_open);
    let r = store.handle(Method::Put, &path(&["v1", "status", TOKEN, "1"]), &t);
    assert_eq!(text_of(&r), "open");
    let snap = store.read();
    assert!(snap.is_open);
    assert!(snap.modified.sec > founding().sec);
    let r = store.handle(Method::Get, &path(&["v1", "status.png"]), &t);
    assert_eq!(asset_of(&r), "assets/open.png");
    assert_eq!(r.last_modified, Some(snap.modified));
    store.close();
    assert!(!store.read().is_open);
    store.open();
    assert!(store.read().is_open);
}
