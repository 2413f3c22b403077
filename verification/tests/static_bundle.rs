use lan_camera::bundle::{Reply, StaticBundle};

const PAGE: &[u8] = b"<!doctype html><title>cam</title>";
const STYLE: &[u8] = b"body { margin: 0; }\n";
const SCRIPT: &[u8] = b"const ws = new WebSocket('/ws');\xff\x00";

fn bundle() -> StaticBundle {
    StaticBundle::new(PAGE.to_vec(), STYLE.to_vec(), SCRIPT.to_vec())
}

fn found<'a>(reply: Reply<'a>) -> (&'static str, &'a [u8]) {
    match reply {
        Reply::Found { content_type, body } => (content_type, body),
        Reply::MethodNotAllowed => panic!("405"),
        Reply::NotFound => panic!("404"),
    }
}

#[test]
fn static_asset() {
    let bundle = bundle();
    let reply = bundle.respond("GET", "/style.css");
    assert_eq!(reply.status(), 200);
    let (content_type, body) = found(reply);
    assert_eq!(content_type, "text/css");
    assert_eq!(body, STYLE);
}

#[test]
fn unknown_path() {
    let bundle = bundle();
    let reply = bundle.respond("GET", "/nope");
    assert_eq!(reply.status(), 404);
    assert!(matches!(reply, Reply::NotFound));
}

#[test]
fn page_is_served_as_html() {
    let bundle = bundle();
    let (content_type, body) = found(bundle.respond("GET", "/"));
    assert_eq!(content_type, "text/html; charset=utf-8");
    assert_eq!(body, PAGE);
}

#[test]
fn script_is_served_byte_for_byte() {
    let bundle = bundle();
    let (content_type, body) = found(bundle.respond("GET", "/app.js"));
    assert_eq!(content_type, "application/javascript");
    assert_eq!(body, SCRIPT);
}

#[test]
fn wrong_method_is_refused() {
    let bundle = bundle();
    for method in ["POST", "PUT", "DELETE", "HEAD", "get", "GET ", ""] {
        for path in ["/", "/style.css", "/app.js"] {
            let reply = bundle.respond(method, path);
            assert_eq!(reply.status(), 405);
            assert!(matches!(reply, Reply::MethodNotAllowed));
        }
    }
}

#[test]
fn unknown_path_is_not_found_whatever_the_method() {
    let bundle = bundle();
    for method in ["GET", "POST", ""] {
        for path in [
            "",
            "//",
            "/index.html",
            "/style.css/",
            "/STYLE.CSS",
            "/app.js?x=1",
            "/../app.js",
            "/./app.js",
            "style.css",
            "/ws",
            "/app.j",
            "/app.jss",
        ] {
            assert_eq!(bundle.respond(method, path).status(), 404);
        }
    }
}

#[test]
fn asset_lookup_gives_path_mime_and_bytes() {
    let bundle = bundle();
    let page = bundle.asset("/").unwrap();
    assert_eq!((page.path, page.mime, page.bytes), ("/", "text/html; charset=utf-8", PAGE));
    let style = bundle.asset("/style.css").unwrap();
    assert_eq!((style.path, style.mime, style.bytes), ("/style.css", "text/css", STYLE));
    let script = bundle.asset("/app.js").unwrap();
    assert_eq!(
        (script.path, script.mime, script.bytes),
        ("/app.js", "application/javascript", SCRIPT)
    );
    assert!(bundle.asset("/nope").is_none());
    assert!(bundle.asset("").is_none());
}

#[test]
fn empty_assets_are_served_empty() {
    let bundle = StaticBundle::new(Vec::new(), Vec::new(), Vec::new());
    let (_, body) = found(bundle.respond("GET", "/"));
    assert!(body.is_empty());
}

#[test]
fn status_codes() {
    assert_eq!(Reply::Found { content_type: "text/css", body: b"x" }.status(), 200);
    assert_eq!(Reply::MethodNotAllowed.status(), 405);
    assert_eq!(Reply::NotFound.status(), 404);
}
