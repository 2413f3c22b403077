//! The three client files the endpoint serves, and the answer to a request
//! for one of them.
//!
//! The files are opaque byte blobs handed over once, at construction. They
//! are served under exact paths only: nothing is resolved, joined or
//! normalised, so no request can reach outside the table.

use vstd::prelude::*;
use crate::text::same_text;

verus! {

/// Path of the client page.
pub open spec fn page_path() -> Seq<char> {
    "/"@
}

/// Path of the style sheet.
pub open spec fn style_path() -> Seq<char> {
    "/style.css"@
}

/// Path of the client script.
pub open spec fn script_path() -> Seq<char> {
    "/app.js"@
}

/// Content type of the client page.
pub open spec fn page_mime() -> Seq<char> {
    "text/html; charset=utf-8"@
}

/// Content type of the style sheet.
pub open spec fn style_mime() -> Seq<char> {
    "text/css"@
}

/// Content type of the client script.
pub open spec fn script_mime() -> Seq<char> {
    "application/javascript"@
}

/// The one request method under which assets are served.
pub open spec fn get_method() -> Seq<char> {
    "GET"@
}

/// One entry of the table, as mathematical values.
pub struct AssetView {
    pub path: Seq<char>,
    pub mime: Seq<char>,
    pub bytes: Seq<u8>,
}

/// An answer to a request, as mathematical values.
pub enum ReplyView {
    /// `200 OK` with the given content type and body.
    Found { content_type: Seq<char>, body: Seq<u8> },
    /// `405 Method Not Allowed`.
    MethodNotAllowed,
    /// `404 Not Found`.
    NotFound,
}

impl ReplyView {
    /// The HTTP status code of this answer.
    pub open spec fn status(self) -> int {
        match self {
            ReplyView::Found { .. } => 200,
            ReplyView::MethodNotAllowed => 405,
            ReplyView::NotFound => 404,
        }
    }
}

/// One entry of the table: where it is served, as what, and its bytes.
pub struct Asset<'a> {
    pub path: &'static str,
    pub mime: &'static str,
    pub bytes: &'a [u8],
}

impl<'a> View for Asset<'a> {
    type V = AssetView;

    open spec fn view(&self) -> AssetView {
        AssetView { path: self.path@, mime: self.mime@, bytes: self.bytes@ }
    }
}

/// An answer to a request for an asset.
pub enum Reply<'a> {
    /// `200 OK` with the given content type and body.
    Found { content_type: &'static str, body: &'a [u8] },
    /// `405 Method Not Allowed`.
    MethodNotAllowed,
    /// `404 Not Found`.
    NotFound,
}

impl<'a> View for Reply<'a> {
    type V = ReplyView;

    open spec fn view(&self) -> ReplyView {
        match self {
            Reply::Found { content_type, body } => ReplyView::Found {
                content_type: content_type@,
                body: body@,
            },
            Reply::MethodNotAllowed => ReplyView::MethodNotAllowed,
            Reply::NotFound => ReplyView::NotFound,
        }
    }
}

impl<'a> Reply<'a> {
    /// The HTTP status code of this answer.
    pub fn status(&self) -> (code: u16)
        ensures
            code == self@.status(),
    {
        match self {
            Reply::Found { .. } => 200,
            Reply::MethodNotAllowed => 405,
            Reply::NotFound => 404,
        }
    }
}

/// The client page, style sheet and script, fixed at construction.
pub struct StaticBundle {
    page: Vec<u8>,
    style: Vec<u8>,
    script: Vec<u8>,
}

impl StaticBundle {
    /// Bytes of the client page.
    pub closed spec fn page(&self) -> Seq<u8> {
        self.page@
    }

    /// Bytes of the style sheet.
    pub closed spec fn style(&self) -> Seq<u8> {
        self.style@
    }

    /// Bytes of the client script.
    pub closed spec fn script(&self) -> Seq<u8> {
        self.script@
    }

    /// The table entry served under `path`, if there is one.
    pub open spec fn entry(&self, path: Seq<char>) -> Option<AssetView> {
        if path == page_path() {
            Some(AssetView { path: page_path(), mime: page_mime(), bytes: self.page() })
        } else if path == style_path() {
            Some(AssetView { path: style_path(), mime: style_mime(), bytes: self.style() })
        } else if path == script_path() {
            Some(AssetView { path: script_path(), mime: script_mime(), bytes: self.script() })
        } else {
            None
        }
    }

    /// The answer to a request with the given method and path: an unknown
    /// path is not found whatever the method; a known path is served under
    /// `GET` and refused under any other method.
    pub open spec fn answer(&self, method: Seq<char>, path: Seq<char>) -> ReplyView {
        match self.entry(path) {
            None => ReplyView::NotFound,
            Some(asset) => if method == get_method() {
                ReplyView::Found { content_type: asset.mime, body: asset.bytes }
            } else {
                ReplyView::MethodNotAllowed
            },
        }
    }

    /// A bundle of the three given files.
    pub fn new(page: Vec<u8>, style: Vec<u8>, script: Vec<u8>) -> (bundle: StaticBundle)
        ensures
            bundle.page() == page@,
            bundle.style() == style@,
            bundle.script() == script@,
    {
        StaticBundle { page, style, script }
    }

    /// Looks `path` up in the table. Paths match exactly or not at all.
    pub fn asset(&self, path: &str) -> (found: Option<Asset<'_>>)
        ensures
            found.is_some() == self.entry(path@).is_some(),
            found matches Some(asset) ==> Some(asset@) == self.entry(path@),
    {
        if same_text(path, "/") {
            Some(Asset { path: "/", mime: "text/html; charset=utf-8", bytes: self.page.as_slice() })
        } else if same_text(path, "/style.css") {
            Some(Asset { path: "/style.css", mime: "text/css", bytes: self.style.as_slice() })
        } else if same_text(path, "/app.js") {
            Some(
                Asset {
                    path: "/app.js",
                    mime: "application/javascript",
                    bytes: self.script.as_slice(),
                },
            )
        } else {
            None
        }
    }

    /// Answers a request: the asset byte for byte under `GET` and its exact
    /// path, `405` for a known path under another method, `404` for every
    /// other path.
    pub fn respond(&self, method: &str, path: &str) -> (reply: Reply<'_>)
        ensures
            reply@ == self.answer(method@, path@),
    {
        match self.asset(path) {
            None => Reply::NotFound,
            Some(asset) => {
                if same_text(method, "GET") {
                    Reply::Found { content_type: asset.mime, body: asset.bytes }
                } else {
                    Reply::MethodNotAllowed
                }
            },
        }
    }
}

/// The table holds three entries and no more: under `GET`, each of the
/// three paths gives its own file byte for byte with its content type;
/// under any other method it gives `405`; every other path gives `404`,
/// whatever the method.
pub proof fn law_three_paths(bundle: &StaticBundle, method: Seq<char>, path: Seq<char>)
    ensures
        bundle.answer(get_method(), page_path()) == (ReplyView::Found {
            content_type: page_mime(),
            body: bundle.page(),
        }),
        bundle.answer(get_method(), style_path()) == (ReplyView::Found {
            content_type: style_mime(),
            body: bundle.style(),
        }),
        bundle.answer(get_method(), script_path()) == (ReplyView::Found {
            content_type: script_mime(),
            body: bundle.script(),
        }),
        path == page_path() || path == style_path() || path == script_path() ==> (method
            != get_method() ==> bundle.answer(method, path) == ReplyView::MethodNotAllowed),
        path != page_path() && path != style_path() && path != script_path() ==> bundle.answer(
            method,
            path,
        ) == ReplyView::NotFound,
{
    reveal_strlit("/");
    reveal_strlit("/style.css");
    reveal_strlit("/app.js");
    // The three paths differ in length.
    assert(page_path().len() == 1);
    assert(style_path().len() == 10);
    assert(script_path().len() == 7);
}

} // verus!
