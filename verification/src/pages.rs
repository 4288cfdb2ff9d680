//! The two fixed documents that the listener serves, and how they are sent.

use vstd::prelude::*;
use vstd::utf8::is_ascii_chars;

verus! {

/// The intermediate page. A browser never sends a URL fragment to a server,
/// so this page reads the fragment in the browser and submits it again as the
/// query string of a request to the token endpoint.
pub const CALLBACK_HTML: &'static str = r#"<!DOCTYPE html>
<html>
<head>
    <title>Signing In...</title>
    <style>
        body { font-family: system-ui, sans-serif; display: flex; justify-content: center; align-items: center; height: 100vh; margin: 0; background: #f5f5f5; }
        .container { text-align: center; padding: 2rem; background: white; border-radius: 12px; box-shadow: 0 2px 10px rgba(0,0,0,0.1); }
        h1 { color: #3b82f6; margin-bottom: 0.5rem; }
        p { color: #666; }
    </style>
</head>
<body>
    <div class="container">
        <h1>Signing In...</h1>
        <p>Please wait...</p>
    </div>
    <script>
        const hash = window.location.hash.substring(1);
        if (hash) {
            fetch('/token?' + hash, { method: 'POST' })
                .then(() => window.close())
                .catch(() => window.close());
        }
    </script>
</body>
</html>"#;

/// The page that answers the token request and closes the browser tab.
pub const SUCCESS_HTML: &'static str = r#"<!DOCTYPE html>
<html>
<head>
    <title>Sign In Successful</title>
    <style>
        body { font-family: system-ui, sans-serif; display: flex; justify-content: center; align-items: center; height: 100vh; margin: 0; background: #f5f5f5; }
        .container { text-align: center; padding: 2rem; background: white; border-radius: 12px; box-shadow: 0 2px 10px rgba(0,0,0,0.1); }
        h1 { color: #22c55e; margin-bottom: 0.5rem; }
        p { color: #666; }
    </style>
</head>
<body>
    <div class="container">
        <h1>Sign In Successful</h1>
        <p>You can close this window and return to the app.</p>
    </div>
    <script>window.close();</script>
</body>
</html>"#;

/// The status code of every page response.
pub const STATUS_OK: u16 = 200;

/// The name of the header that carries a response's media type.
pub const CONTENT_TYPE_HEADER: &'static str = "Content-Type";

/// The media type of every page response.
pub const HTML_CONTENT_TYPE: &'static str = "text/html";

/// One of the two documents.
#[derive(Clone, Copy, Debug, PartialEq, Eq, Structural)]
pub enum Page {
    /// The intermediate page, served on the callback path.
    Callback,
    /// The success page, served once on the token path.
    Success,
}

/// A complete page response as plain values: what goes on the wire for it is
/// the caller's business.
#[derive(Clone, Copy, Debug, PartialEq, Eq)]
pub struct PageResponse {
    /// The status code.
    pub status: u16,
    /// The value of the `Content-Type` header.
    pub content_type: &'static str,
    /// The document.
    pub body: &'static str,
}

/// The document that a page stands for.
pub open spec fn page_body(page: Page) -> Seq<char> {
    match page {
        Page::Callback => CALLBACK_HTML@,
        Page::Success => SUCCESS_HTML@,
    }
}

impl Page {
    /// The document text.
    pub fn body(self) -> (text: &'static str)
        ensures
            text@ == page_body(self),
    {
        match self {
            Page::Callback => CALLBACK_HTML,
            Page::Success => SUCCESS_HTML,
        }
    }

    /// The response that serves this page: status 200, media type
    /// `text/html`, and the document as body.
    pub fn response(self) -> (response: PageResponse)
        ensures
            response.status == STATUS_OK,
            response.content_type@ == HTML_CONTENT_TYPE@,
            response.body@ == page_body(self),
    {
        PageResponse { status: STATUS_OK, content_type: HTML_CONTENT_TYPE, body: self.body() }
    }
}

/// The header name and the media type are plain ASCII, which is all that an
/// HTTP header field may hold.
pub proof fn lemma_content_type_header_is_ascii()
    ensures
        is_ascii_chars(CONTENT_TYPE_HEADER@),
        is_ascii_chars(HTML_CONTENT_TYPE@),
{
    reveal_strlit("Content-Type");
    reveal_strlit("text/html");
}

} // verus!
