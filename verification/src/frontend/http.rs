//! The status page: which request gets which answer.

use vstd::prelude::*;

verus! {

/// The TCP port that the status page is served on.
pub const PORT: u16 = 8073;

/// The two request methods that the page knows.
#[derive(Debug, Clone, Copy, PartialEq, Eq, Structural)]
pub enum Method {
    Get,
    Post,
    Other,
}

/// The files that the page is made of.
#[derive(Debug, Clone, Copy, PartialEq, Eq, Structural)]
pub enum Asset {
    Index,
    MainJs,
    VueJs,
    StyleCss,
    Logo,
    PinNumbers,
}

/// What a request is answered with.
#[derive(Debug, Clone, Copy, PartialEq, Eq, Structural)]
pub enum Route {
    /// One of the files of the page.
    File(Asset),
    /// The telemetry record as JSON.
    Telemetry,
    /// The body is a message to send.
    Message,
    /// Nothing is there.
    NotFound,
}

impl Asset {
    pub open spec fn spec_content_type(self) -> Seq<char> {
        match self {
            Asset::Index => "text/html"@,
            Asset::MainJs | Asset::VueJs => "application/javascript"@,
            Asset::StyleCss => "text/css"@,
            Asset::Logo | Asset::PinNumbers => "image/png"@,
        }
    }

    pub open spec fn spec_file_name(self) -> Seq<char> {
        match self {
            Asset::Index => "index.html"@,
            Asset::MainJs => "main.js"@,
            Asset::VueJs => "vue.js"@,
            Asset::StyleCss => "style.css"@,
            Asset::Logo => "logo.png"@,
            Asset::PinNumbers => "pin_numbers.png"@,
        }
    }

    /// The name of the file.
    pub fn file_name(self) -> (text: &'static str)
        ensures
            text@ == self.spec_file_name(),
    {
        match self {
            Asset::Index => "index.html",
            Asset::MainJs => "main.js",
            Asset::VueJs => "vue.js",
            Asset::StyleCss => "style.css",
            Asset::Logo => "logo.png",
            Asset::PinNumbers => "pin_numbers.png",
        }
    }

    /// The content type that the file is sent with.
    pub fn content_type(self) -> (text: &'static str)
        ensures
            text@ == self.spec_content_type(),
    {
        match self {
            Asset::Index => "text/html",
            Asset::MainJs | Asset::VueJs => "application/javascript",
            Asset::StyleCss => "text/css",
            Asset::Logo | Asset::PinNumbers => "image/png",
        }
    }
}

/// What a request for `path` is answered with.
pub open spec fn spec_route(method: Method, path: Seq<char>) -> Route {
    match method {
        Method::Get => if path == "/"@ || path == "/index.html"@ {
            Route::File(Asset::Index)
        } else if path == "/main.js"@ {
            Route::File(Asset::MainJs)
        } else if path == "/vue.js"@ {
            Route::File(Asset::VueJs)
        } else if path == "/style.css"@ {
            Route::File(Asset::StyleCss)
        } else if path == "/logo.png"@ {
            Route::File(Asset::Logo)
        } else if path == "/pin_numbers.png"@ {
            Route::File(Asset::PinNumbers)
        } else if path == "/telemetry"@ {
            Route::Telemetry
        } else {
            Route::NotFound
        },
        Method::Post => if path == "/message"@ {
            Route::Message
        } else {
            Route::NotFound
        },
        Method::Other => Route::NotFound,
    }
}

/// Whether two texts are the same.
fn same(a: &str, b: &str) -> (same: bool)
    ensures
        same == (a@ == b@),
{
    let n = a.unicode_len();
    if n != b.unicode_len() {
        return false;
    }
    let mut i: usize = 0;
    while i < n
        invariant
            i <= n,
            n == a@.len(),
            n == b@.len(),
            forall|k: int| 0 <= k < i ==> a@[k] == b@[k],
        decreases n - i,
    {
        if a.get_char(i) != b.get_char(i) {
            return false;
        }
        i += 1;
    }
    assert(a@ =~= b@);
    true
}

/// What a request for `path` is answered with.
pub fn route(method: Method, path: &str) -> (route: Route)
    ensures
        route == spec_route(method, path@),
{
    match method {
        Method::Get => if same(path, "/") || same(path, "/index.html") {
            Route::File(Asset::Index)
        } else if same(path, "/main.js") {
            Route::File(Asset::MainJs)
        } else if same(path, "/vue.js") {
            Route::File(Asset::VueJs)
        } else if same(path, "/style.css") {
            Route::File(Asset::StyleCss)
        } else if same(path, "/logo.png") {
            Route::File(Asset::Logo)
        } else if same(path, "/pin_numbers.png") {
            Route::File(Asset::PinNumbers)
        } else if same(path, "/telemetry") {
            Route::Telemetry
        } else {
            Route::NotFound
        },
        Method::Post => if same(path, "/message") {
            Route::Message
        } else {
            Route::NotFound
        },
        Method::Other => Route::NotFound,
    }
}

/// The body that says how posting a message went.
pub fn message_reply(accepted: bool) -> (body: &'static str)
    ensures
        body@ == if accepted {
            "{\"ok\": true}"@
        } else {
            "{\"ok\": false}"@
        },
{
    if accepted {
        "{\"ok\": true}"
    } else {
        "{\"ok\": false}"
    }
}

} // verus!
