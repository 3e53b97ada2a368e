//! The three handlers.
//!
//! A handler takes nothing from the request. It answers with a fixed response
//! and with the one log record that tells of the call.

use vstd::prelude::*;
use crate::record::{Context, ContextView, Level, Record, RecordView};
use crate::response::{ContentType, Response, ResponseView, STATUS_NOT_FOUND, STATUS_OK};

verus! {

/// The body of the welcome page.
pub const WELCOME_PAGE: &'static str =
    "<h1>Welcome to the Rust HTTP Server!</h1><p><a href=\"/hello\">Say Hello</a></p>";

/// The body of the greeting: a JSON object with the one member `message`.
pub const GREETING: &'static str = "{\"message\": \"Hello, World from Rust!\"}";

/// The text of the greeting's `message` member.
pub const GREETING_MESSAGE: &'static str = "Hello, World from Rust!";

/// The body of the not-found page.
pub const NOT_FOUND_PAGE: &'static str =
    "<h2>404 Not Found</h2><p>Sorry, the page you are looking for does not exist.</p>";

/// What a handler gives back: the response to send and the record to log.
#[derive(Clone, Debug, PartialEq, Eq)]
pub struct Reply {
    pub response: Response,
    pub record: Record,
}

/// The mathematical value of a [`Reply`].
pub struct ReplyView {
    pub response: ResponseView,
    pub record: RecordView,
}

impl View for Reply {
    type V = ReplyView;

    open spec fn view(&self) -> ReplyView {
        ReplyView { response: self.response@, record: self.record@ }
    }
}

/// The reply of the root handler: the welcome page, logged at debug level.
pub open spec fn root_reply() -> ReplyView {
    ReplyView {
        response: ResponseView {
            status: 200,
            content_type: ContentType::Html,
            body: WELCOME_PAGE@,
        },
        record: RecordView {
            level: Level::Debug,
            message: "serving root path response"@,
            context: ContextView::Empty,
        },
    }
}

/// The reply of the hello handler: the greeting, logged at info level.
pub open spec fn hello_reply() -> ReplyView {
    ReplyView {
        response: ResponseView {
            status: 200,
            content_type: ContentType::Json,
            body: GREETING@,
        },
        record: RecordView {
            level: Level::Info,
            message: "serving hello world response"@,
            context: ContextView::Empty,
        },
    }
}

/// The reply of the fallback handler: the not-found page with status 404,
/// logged at warning level.
pub open spec fn not_found_reply() -> ReplyView {
    ReplyView {
        response: ResponseView {
            status: 404,
            content_type: ContentType::Html,
            body: NOT_FOUND_PAGE@,
        },
        record: RecordView {
            level: Level::Warn,
            message: "resource not found"@,
            context: ContextView::Empty,
        },
    }
}

/// Serves the root path.
pub fn root_handler() -> (reply: Reply)
    ensures
        reply@ == root_reply(),
{
    Reply {
        response: Response {
            status: STATUS_OK,
            content_type: ContentType::Html,
            body: WELCOME_PAGE,
        },
        record: Record {
            level: Level::Debug,
            message: "serving root path response",
            context: Context::Empty,
        },
    }
}

/// Serves the greeting.
pub fn hello_handler() -> (reply: Reply)
    ensures
        reply@ == hello_reply(),
{
    Reply {
        response: Response {
            status: STATUS_OK,
            content_type: ContentType::Json,
            body: GREETING,
        },
        record: Record {
            level: Level::Info,
            message: "serving hello world response",
            context: Context::Empty,
        },
    }
}

/// Serves every request that no route matches.
pub fn handler_404() -> (reply: Reply)
    ensures
        reply@ == not_found_reply(),
{
    Reply {
        response: Response {
            status: STATUS_NOT_FOUND,
            content_type: ContentType::Html,
            body: NOT_FOUND_PAGE,
        },
        record: Record {
            level: Level::Warn,
            message: "resource not found",
            context: Context::Empty,
        },
    }
}

/// Whether `text` stands between double quotes in JSON as it is: it holds no
/// double quote, no backslash and no control character.
pub open spec fn is_plain_json_text(text: Seq<char>) -> bool {
    forall|i: int|
        0 <= i < text.len() ==> {
            let c = #[trigger] text[i];
            c != '"' && c != '\\' && ' ' <= c
        }
}

/// The JSON string that stands for a plain `text`.
pub open spec fn json_string(text: Seq<char>) -> Seq<char> {
    seq!['"'] + text + seq!['"']
}

/// The JSON object with the one member `key`, a string, and its `value`,
/// a string too.
pub open spec fn json_object(key: Seq<char>, value: Seq<char>) -> Seq<char> {
    seq!['{'] + json_string(key) + seq![':', ' '] + json_string(value) + seq!['}']
}

/// The greeting is a JSON object with the single member `message`, whose
/// value is the greeting's text.
pub proof fn lemma_greeting_is_message_object()
    ensures
        hello_reply().response.body == json_object("message"@, GREETING_MESSAGE@),
        is_plain_json_text("message"@),
        is_plain_json_text(GREETING_MESSAGE@),
{
    reveal_strlit("message");
    reveal_strlit("Hello, World from Rust!");
    reveal_strlit("{\"message\": \"Hello, World from Rust!\"}");
    assert(GREETING@ =~= json_object("message"@, GREETING_MESSAGE@));
}

} // verus!
