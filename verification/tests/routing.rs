use hello_server::handlers::{
    handler_404, hello_handler, root_handler, GREETING, GREETING_MESSAGE, NOT_FOUND_PAGE,
    WELCOME_PAGE,
};
use hello_server::record::{Context, Level};
use hello_server::response::{ContentType, STATUS_NOT_FOUND, STATUS_OK};
use hello_server::router::{dispatch, handle, route, Route};

#[test]
fn get_root_serves_the_welcome_page() {
    let reply = handle("GET", "/");
    assert_eq!(reply.response.status, 200);
    assert_eq!(reply.response.content_type, ContentType::Html);
    assert_eq!(
        reply.response.body,
        "<h1>Welcome to the Rust HTTP Server!</h1><p><a href=\"/hello\">Say Hello</a></p>"
    );
}

#[test]
fn welcome_page_links_to_hello() {
    assert!(handle("GET", "/").response.body.contains("<a href=\"/hello\">"));
}

#[test]
fn get_hello_serves_the_greeting() {
    let reply = handle("GET", "/hello");
    assert_eq!(reply.response.status, 200);
    assert_eq!(reply.response.content_type, ContentType::Json);
    assert_eq!(reply.response.content_type.media_type(), "application/json");
    assert_eq!(reply.response.body, "{\"message\": \"Hello, World from Rust!\"}");
}

#[test]
fn greeting_parses_as_an_object_with_a_message() {
    let reply = handle("GET", "/hello");
    let value: serde_json::Value = serde_json::from_str(reply.response.body).unwrap();
    let object = value.as_object().unwrap();
    assert_eq!(object.len(), 1);
    assert!(object.contains_key("message"));
    assert_eq!(object.get("message").unwrap().as_str(), Some("Hello, World from Rust!"));
    assert_eq!(GREETING_MESSAGE, "Hello, World from Rust!");
}

#[test]
fn greeting_is_what_a_json_writer_gives_for_its_message() {
    let quoted = serde_json::to_string(GREETING_MESSAGE).unwrap();
    assert_eq!(GREETING, format!("{{\"message\": {}}}", quoted));
}

#[test]
fn get_nonexistent_is_not_found() {
    let reply = handle("GET", "/nonexistent");
    assert_eq!(reply.response.status, 404);
    assert!(reply.response.body.contains("404 Not Found"));
}

#[test]
fn post_root_is_not_found() {
    let reply = handle("POST", "/");
    assert_eq!(reply.response.status, 404);
    assert_eq!(reply.response.body, NOT_FOUND_PAGE);
}

#[test]
fn unmatched_requests_get_the_not_found_page() {
    let cases = [
        ("POST", "/hello"),
        ("HEAD", "/"),
        ("PUT", "/"),
        ("DELETE", "/hello"),
        ("get", "/"),
        ("Get", "/hello"),
        ("GET ", "/"),
        ("", "/"),
        ("GET", ""),
        ("GET", "/hello/"),
        ("GET", "//"),
        ("GET", "/Hello"),
        ("GET", "/hello?x=1"),
        ("GET", "/hell"),
        ("GET", "/h\u{e9}llo"),
        ("G\u{c9}T", "/"),
    ];
    for (method, path) in cases {
        let reply = handle(method, path);
        assert_eq!(reply.response.status, 404);
        assert_eq!(reply.response.content_type, ContentType::Html);
        assert_eq!(
            reply.response.body,
            "<h2>404 Not Found</h2><p>Sorry, the page you are looking for does not exist.</p>"
        );
        assert_eq!(route(method, path), Route::Fallback);
    }
}

#[test]
fn route_table_has_two_routes_and_a_fallback() {
    assert_eq!(route("GET", "/"), Route::Root);
    assert_eq!(route("GET", "/hello"), Route::Hello);
    assert_eq!(route("PATCH", "/anything"), Route::Fallback);
}

#[test]
fn dispatch_calls_the_handler_of_the_route() {
    assert_eq!(dispatch(Route::Root), root_handler());
    assert_eq!(dispatch(Route::Hello), hello_handler());
    assert_eq!(dispatch(Route::Fallback), handler_404());
}

#[test]
fn root_handler_logs_at_debug_level() {
    let reply = root_handler();
    assert_eq!(reply.response.status, STATUS_OK);
    assert_eq!(reply.response.body, WELCOME_PAGE);
    assert_eq!(reply.record.level, Level::Debug);
    assert_eq!(reply.record.message, "serving root path response");
    assert_eq!(reply.record.context, Context::Empty);
}

#[test]
fn hello_handler_logs_at_info_level() {
    let reply = hello_handler();
    assert_eq!(reply.response.status, STATUS_OK);
    assert_eq!(reply.response.body, GREETING);
    assert_eq!(reply.record.level, Level::Info);
    assert_eq!(reply.record.message, "serving hello world response");
    assert_eq!(reply.record.context, Context::Empty);
}

#[test]
fn fallback_handler_logs_at_warning_level() {
    let reply = handler_404();
    assert_eq!(reply.response.status, STATUS_NOT_FOUND);
    assert_eq!(reply.response.status, 404);
    assert_eq!(reply.response.body, NOT_FOUND_PAGE);
    assert_eq!(reply.record.level, Level::Warn);
    assert_eq!(reply.record.message, "resource not found");
    assert_eq!(reply.record.context, Context::Empty);
}

#[test]
fn content_types_name_their_media_type() {
    assert_eq!(ContentType::Html.media_type(), "text/html");
    assert_eq!(ContentType::Json.media_type(), "application/json");
    assert_eq!(ContentType::Html.header_value(), "text/html; charset=utf-8");
    assert_eq!(ContentType::Json.header_value(), "application/json");
}

#[test]
fn interleaved_requests_do_not_affect_each_other() {
    let alone = [handle("GET", "/"), handle("GET", "/hello"), handle("GET", "/missing")];
    for round in 0..50 {
        let order = [round % 3, (round + 1) % 3, (round + 2) % 3];
        for which in order {
            let reply = match which {
                0 => handle("GET", "/"),
                1 => handle("GET", "/hello"),
                _ => handle("GET", "/missing"),
            };
            assert_eq!(reply, alone[which]);
        }
    }
    assert_eq!(alone[0].response.status, 200);
    assert_eq!(alone[1].response.status, 200);
    assert_eq!(alone[2].response.status, 404);
}
