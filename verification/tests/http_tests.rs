use ai_assistant_client::http::{handle_raw_request, handle_request, request_target, respond, respond_not_found, route, Route, Site};

fn site() -> Site<'static> {
    Site { index_html: "<html>é</html>", app_js: "console.log(1);", styles_css: "body{}" }
}

#[test]
fn target_is_second_word_of_first_line() {
    assert_eq!(request_target("GET /app.js HTTP/1.1\r\nHost: localhost\r\n\r\n"), "/app.js");
    assert_eq!(request_target("GET   /styles.css\tHTTP/1.1"), "/styles.css");
    assert_eq!(request_target("  GET /health"), "/health");
}

#[test]
fn target_defaults_to_root() {
    assert_eq!(request_target(""), "/");
    assert_eq!(request_target("GET"), "/");
    assert_eq!(request_target("GET\r\n/app.js HTTP/1.1"), "/");
    assert_eq!(request_target("\nGET /app.js HTTP/1.1"), "/");
}

#[test]
fn target_uses_unicode_white_space() {
    assert_eq!(request_target("GET\u{a0}/x y"), "/x");
    assert_eq!(request_target("GET\u{3000}/y\u{2028}z"), "/y");
    assert_eq!(request_target("GET\u{200b}/x y"), "y");
}

#[test]
fn routes() {
    assert_eq!(route(&"/".to_string()), Route::Index);
    assert_eq!(route(&"/index.html".to_string()), Route::Index);
    assert_eq!(route(&"/app.js".to_string()), Route::Script);
    assert_eq!(route(&"/styles.css".to_string()), Route::Styles);
    assert_eq!(route(&"/health".to_string()), Route::Health);
    assert_eq!(route(&"/HEALTH".to_string()), Route::NotFound);
    assert_eq!(route(&"/app.js?x=1".to_string()), Route::NotFound);
}

#[test]
fn ok_reply_header_is_exact() {
    let reply = respond("text/plain; charset=utf-8", "ok");
    assert_eq!(
        reply.header,
        "HTTP/1.1 200 OK\r\nContent-Type: text/plain; charset=utf-8\r\nContent-Length: 2\r\nCache-Control: no-store\r\nConnection: close\r\n\r\n"
    );
    assert_eq!(reply.body, "ok");
}

#[test]
fn not_found_reply_is_exact() {
    let reply = respond_not_found();
    assert_eq!(
        reply.header,
        "HTTP/1.1 404 Not Found\r\nContent-Type: text/plain; charset=utf-8\r\nContent-Length: 9\r\nConnection: close\r\n\r\n"
    );
    assert_eq!(reply.body, "Not found");
}

#[test]
fn index_is_served_at_root_and_index_html() {
    let a = handle_request("GET / HTTP/1.1\r\n\r\n", &site());
    let b = handle_request("GET /index.html HTTP/1.1\r\n\r\n", &site());
    let c = handle_request("", &site());
    assert_eq!(a, b);
    assert_eq!(a, c);
    assert_eq!(a.body, "<html>é</html>");
    // the body has 14 characters but 15 bytes
    assert_eq!(
        a.header,
        "HTTP/1.1 200 OK\r\nContent-Type: text/html; charset=utf-8\r\nContent-Length: 15\r\nCache-Control: no-store\r\nConnection: close\r\n\r\n"
    );
}

#[test]
fn script_styles_health_and_unknown() {
    let s = handle_request("GET /app.js HTTP/1.1", &site());
    assert!(s.header.contains("Content-Type: application/javascript; charset=utf-8\r\n"));
    assert!(s.header.contains("Content-Length: 15\r\n"));
    assert_eq!(s.body, "console.log(1);");
    let c = handle_request("GET /styles.css HTTP/1.1", &site());
    assert!(c.header.contains("Content-Type: text/css; charset=utf-8\r\n"));
    assert_eq!(c.body, "body{}");
    let h = handle_request("GET /health HTTP/1.1", &site());
    assert_eq!(h.body, "ok");
    let n = handle_request("GET /missing HTTP/1.1", &site());
    assert!(n.header.starts_with("HTTP/1.1 404 Not Found\r\n"));
    assert_eq!(n.body, "Not found");
}

#[test]
fn only_the_first_line_matters() {
    let a = handle_request("GET /app.js HTTP/1.1\r\nX: GET /styles.css", &site());
    let b = handle_request("GET /app.js HTTP/1.1", &site());
    assert_eq!(a, b);
}

#[test]
fn raw_requests_are_decoded() {
    let a = handle_raw_request(b"GET /health HTTP/1.1\r\n\r\n", &site());
    assert_eq!(a.body, "ok");
    let b = handle_raw_request("GET /app.js\u{a0}x".as_bytes(), &site());
    assert_eq!(b.body, "console.log(1);");
    let c = handle_raw_request(b"GET /\xffapp.js HTTP/1.1", &site());
    assert_eq!(c.body, "Not found");
    let d = handle_raw_request(b"\xff\xfe /styles.css", &site());
    assert_eq!(d.body, "body{}");
}

#[test]
fn cut_off_read_is_answered_by_its_first_line() {
    let mut bytes = b"GET /styles.css HTTP/1.1\r\nX: ".to_vec();
    bytes.extend_from_slice(&"é".as_bytes()[..1]);
    let r = handle_raw_request(&bytes, &site());
    assert_eq!(r.body, "body{}");
    assert_eq!(r, handle_request("GET /styles.css HTTP/1.1\r\n", &site()));
}
