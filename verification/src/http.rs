//! The local page server: which page a request asks for, and the exact bytes
//! of the reply.

use vstd::prelude::*;
use crate::text::{chars_of, decimal, decimal_string};
use vstd::utf8::{decode_utf8, encode_utf8, valid_utf8};

verus! {

/// Rust's `char::is_whitespace`: the Unicode `White_Space` property.
pub open spec fn is_white_space(c: char) -> bool {
    let v = c as u32;
    ||| 0x09 <= v <= 0x0D
    ||| v == 0x20
    ||| v == 0x85
    ||| v == 0xA0
    ||| v == 0x1680
    ||| 0x2000 <= v <= 0x200A
    ||| v == 0x2028
    ||| v == 0x2029
    ||| v == 0x202F
    ||| v == 0x205F
    ||| v == 0x3000
}

/// Whether `c` is Unicode white space.
pub fn is_white_space_char(c: char) -> (b: bool)
    ensures
        b == is_white_space(c),
{
    let v = c as u32;
    (0x09 <= v && v <= 0x0D) || v == 0x20 || v == 0x85 || v == 0xA0 || v == 0x1680 || (0x2000
        <= v && v <= 0x200A) || v == 0x2028 || v == 0x2029 || v == 0x202F || v == 0x205F || v
        == 0x3000
}

/// The text before the first line feed (all of it when there is none).
pub open spec fn first_line(s: Seq<char>) -> Seq<char>
    decreases s.len(),
{
    if s.len() == 0 {
        s
    } else if s[0] == '\n' {
        Seq::empty()
    } else {
        seq![s[0]] + first_line(s.drop_first())
    }
}

/// The words of `s` still to come, when `cur` is the part of a word already
/// read: maximal runs of non-white-space characters, in order.
pub open spec fn words_from(s: Seq<char>, cur: Seq<char>) -> Seq<Seq<char>>
    decreases s.len(),
{
    if s.len() == 0 {
        if cur.len() > 0 { seq![cur] } else { Seq::empty() }
    } else if is_white_space(s[0]) {
        (if cur.len() > 0 { seq![cur] } else { Seq::empty() }) + words_from(s.drop_first(), Seq::empty())
    } else {
        words_from(s.drop_first(), cur.push(s[0]))
    }
}

/// The white-space separated words of `s`, as `str::split_whitespace` yields them.
pub open spec fn words(s: Seq<char>) -> Seq<Seq<char>> {
    words_from(s, Seq::empty())
}

/// The request target: the second word of the request's first line, or `/`
/// when that line has fewer than two words.
pub open spec fn request_target_spec(request: Seq<char>) -> Seq<char> {
    let w = words(first_line(request));
    if w.len() >= 2 { w[1] } else { seq!['/'] }
}

fn first_line_end(chars: &Vec<char>) -> (k: usize)
    ensures
        k <= chars@.len(),
        first_line(chars@) == chars@.take(k as int),
{
    let mut i: usize = 0;
    assert(chars@.skip(0) =~= chars@);
    assert(chars@.take(0) + first_line(chars@) =~= first_line(chars@));
    while i < chars.len()
        invariant
            i <= chars@.len(),
            first_line(chars@) == chars@.take(i as int) + first_line(chars@.skip(i as int)),
        decreases chars@.len() - i,
    {
        let ghost rest = chars@.skip(i as int);
        if chars[i] == '\n' {
            assert(first_line(rest) =~= Seq::<char>::empty());
            assert(chars@.take(i as int) + Seq::<char>::empty() =~= chars@.take(i as int));
            return i;
        }
        assert(rest.drop_first() =~= chars@.skip(i + 1));
        assert(chars@.take(i + 1) =~= chars@.take(i as int).push(chars@[i as int]));
        assert(chars@.take(i as int) + (seq![chars@[i as int]] + first_line(chars@.skip(i + 1)))
            =~= chars@.take(i + 1) + first_line(chars@.skip(i + 1)));
        i = i + 1;
    }
    assert(chars@.skip(i as int) =~= Seq::<char>::empty());
    assert(chars@.take(i as int) + Seq::<char>::empty() =~= chars@.take(i as int));
    i
}

/// The words named by a list of (start, end) character ranges of `line`.
pub open spec fn ranges_text(line: Seq<char>, ranges: Seq<(usize, usize)>) -> Seq<Seq<char>> {
    Seq::new(ranges.len(), |i: int| line.subrange(ranges[i].0 as int, ranges[i].1 as int))
}

fn word_ranges(chars: &Vec<char>, k: usize) -> (ranges: Vec<(usize, usize)>)
    requires
        k <= chars@.len(),
    ensures
        forall|i: int|
            0 <= i < ranges@.len() ==> #[trigger] ranges@[i].0 <= ranges@[i].1 <= k,
        ranges_text(chars@.take(k as int), ranges@) == words(chars@.take(k as int)),
{
    let ghost line = chars@.take(k as int);
    let mut ranges: Vec<(usize, usize)> = Vec::new();
    let mut in_word = false;
    let mut start: usize = 0;
    let mut j: usize = 0;
    assert(line.skip(0) =~= line);
    assert(ranges_text(line, ranges@) + words(line) =~= words(line));
    while j < k
        invariant
            k <= chars@.len(),
            line == chars@.take(k as int),
            j <= k,
            start <= j,
            in_word ==> start < j,
            forall|i: int| 0 <= i < ranges@.len() ==> #[trigger] ranges@[i].0 <= ranges@[i].1 <= j,
            words(line) == ranges_text(line, ranges@) + words_from(
                line.skip(j as int),
                if in_word { line.subrange(start as int, j as int) } else { Seq::empty() },
            ),
        decreases k - j,
    {
        let c = chars[j];
        let ghost cur = if in_word { line.subrange(start as int, j as int) } else { Seq::<char>::empty() };
        let ghost before = ranges_text(line, ranges@);
        assert(line.skip(j as int).drop_first() =~= line.skip(j + 1));
        assert(line.skip(j as int)[0] == c);
        if is_white_space_char(c) {
            if in_word {
                ranges.push((start, j));
                assert(ranges_text(line, ranges@) =~= before.push(cur));
                assert(before + (seq![cur] + words_from(line.skip(j + 1), Seq::empty())) =~=
                    ranges_text(line, ranges@) + words_from(line.skip(j + 1), Seq::empty()));
            } else {
                assert(before + (Seq::<Seq<char>>::empty() + words_from(line.skip(j + 1), Seq::empty()))
                    =~= before + words_from(line.skip(j + 1), Seq::empty()));
            }
            in_word = false;
        } else {
            if !in_word {
                start = j;
                in_word = true;
            }
            assert(line.subrange(start as int, j + 1) =~= cur.push(c));
        }
        j = j + 1;
    }
    let ghost cur = if in_word { line.subrange(start as int, j as int) } else { Seq::<char>::empty() };
    let ghost before = ranges_text(line, ranges@);
    assert(line.skip(j as int) =~= Seq::<char>::empty());
    if in_word {
        ranges.push((start, j));
        assert(ranges_text(line, ranges@) =~= before.push(cur));
        assert(before + seq![cur] =~= ranges_text(line, ranges@));
    } else {
        assert(before + Seq::<Seq<char>>::empty() =~= before);
    }
    ranges
}

/// The target of an HTTP request: the second white-space separated word of
/// its first line, or `/` when there is none.
pub fn request_target(request: &str) -> (target: String)
    ensures
        target@ == request_target_spec(request@),
{
    let chars = chars_of(request);
    let k = first_line_end(&chars);
    let ranges = word_ranges(&chars, k);
    let ghost line = chars@.take(k as int);
    if ranges.len() >= 2 {
        let (a, b) = ranges[1];
        assert(ranges_text(line, ranges@)[1] == line.subrange(a as int, b as int));
        assert(line.subrange(a as int, b as int) =~= request@.subrange(a as int, b as int));
        String::from_str(request.substring_char(a, b))
    } else {
        proof {
            reveal_strlit("/");
        }
        String::from_str("/")
    }
}

/// The pages the server knows.
#[derive(Clone, Copy, Debug, PartialEq, Eq, Structural)]
pub enum Route {
    /// The chat page, at `/` and `/index.html`.
    Index,
    /// The page's script, at `/app.js`.
    Script,
    /// The page's style sheet, at `/styles.css`.
    Styles,
    /// The liveness probe, at `/health`.
    Health,
    /// Anything else.
    NotFound,
}

/// The page a request target names.
pub open spec fn route_of(target: Seq<char>) -> Route {
    if target == "/"@ || target == "/index.html"@ {
        Route::Index
    } else if target == "/app.js"@ {
        Route::Script
    } else if target == "/styles.css"@ {
        Route::Styles
    } else if target == "/health"@ {
        Route::Health
    } else {
        Route::NotFound
    }
}

/// The page a request target names.
pub fn route(target: &String) -> (r: Route)
    ensures
        r == route_of(target@),
{
    if *target == String::from_str("/") || *target == String::from_str("/index.html") {
        Route::Index
    } else if *target == String::from_str("/app.js") {
        Route::Script
    } else if *target == String::from_str("/styles.css") {
        Route::Styles
    } else if *target == String::from_str("/health") {
        Route::Health
    } else {
        Route::NotFound
    }
}

/// The embedded files the server hands out.
pub struct Site<'a> {
    pub index_html: &'a str,
    pub app_js: &'a str,
    pub styles_css: &'a str,
}

/// What the server writes back: the header block, then the body.
#[derive(Debug, PartialEq, Eq)]
pub struct Reply<'a> {
    pub header: String,
    pub body: &'a str,
}

/// The `Content-Type` of each page that exists.
pub open spec fn content_type_of(r: Route) -> Seq<char> {
    match r {
        Route::Index => "text/html; charset=utf-8"@,
        Route::Script => "application/javascript; charset=utf-8"@,
        Route::Styles => "text/css; charset=utf-8"@,
        _ => "text/plain; charset=utf-8"@,
    }
}

/// The body the server sends for each page.
pub open spec fn body_of(r: Route, index_html: Seq<char>, app_js: Seq<char>, styles_css: Seq<char>) -> Seq<char> {
    match r {
        Route::Index => index_html,
        Route::Script => app_js,
        Route::Styles => styles_css,
        Route::Health => "ok"@,
        Route::NotFound => "Not found"@,
    }
}

/// The number of bytes of `text` in UTF-8.
pub open spec fn byte_len(text: Seq<char>) -> nat {
    encode_utf8(text).len()
}

/// The header of a successful reply.
pub open spec fn ok_header(content_type: Seq<char>, body_len: nat) -> Seq<char> {
    "HTTP/1.1 200 OK\r\nContent-Type: "@ + content_type + "\r\nContent-Length: "@ + decimal(body_len)
        + "\r\nCache-Control: no-store\r\nConnection: close\r\n\r\n"@
}

/// The header of the reply to a target that names no page.
pub open spec fn not_found_header(body_len: nat) -> Seq<char> {
    "HTTP/1.1 404 Not Found\r\nContent-Type: text/plain; charset=utf-8\r\nContent-Length: "@
        + decimal(body_len) + "\r\nConnection: close\r\n\r\n"@
}

/// A successful reply carrying `body`.
pub fn respond<'a>(content_type: &str, body: &'a str) -> (reply: Reply<'a>)
    ensures
        reply.body@ == body@,
        reply.header@ == ok_header(content_type@, byte_len(body@)),
{
    let mut header = String::from_str("HTTP/1.1 200 OK\r\nContent-Type: ");
    header.append(content_type);
    header.append("\r\nContent-Length: ");
    let len = decimal_string(body.as_bytes().len());
    header.append(len.as_str());
    header.append("\r\nCache-Control: no-store\r\nConnection: close\r\n\r\n");
    assert(header@ =~= ok_header(content_type@, byte_len(body@)));
    Reply { header, body }
}

/// The reply to a target that names no page.
pub fn respond_not_found() -> (reply: Reply<'static>)
    ensures
        reply.body@ == "Not found"@,
        reply.header@ == not_found_header(byte_len("Not found"@)),
{
    let body = "Not found";
    let mut header = String::from_str(
        "HTTP/1.1 404 Not Found\r\nContent-Type: text/plain; charset=utf-8\r\nContent-Length: ",
    );
    let len = decimal_string(body.as_bytes().len());
    header.append(len.as_str());
    header.append("\r\nConnection: close\r\n\r\n");
    assert(header@ =~= not_found_header(byte_len(body@)));
    Reply { header, body }
}

/// The reply to a raw request, given the site's files.
pub open spec fn reply_spec(
    request: Seq<char>,
    index_html: Seq<char>,
    app_js: Seq<char>,
    styles_css: Seq<char>,
) -> (Seq<char>, Seq<char>) {
    let r = route_of(request_target_spec(request));
    let body = body_of(r, index_html, app_js, styles_css);
    let header = if r == Route::NotFound {
        not_found_header(byte_len(body))
    } else {
        ok_header(content_type_of(r), byte_len(body))
    };
    (header, body)
}

/// Answers one request: finds the target on the first line, picks the page
/// and builds the reply.
pub fn handle_request<'a>(request: &str, site: &Site<'a>) -> (reply: Reply<'a>)
    ensures
        (reply.header@, reply.body@) == reply_spec(
            request@,
            site.index_html@,
            site.app_js@,
            site.styles_css@,
        ),
{
    let target = request_target(request);
    match route(&target) {
        Route::Index => respond("text/html; charset=utf-8", site.index_html),
        Route::Script => respond("application/javascript; charset=utf-8", site.app_js),
        Route::Styles => respond("text/css; charset=utf-8", site.styles_css),
        Route::Health => respond("text/plain; charset=utf-8", "ok"),
        Route::NotFound => respond_not_found(),
    }
}

/// What `String::from_utf8_lossy` makes of a byte sequence.
pub uninterp spec fn utf8_lossy(bytes: Seq<u8>) -> Seq<char>;

/// `String::from_utf8_lossy` (std), made owned: decodes bytes as UTF-8,
/// putting U+FFFD in place of each invalid sequence. Claimed: the result
/// depends on the bytes alone; for valid input it is exactly the decoded
/// characters; and it starts with the decoding of every valid prefix of the
/// bytes (valid text before the first invalid sequence is kept as it is).
/// What stands in for the invalid sequences is left unsaid.
#[verifier::external_body]
fn decode_lossy(bytes: &[u8]) -> (text: String)
    ensures
        text@ == utf8_lossy(bytes@),
        valid_utf8(bytes@) ==> text@ == decode_utf8(bytes@),
        forall|n: int|
            0 <= n <= bytes@.len() && valid_utf8(#[trigger] bytes@.take(n)) ==> decode_utf8(bytes@.take(n)).is_prefix_of(
                text@,
            ),
{
    String::from_utf8_lossy(bytes).into_owned()
}

proof fn lemma_first_line_of_longer(a: Seq<char>, b: Seq<char>)
    requires
        a.contains('\n'),
    ensures
        first_line(a + b) == first_line(a),
    decreases a.len(),
{
    let t = a + b;
    if a[0] != '\n' {
        let i = choose|i: int| 0 <= i < a.len() && a[i] == '\n';
        assert(a.drop_first()[i - 1] == '\n');
        lemma_first_line_of_longer(a.drop_first(), b);
        assert(t.drop_first() =~= a.drop_first() + b);
    }
}

/// Answers a request as read from the connection: decodes its bytes
/// (invalid UTF-8 replaced), then answers the text. When a valid prefix of
/// the bytes already holds the whole first line, the reply is the one to that
/// prefix, so a read that cuts a character short after the first line is
/// answered as if it had not.
pub fn handle_raw_request<'a>(bytes: &[u8], site: &Site<'a>) -> (reply: Reply<'a>)
    ensures
        (reply.header@, reply.body@) == reply_spec(
            utf8_lossy(bytes@),
            site.index_html@,
            site.app_js@,
            site.styles_css@,
        ),
        valid_utf8(bytes@) ==> (reply.header@, reply.body@) == reply_spec(
            decode_utf8(bytes@),
            site.index_html@,
            site.app_js@,
            site.styles_css@,
        ),
        forall|n: int|
            0 <= n <= bytes@.len() && valid_utf8(#[trigger] bytes@.take(n)) && decode_utf8(bytes@.take(n)).contains('\n')
                ==> (reply.header@, reply.body@) == reply_spec(
                decode_utf8(bytes@.take(n)),
                site.index_html@,
                site.app_js@,
                site.styles_css@,
            ),
{
    let request = decode_lossy(bytes);
    let reply = handle_request(request.as_str(), site);
    assert forall|n: int|
        0 <= n <= bytes@.len() && valid_utf8(#[trigger] bytes@.take(n)) && decode_utf8(bytes@.take(n)).contains('\n')
            implies (reply.header@, reply.body@) == reply_spec(
            decode_utf8(bytes@.take(n)),
            site.index_html@,
            site.app_js@,
            site.styles_css@,
        ) by {
        let p = decode_utf8(bytes@.take(n));
        let rest = request@.skip(p.len() as int);
        assert(request@ =~= p + rest);
        lemma_first_line_of_longer(p, rest);
    }
    reply
}

proof fn lemma_first_line_idempotent(s: Seq<char>)
    ensures
        first_line(first_line(s)) == first_line(s),
    decreases s.len(),
{
    if s.len() > 0 && s[0] != '\n' {
        let t = first_line(s.drop_first());
        lemma_first_line_idempotent(s.drop_first());
        let u = seq![s[0]] + t;
        assert(u[0] == s[0]);
        assert(u.drop_first() =~= t);
    }
}

/// Only the first line of a request decides what is served: cutting the
/// request at its first line feed changes nothing.
pub proof fn only_first_line_matters(request: Seq<char>)
    ensures
        request_target_spec(first_line(request)) == request_target_spec(request),
{
    lemma_first_line_idempotent(request);
}

/// `/` and `/index.html` are the same page, and a first line with fewer than
/// two words asks for it too.
pub proof fn index_aliases(
    request: Seq<char>,
    index_html: Seq<char>,
    app_js: Seq<char>,
    styles_css: Seq<char>,
)
    ensures
        route_of("/"@) == Route::Index,
        route_of("/index.html"@) == Route::Index,
        words(first_line(request)).len() < 2 ==> route_of(request_target_spec(request)) == Route::Index,
        route_of(request_target_spec(request)) == Route::Index ==> reply_spec(
            request,
            index_html,
            app_js,
            styles_css,
        ) == (ok_header("text/html; charset=utf-8"@, byte_len(index_html)), index_html),
{
    reveal_strlit("/");
    assert("/"@ =~= seq!['/']);
}

/// Every reply's `Content-Length` is the decimal numeral of the UTF-8 length
/// of the body that follows, and it reads back as that length.
pub proof fn reply_states_body_length(
    request: Seq<char>,
    index_html: Seq<char>,
    app_js: Seq<char>,
    styles_css: Seq<char>,
)
    ensures
        ({
            let (header, body) = reply_spec(request, index_html, app_js, styles_css);
            let r = route_of(request_target_spec(request));
            &&& r != Route::NotFound ==> header == "HTTP/1.1 200 OK\r\nContent-Type: "@
                + content_type_of(r) + "\r\nContent-Length: "@ + decimal(byte_len(body))
                + "\r\nCache-Control: no-store\r\nConnection: close\r\n\r\n"@
            &&& r == Route::NotFound ==> header
                == "HTTP/1.1 404 Not Found\r\nContent-Type: text/plain; charset=utf-8\r\nContent-Length: "@
                + decimal(byte_len(body)) + "\r\nConnection: close\r\n\r\n"@
            &&& crate::text::decimal_value(decimal(byte_len(body))) == byte_len(body)
        }),
{
    let (header, body) = reply_spec(request, index_html, app_js, styles_css);
    crate::text::decimal_round_trip(byte_len(body));
}

proof fn lemma_word_then(w: Seq<char>, r: Seq<char>, cur: Seq<char>)
    requires
        forall|i: int| 0 <= i < w.len() ==> !is_white_space(#[trigger] w[i]),
    ensures
        words_from(w + r, cur) == words_from(r, cur + w),
    decreases w.len(),
{
    if w.len() == 0 {
        assert(w + r =~= r);
        assert(cur + w =~= cur);
    } else {
        assert((w + r)[0] == w[0]);
        assert((w + r).drop_first() =~= w.drop_first() + r);
        lemma_word_then(w.drop_first(), r, cur.push(w[0]));
        assert(cur.push(w[0]) + w.drop_first() =~= cur + w);
    }
}

proof fn lemma_space_then(c: char, r: Seq<char>, cur: Seq<char>)
    requires
        is_white_space(c),
        cur.len() > 0,
    ensures
        words_from(seq![c] + r, cur) == seq![cur] + words_from(r, Seq::empty()),
{
    assert((seq![c] + r)[0] == c);
    assert((seq![c] + r).drop_first() =~= r);
}

proof fn lemma_first_line_ends_at_feed(a: Seq<char>, b: Seq<char>)
    requires
        !a.contains('\n'),
    ensures
        first_line(a + seq!['\n'] + b) == a,
    decreases a.len(),
{
    let t = a + seq!['\n'] + b;
    if a.len() == 0 {
        assert(t[0] == '\n');
    } else {
        assert(t[0] == a[0]);
        assert(!a.drop_first().contains('\n')) by {
            if a.drop_first().contains('\n') {
                let i = choose|i: int| 0 <= i < a.drop_first().len() && a.drop_first()[i] == '\n';
                assert(a[i + 1] == '\n');
            }
        }
        assert(t.drop_first() =~= a.drop_first() + seq!['\n'] + b);
        lemma_first_line_ends_at_feed(a.drop_first(), b);
        assert(seq![a[0]] + a.drop_first() =~= a);
    }
}

/// A request line `METHOD TARGET VERSION` followed by a line feed names
/// `TARGET`, whatever headers follow: the request target is the second word
/// of the request line.
pub proof fn request_line_names_target(method: Seq<char>, target: Seq<char>, version: Seq<char>, rest: Seq<char>)
    requires
        method.len() > 0,
        target.len() > 0,
        version.len() > 0,
        forall|i: int| 0 <= i < method.len() ==> !is_white_space(#[trigger] method[i]),
        forall|i: int| 0 <= i < target.len() ==> !is_white_space(#[trigger] target[i]),
        forall|i: int| 0 <= i < version.len() ==> !is_white_space(#[trigger] version[i]),
    ensures
        request_target_spec(method + seq![' '] + target + seq![' '] + version + seq!['\r', '\n'] + rest) == target,
{
    let line = method + seq![' '] + target + seq![' '] + version + seq!['\r'];
    let request = method + seq![' '] + target + seq![' '] + version + seq!['\r', '\n'] + rest;
    assert(request =~= line + seq!['\n'] + rest);
    assert(is_white_space(' '));
    assert(is_white_space('\r'));
    assert(!line.contains('\n')) by {
        if line.contains('\n') {
            let i = choose|i: int| 0 <= i < line.len() && line[i] == '\n';
            assert(is_white_space('\n'));
            if i < method.len() {
                assert(method[i] == '\n');
            } else if i == method.len() {
            } else if i < method.len() + 1 + target.len() {
                assert(target[i - method.len() - 1] == '\n');
            } else if i == method.len() + 1 + target.len() {
            } else if i < method.len() + 2 + target.len() + version.len() {
                assert(version[i - method.len() - 2 - target.len()] == '\n');
            }
        }
    }
    lemma_first_line_ends_at_feed(line, rest);
    let x1 = seq![' '] + target + seq![' '] + version + seq!['\r'];
    let x2 = seq![' '] + version + seq!['\r'];
    let x3 = seq!['\r'];
    let e = Seq::<char>::empty();
    assert(line =~= method + x1);
    lemma_word_then(method, x1, e);
    assert(e + method =~= method);
    assert(x1 =~= seq![' '] + (target + x2));
    lemma_space_then(' ', target + x2, method);
    lemma_word_then(target, x2, e);
    assert(e + target =~= target);
    assert(x2 =~= seq![' '] + (version + x3));
    lemma_space_then(' ', version + x3, target);
    lemma_word_then(version, x3, e);
    assert(e + version =~= version);
    assert(x3 =~= seq!['\r'] + e);
    lemma_space_then('\r', e, version);
    let w = words(line);
    assert(w =~= seq![method] + (seq![target] + (seq![version] + words_from(e, e))));
    assert(w[1] == target);
}

/// Each page is served whole, with its own content type and its exact
/// length; a target that names no page gets the 404 reply.
pub proof fn pages_are_served_whole(
    request: Seq<char>,
    index_html: Seq<char>,
    app_js: Seq<char>,
    styles_css: Seq<char>,
)
    ensures
        ({
            let (header, body) = reply_spec(request, index_html, app_js, styles_css);
            let t = request_target_spec(request);
            &&& (t == "/"@ || t == "/index.html"@) ==> body == index_html && header
                == "HTTP/1.1 200 OK\r\nContent-Type: "@ + "text/html; charset=utf-8"@ + "\r\nContent-Length: "@
                + decimal(encode_utf8(index_html).len()) + "\r\nCache-Control: no-store\r\nConnection: close\r\n\r\n"@
            &&& t == "/app.js"@ ==> body == app_js && header
                == "HTTP/1.1 200 OK\r\nContent-Type: "@ + "application/javascript; charset=utf-8"@ + "\r\nContent-Length: "@
                + decimal(encode_utf8(app_js).len()) + "\r\nCache-Control: no-store\r\nConnection: close\r\n\r\n"@
            &&& t == "/styles.css"@ ==> body == styles_css && header
                == "HTTP/1.1 200 OK\r\nContent-Type: "@ + "text/css; charset=utf-8"@ + "\r\nContent-Length: "@
                + decimal(encode_utf8(styles_css).len()) + "\r\nCache-Control: no-store\r\nConnection: close\r\n\r\n"@
            &&& t == "/health"@ ==> body == "ok"@ && header
                == "HTTP/1.1 200 OK\r\nContent-Type: "@ + "text/plain; charset=utf-8"@ + "\r\nContent-Length: "@
                + decimal(encode_utf8("ok"@).len()) + "\r\nCache-Control: no-store\r\nConnection: close\r\n\r\n"@
            &&& (t != "/"@ && t != "/index.html"@ && t != "/app.js"@ && t != "/styles.css"@ && t != "/health"@)
                ==> body == "Not found"@ && header
                == "HTTP/1.1 404 Not Found\r\nContent-Type: text/plain; charset=utf-8\r\nContent-Length: "@
                + decimal(encode_utf8("Not found"@).len()) + "\r\nConnection: close\r\n\r\n"@
        }),
{
    reveal_strlit("/");
    reveal_strlit("/index.html");
    reveal_strlit("/app.js");
    reveal_strlit("/styles.css");
    reveal_strlit("/health");
    assert("/app.js"@ != "/"@ && "/app.js"@ != "/index.html"@) by {
        assert("/app.js"@.len() != "/"@.len() && "/app.js"@.len() != "/index.html"@.len());
    }
    assert("/styles.css"@ != "/"@ && "/styles.css"@ != "/index.html"@ && "/styles.css"@ != "/app.js"@) by {
        assert("/styles.css"@.len() != "/"@.len());
        assert("/styles.css"@[1] != "/index.html"@[1]);
        assert("/styles.css"@.len() != "/app.js"@.len());
    }
    assert("/health"@ != "/"@ && "/health"@ != "/index.html"@ && "/health"@ != "/app.js"@ && "/health"@
        != "/styles.css"@) by {
        assert("/health"@.len() != "/"@.len());
        assert("/health"@.len() != "/index.html"@.len());
        assert("/health"@[1] != "/app.js"@[1]);
        assert("/health"@.len() != "/styles.css"@.len());
    }
}

} // verus!
