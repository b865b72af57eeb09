//! The chat-completion request: where it goes and what its reply means.

use vstd::prelude::*;
use crate::text::chars_of;

verus! {

/// A JSON document as the reply carries it. Numbers are kept as the text
/// they were written with; object members keep their order.
#[derive(Debug, PartialEq, Eq)]
pub enum JsonValue {
    Null,
    Bool(bool),
    Number(String),
    Str(String),
    Array(Vec<JsonValue>),
    Object(Vec<(String, JsonValue)>),
}

/// The value of member `key` among `entries`; the last one wins when a key
/// repeats, as when a JSON object is read into a map.
pub open spec fn member(entries: Seq<(String, JsonValue)>, key: Seq<char>) -> Option<JsonValue>
    decreases entries.len(),
{
    if entries.len() == 0 {
        None
    } else if entries.last().0@ == key {
        Some(entries.last().1)
    } else {
        member(entries.drop_last(), key)
    }
}

/// `v[key]` when `v` is an object that has that member.
pub open spec fn field_spec(v: JsonValue, key: Seq<char>) -> Option<JsonValue> {
    match v {
        JsonValue::Object(entries) => member(entries@, key),
        _ => None,
    }
}

/// `v[index]` when `v` is an array that long.
pub open spec fn element_spec(v: JsonValue, index: int) -> Option<JsonValue> {
    match v {
        JsonValue::Array(items) => if 0 <= index < items@.len() { Some(items@[index]) } else { None },
        _ => None,
    }
}

/// The text of `v` when it is a string.
pub open spec fn text_spec(v: JsonValue) -> Option<Seq<char>> {
    match v {
        JsonValue::Str(s) => Some(s@),
        _ => None,
    }
}

/// Looks up member `key` of an object.
pub fn field<'a>(v: &'a JsonValue, key: &str) -> (r: Option<&'a JsonValue>)
    ensures
        match r {
            Some(x) => field_spec(*v, key@) == Some(*x),
            None => field_spec(*v, key@) is None,
        },
{
    match v {
        JsonValue::Object(entries) => {
            let wanted = String::from_str(key);
            let mut i = entries.len();
            assert(entries@.take(i as int) =~= entries@);
            while i > 0
                invariant
                    i <= entries@.len(),
                    wanted@ == key@,
                    field_spec(*v, key@) == member(entries@, key@),
                    member(entries@, key@) == member(entries@.take(i as int), key@),
                decreases i,
            {
                let ghost prefix = entries@.take(i as int);
                assert(prefix.drop_last() =~= entries@.take(i - 1));
                assert(prefix.last() == entries@[i - 1]);
                if entries[i - 1].0 == wanted {
                    assert(member(prefix, key@) == Some(prefix.last().1));
                    return Some(&entries[i - 1].1);
                }
                i = i - 1;
            }
            assert(entries@.take(0) =~= Seq::<(String, JsonValue)>::empty());
            None
        },
        _ => None,
    }
}

/// Looks up element `index` of an array.
pub fn element<'a>(v: &'a JsonValue, index: usize) -> (r: Option<&'a JsonValue>)
    ensures
        match r {
            Some(x) => element_spec(*v, index as int) == Some(*x),
            None => element_spec(*v, index as int) is None,
        },
{
    match v {
        JsonValue::Array(items) => if index < items.len() { Some(&items[index]) } else { None },
        _ => None,
    }
}

/// The text of a string value.
pub fn text<'a>(v: &'a JsonValue) -> (r: Option<&'a String>)
    ensures
        match r {
            Some(s) => text_spec(*v) == Some(s@),
            None => text_spec(*v) is None,
        },
{
    match v {
        JsonValue::Str(s) => Some(s),
        _ => None,
    }
}

/// `choices[0].message.content` of a reply, when that is a string.
pub open spec fn reply_content_spec(body: JsonValue) -> Option<Seq<char>> {
    match field_spec(body, "choices"@) {
        Some(choices) => match element_spec(choices, 0) {
            Some(choice) => match field_spec(choice, "message"@) {
                Some(message) => match field_spec(message, "content"@) {
                    Some(content) => text_spec(content),
                    None => None,
                },
                None => None,
            },
            None => None,
        },
        None => None,
    }
}

/// The assistant's answer in a reply body: `choices[0].message.content`
/// when it is a string, else nothing.
pub fn reply_content(body: &JsonValue) -> (r: Option<String>)
    ensures
        match r {
            Some(s) => reply_content_spec(*body) == Some(s@),
            None => reply_content_spec(*body) is None,
        },
{
    let choices = match field(body, "choices") {
        Some(c) => c,
        None => return None,
    };
    let choice = match element(choices, 0) {
        Some(c) => c,
        None => return None,
    };
    let message = match field(choice, "message") {
        Some(m) => m,
        None => return None,
    };
    let content = match field(message, "content") {
        Some(c) => c,
        None => return None,
    };
    match text(content) {
        Some(s) => Some(s.clone()),
        None => None,
    }
}

/// A status code in the success class (`200..=299`), as
/// `StatusCode::is_success` tells it.
pub open spec fn is_success_spec(status: u16) -> bool {
    200 <= status <= 299
}

/// Whether a status code is in the success class.
pub fn status_is_success(status: u16) -> (b: bool)
    ensures
        b == is_success_spec(status),
{
    200 <= status && status <= 299
}

/// What the chat command answers.
#[derive(Debug, PartialEq, Eq)]
pub struct ChatResponse {
    pub content: String,
}

/// What the chat command answers to a reply, as text: the error message or
/// the answer.
pub open spec fn chat_reply_spec(status: u16, body: JsonValue, body_text: Seq<char>) -> Result<Seq<char>, Seq<char>> {
    if !is_success_spec(status) {
        Err(body_text)
    } else {
        let content = match reply_content_spec(body) {
            Some(c) => c,
            None => Seq::empty(),
        };
        if content.len() == 0 {
            Err("模型没有返回内容："@ + body_text)
        } else {
            Ok(content)
        }
    }
}

/// Interprets a reply: its status code, its body, and the body written out
/// compactly as JSON text. A failure status gives back the body text; a
/// missing or empty answer is an error too.
pub fn chat_reply(status: u16, body: &JsonValue, body_text: &str) -> (r: Result<ChatResponse, String>)
    ensures
        match r {
            Ok(resp) => chat_reply_spec(status, *body, body_text@) == Ok::<Seq<char>, Seq<char>>(resp.content@),
            Err(e) => chat_reply_spec(status, *body, body_text@) == Err::<Seq<char>, Seq<char>>(e@),
        },
{
    if !status_is_success(status) {
        return Err(String::from_str(body_text));
    }
    let content = match reply_content(body) {
        Some(c) => c,
        None => String::new(),
    };
    if content.as_str().is_empty() {
        let mut message = String::from_str("模型没有返回内容：");
        message.append(body_text);
        Err(message)
    } else {
        Ok(ChatResponse { content })
    }
}

/// `s` without the `/` characters it ends with.
pub open spec fn trim_trailing_slashes(s: Seq<char>) -> Seq<char>
    decreases s.len(),
{
    if s.len() > 0 && s.last() == '/' {
        trim_trailing_slashes(s.drop_last())
    } else {
        s
    }
}

/// The chat-completions endpoint under a base address.
pub open spec fn completions_url_spec(base_url: Seq<char>) -> Seq<char> {
    trim_trailing_slashes(base_url) + "/chat/completions"@
}

/// The chat-completions endpoint under `base_url`, whatever number of `/`
/// the base ends with.
pub fn completions_url(base_url: &str) -> (url: String)
    ensures
        url@ == completions_url_spec(base_url@),
{
    let chars = chars_of(base_url);
    let mut end = chars.len();
    assert(chars@.take(end as int) =~= base_url@);
    while end > 0 && chars[end - 1] == '/'
        invariant
            end <= chars@.len(),
            chars@ == base_url@,
            trim_trailing_slashes(base_url@) == trim_trailing_slashes(chars@.take(end as int)),
        decreases end,
    {
        assert(chars@.take(end as int).drop_last() =~= chars@.take(end - 1));
        end = end - 1;
    }
    let mut url = String::from_str(base_url.substring_char(0, end));
    url.append("/chat/completions");
    url
}

/// Why a chat request produced no reply to interpret.
#[derive(Debug, PartialEq, Eq)]
pub enum ChatFailure {
    /// The HTTP client could not be set up; carries its error text.
    Client(String),
    /// The request could not be sent or answered; carries the error text.
    Network(String),
    /// The reply was not JSON; carries the error text.
    Decode(String),
}

/// The message the chat command answers with for a failure.
pub open spec fn failure_message_spec(f: ChatFailure) -> Seq<char> {
    match f {
        ChatFailure::Client(e) => e@,
        ChatFailure::Network(e) => "网络请求失败："@ + e@,
        ChatFailure::Decode(e) => "响应解析失败："@ + e@,
    }
}

/// The message the chat command answers with for a failure.
pub fn failure_message(f: &ChatFailure) -> (m: String)
    ensures
        m@ == failure_message_spec(*f),
{
    match f {
        ChatFailure::Client(e) => e.clone(),
        ChatFailure::Network(e) => {
            let mut m = String::from_str("网络请求失败：");
            m.append(e.as_str());
            m
        },
        ChatFailure::Decode(e) => {
            let mut m = String::from_str("响应解析失败：");
            m.append(e.as_str());
            m
        },
    }
}

proof fn lemma_trim_ends_clean(s: Seq<char>)
    ensures
        trim_trailing_slashes(s).len() == 0 || trim_trailing_slashes(s).last() != '/',
        trim_trailing_slashes(trim_trailing_slashes(s)) == trim_trailing_slashes(s),
    decreases s.len(),
{
    if s.len() > 0 && s.last() == '/' {
        lemma_trim_ends_clean(s.drop_last());
    }
}

/// Trailing slashes on the base address never matter, and never double the
/// `/` before `chat/completions`.
pub proof fn trailing_slashes_do_not_matter(base_url: Seq<char>)
    ensures
        completions_url_spec(base_url.push('/')) == completions_url_spec(base_url),
        completions_url_spec(completions_url_spec(base_url).take(trim_trailing_slashes(base_url).len() as int))
            == completions_url_spec(base_url),
        trim_trailing_slashes(base_url).len() == 0 || trim_trailing_slashes(base_url).last() != '/',
{
    assert(base_url.push('/').drop_last() =~= base_url);
    lemma_trim_ends_clean(base_url);
    let t = trim_trailing_slashes(base_url);
    assert(completions_url_spec(base_url).take(t.len() as int) =~= t);
}

/// The chat command answers only when the status is a success and the
/// answer has text; a failure status always answers with the body text.
pub proof fn answers_only_on_success(status: u16, body: JsonValue, body_text: Seq<char>)
    ensures
        chat_reply_spec(status, body, body_text) matches Ok(c) ==> is_success_spec(status) && c.len() > 0
            && reply_content_spec(body) == Some(c),
        !is_success_spec(status) ==> chat_reply_spec(status, body, body_text) == Err::<Seq<char>, Seq<char>>(body_text),
{
}

/// A member lookup finds the value of the last member with that key, and
/// nothing when no member has it.
pub proof fn member_is_last_with_key(entries: Seq<(String, JsonValue)>, key: Seq<char>)
    ensures
        forall|i: int|
            0 <= i < entries.len() && #[trigger] entries[i].0@ == key && (forall|j: int|
                i < j < entries.len() ==> entries[j].0@ != key) ==> member(entries, key) == Some(entries[i].1),
        (forall|i: int| 0 <= i < entries.len() ==> #[trigger] entries[i].0@ != key) ==> member(entries, key) is None,
    decreases entries.len(),
{
    if entries.len() > 0 {
        let rest = entries.drop_last();
        member_is_last_with_key(rest, key);
        assert forall|i: int|
            0 <= i < entries.len() && #[trigger] entries[i].0@ == key && (forall|j: int|
                i < j < entries.len() ==> entries[j].0@ != key) implies member(entries, key) == Some(entries[i].1) by {
            if i < entries.len() - 1 {
                assert(entries[entries.len() - 1].0@ != key);
                assert(rest[i] == entries[i]);
                assert forall|j: int| i < j < rest.len() implies rest[j].0@ != key by {
                    assert(rest[j] == entries[j]);
                }
            }
        }
        if forall|i: int| 0 <= i < entries.len() ==> #[trigger] entries[i].0@ != key {
            assert forall|i: int| 0 <= i < rest.len() implies #[trigger] rest[i].0@ != key by {
                assert(rest[i] == entries[i]);
            }
            assert(entries[entries.len() - 1].0@ != key);
        }
    }
}

/// The answer is the text at `choices[0].message.content`, whole; a success
/// status with a non-empty answer gives exactly that answer, an empty answer
/// or a failure status gives the error text.
pub proof fn answer_is_read_whole(
    body: JsonValue,
    choices: JsonValue,
    choice: JsonValue,
    message: JsonValue,
    content: String,
    status: u16,
    body_text: Seq<char>,
)
    requires
        field_spec(body, "choices"@) == Some(choices),
        element_spec(choices, 0) == Some(choice),
        field_spec(choice, "message"@) == Some(message),
        field_spec(message, "content"@) == Some(JsonValue::Str(content)),
    ensures
        reply_content_spec(body) == Some(content@),
        200 <= status <= 299 && content@.len() > 0 ==> chat_reply_spec(status, body, body_text) == Ok::<
            Seq<char>,
            Seq<char>,
        >(content@),
        200 <= status <= 299 && content@.len() == 0 ==> chat_reply_spec(status, body, body_text) == Err::<
            Seq<char>,
            Seq<char>,
        >("模型没有返回内容："@ + body_text),
        !(200 <= status <= 299) ==> chat_reply_spec(status, body, body_text) == Err::<Seq<char>, Seq<char>>(body_text),
{
}

/// Element `k` of an array is its `k`th item when there is one.
pub proof fn element_is_item(items: Vec<JsonValue>, k: int)
    ensures
        0 <= k < items@.len() ==> element_spec(JsonValue::Array(items), k) == Some(items@[k]),
        !(0 <= k < items@.len()) ==> element_spec(JsonValue::Array(items), k) is None,
{
}

/// A base address that does not end with `/` gets `/chat/completions`
/// appended as it is; any `/` it ends with are dropped first.
pub proof fn completions_url_appends_path(base_url: Seq<char>, slashes: nat)
    requires
        base_url.len() == 0 || base_url.last() != '/',
    ensures
        completions_url_spec(base_url) == base_url + "/chat/completions"@,
        completions_url_spec(base_url + Seq::new(slashes, |i: int| '/')) == base_url + "/chat/completions"@,
    decreases slashes,
{
    if slashes > 0 {
        let more = base_url + Seq::new(slashes, |i: int| '/');
        assert(more.last() == '/');
        assert(more.drop_last() =~= base_url + Seq::new((slashes - 1) as nat, |i: int| '/'));
        completions_url_appends_path(base_url, (slashes - 1) as nat);
    } else {
        assert(base_url + Seq::new(slashes, |i: int| '/') =~= base_url);
    }
}

} // verus!
