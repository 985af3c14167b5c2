//! The chat-completion service: its messages, its failures, its settings,
//! and the decoder of the event stream in which an answer arrives piece by piece.

use vstd::prelude::*;
use vstd::slice::slice_subrange;
use vstd::string::StringExecFns;
use crate::json::{json_object_text, json_string_text, object_value, text_value, write_json};
use crate::text::{begins_with, decimal, decimal_text, prefixed, starts_with};

verus! {

/// A failure of the chat-completion service.
#[derive(Debug)]
pub enum LLMError {
    /// The settings are incomplete.
    Config(String),
    /// The request could not be made; the text of the transport's failure.
    Request(String),
    /// The service answered with a failure.
    Api(String),
    /// The service refused for the number of requests.
    RateLimit,
    /// The connection failed.
    Network(String),
}

/// A failure, with each text as the sequence of its characters.
pub enum LLMErrorView {
    Config(Seq<char>),
    Request(Seq<char>),
    Api(Seq<char>),
    RateLimit,
    Network(Seq<char>),
}

impl View for LLMError {
    type V = LLMErrorView;

    open spec fn view(&self) -> LLMErrorView {
        match *self {
            LLMError::Config(s) => LLMErrorView::Config(s@),
            LLMError::Request(s) => LLMErrorView::Request(s@),
            LLMError::Api(s) => LLMErrorView::Api(s@),
            LLMError::RateLimit => LLMErrorView::RateLimit,
            LLMError::Network(s) => LLMErrorView::Network(s@),
        }
    }
}

impl LLMErrorView {
    /// The failure in words.
    pub open spec fn message(self) -> Seq<char> {
        match self {
            LLMErrorView::Config(s) => "Configuration error: "@ + s,
            LLMErrorView::Request(s) => "API request failed: "@ + s,
            LLMErrorView::Api(s) => "API response error: "@ + s,
            LLMErrorView::RateLimit => "Rate limit exceeded"@,
            LLMErrorView::Network(s) => "Network error: "@ + s,
        }
    }
}

impl LLMError {
    /// The failure in words.
    pub fn to_string(&self) -> (text: String)
        ensures
            text@ == self@.message(),
    {
        match self {
            LLMError::Config(s) => prefixed("Configuration error: ", s.as_str()),
            LLMError::Request(s) => prefixed("API request failed: ", s.as_str()),
            LLMError::Api(s) => prefixed("API response error: ", s.as_str()),
            LLMError::RateLimit => String::from_str("Rate limit exceeded"),
            LLMError::Network(s) => prefixed("Network error: ", s.as_str()),
        }
    }
}

/// One message of a conversation.
#[derive(Debug)]
pub struct LLMMessage {
    pub role: String,
    pub content: String,
}

/// The JSON text of a message: the object of its members `role` and
/// `content`, each a JSON string.
pub open spec fn message_text(role: Seq<char>, content: Seq<char>) -> Seq<char> {
    json_object_text(
        seq![("role"@, json_string_text(role)), ("content"@, json_string_text(content))],
    )
}

impl LLMMessage {
    /// Writes the message as JSON: an object with the members `role` and
    /// `content`. What is written is the text of that object.
    pub fn encode(&self) -> (written: Option<String>)
        ensures
            written matches Some(text) && text@ == message_text(self.role@, self.content@),
    {
        let mut members: Vec<(String, serde_json::Value)> = Vec::new();
        members.push((String::from_str("role"), text_value(self.role.as_str())));
        members.push((String::from_str("content"), text_value(self.content.as_str())));
        assert(crate::json::member_texts(members@) =~= seq![
            ("role"@, json_string_text(self.role@)),
            ("content"@, json_string_text(self.content@)),
        ]);
        match write_json(&object_value(members)) {
            Ok(text) => Some(text),
            Err(_) => None,
        }
    }
}

/// One answer among those that the service offers.
#[derive(Debug)]
pub struct LLMChoice {
    pub message: LLMResponseMessage,
    pub finish_reason: Option<String>,
}

/// The message of an answer.
#[derive(Debug)]
pub struct LLMResponseMessage {
    pub role: String,
    pub content: String,
}

/// What a completion cost, in tokens.
#[derive(Debug)]
pub struct LLMUsage {
    pub prompt_tokens: u32,
    pub completion_tokens: u32,
    pub total_tokens: u32,
}

/// A completion.
#[derive(Debug)]
pub struct LLMResponse {
    pub id: String,
    pub choices: Vec<LLMChoice>,
    pub usage: Option<LLMUsage>,
}

/// One answer's next piece.
#[derive(Debug)]
pub struct LLMStreamChoice {
    pub delta: LLMStreamDelta,
    pub finish_reason: Option<String>,
}

/// What a piece adds to an answer.
#[derive(Debug)]
pub struct LLMStreamDelta {
    pub role: Option<String>,
    pub content: Option<String>,
}

/// One event of a streamed completion.
#[derive(Debug)]
pub struct LLMStreamChunk {
    pub id: String,
    pub choices: Vec<LLMStreamChoice>,
}

/// The body of an answer that reports a failure.
#[derive(Debug)]
pub struct LLMErrorResponse {
    pub error: ApiErrorDetail,
}

/// The failure that the service reports.
#[derive(Debug)]
pub struct ApiErrorDetail {
    pub message: String,
    pub error_type: Option<String>,
}

/// What a text becomes when it is read as UTF-8 with every malformed
/// sequence replaced by U+FFFD, as `String::from_utf8_lossy` does.
pub uninterp spec fn utf8_lossy(bytes: Seq<u8>) -> Seq<char>;

/// `String::from_utf8_lossy` of std: reads bytes as UTF-8 and replaces what
/// is malformed. The text depends on the bytes alone; it is named, not stated.
#[verifier::external_body]
fn lossy_text(bytes: &[u8]) -> (text: String)
    ensures
        text@ == utf8_lossy(bytes@),
{
    String::from_utf8_lossy(bytes).into_owned()
}

/// The bytes of `data: `, with which every event begins.
pub open spec fn data_prefix() -> Seq<u8> {
    seq![100u8, 97u8, 116u8, 97u8, 58u8, 32u8]
}

/// Whether the bytes begin with `data: `.
pub open spec fn has_data_prefix(buffer: Seq<u8>) -> bool {
    buffer.len() >= 6 && buffer.subrange(0, 6) == data_prefix()
}

/// Whether an empty line ends at `i`: two line feeds stand at `i` and `i + 1`.
pub open spec fn is_break(buffer: Seq<u8>, i: int) -> bool {
    0 <= i && i + 1 < buffer.len() && buffer[i] == 10 && buffer[i + 1] == 10
}

/// Whether the first empty line of the buffer is at `i`.
pub open spec fn is_first_break(buffer: Seq<u8>, i: int) -> bool {
    is_break(buffer, i) && forall|j: int| 0 <= j < i ==> !is_break(buffer, j)
}

/// The first event of the buffer and what follows it. There is one if
/// the buffer begins with `data: ` and holds an empty line: the event is
/// what stands between the two.
pub open spec fn next_event(buffer: Seq<u8>) -> Option<(Seq<u8>, Seq<u8>)> {
    if has_data_prefix(buffer) && exists|i: int| is_first_break(buffer, i) {
        let i = choose|i: int| is_first_break(buffer, i);
        Some((buffer.subrange(6, i), buffer.subrange(i + 2, buffer.len() as int)))
    } else {
        None
    }
}

/// Whether an event carries a piece of the answer: it is not empty and is
/// not the mark of the stream's end.
pub open spec fn is_payload(event: Seq<char>) -> bool {
    event.len() > 0 && !begins_with(event, "[DONE]"@)
}

/// The events of the buffer that carry a piece of the answer, in order.
pub open spec fn payloads_of(buffer: Seq<u8>) -> Seq<Seq<char>>
    decreases buffer.len(),
{
    match next_event(buffer) {
        None => Seq::empty(),
        Some((event, rest)) => {
            proof {
                lemma_event_shortens(buffer);
            }
            if is_payload(utf8_lossy(event)) {
                seq![utf8_lossy(event)] + payloads_of(rest)
            } else {
                payloads_of(rest)
            }
        },
    }
}

/// What is left of the buffer after its events.
pub open spec fn remainder_of(buffer: Seq<u8>) -> Seq<u8>
    decreases buffer.len(),
{
    match next_event(buffer) {
        None => buffer,
        Some((event, rest)) => {
            proof {
                lemma_event_shortens(buffer);
            }
            remainder_of(rest)
        },
    }
}

/// An event and the empty line after it take at least eight bytes: what
/// follows an event is shorter than the buffer by that much.
pub proof fn lemma_event_shortens(buffer: Seq<u8>)
    ensures
        next_event(buffer) matches Some((event, rest)) ==> rest.len() + 8 <= buffer.len()
            && event.len() + 8 + rest.len() == buffer.len(),
{
    if has_data_prefix(buffer) && exists|i: int| is_first_break(buffer, i) {
        let i = choose|i: int| is_first_break(buffer, i);
        lemma_break_after_prefix(buffer, i);
    }
}

/// The first empty line of a buffer is where it is.
proof fn lemma_first_break_unique(buffer: Seq<u8>, i: int, j: int)
    requires
        is_first_break(buffer, i),
        is_first_break(buffer, j),
    ensures
        i == j,
{
}

/// In a buffer that begins with `data: ` no empty line stands within
/// those six bytes.
proof fn lemma_break_after_prefix(buffer: Seq<u8>, i: int)
    requires
        has_data_prefix(buffer),
        is_break(buffer, i),
    ensures
        i >= 6,
{
    if i < 6 {
        assert(buffer.subrange(0, 6)[i] == data_prefix()[i]);
    }
}

/// An event that is whole stays the first event when more bytes arrive.
proof fn lemma_next_event_extends(buffer: Seq<u8>, more: Seq<u8>)
    requires
        next_event(buffer) is Some,
    ensures
        next_event(buffer + more) == Some(
            (next_event(buffer).unwrap().0, next_event(buffer).unwrap().1 + more),
        ),
{
    let whole = buffer + more;
    let i = choose|i: int| is_first_break(buffer, i);
    assert(whole.subrange(0, 6) =~= buffer.subrange(0, 6));
    assert(is_first_break(whole, i)) by {
        assert(whole[i] == buffer[i] && whole[i + 1] == buffer[i + 1]);
        assert forall|j: int| 0 <= j < i implies !is_break(whole, j) by {
            assert(whole[j] == buffer[j] && whole[j + 1] == buffer[j + 1]);
            assert(!is_break(buffer, j));
        }
    }
    let chosen = choose|k: int| is_first_break(whole, k);
    lemma_first_break_unique(whole, i, chosen);
    lemma_break_after_prefix(buffer, i);
    assert(whole.subrange(6, i) =~= buffer.subrange(6, i));
    assert(whole.subrange(i + 2, whole.len() as int) =~= buffer.subrange(
        i + 2,
        buffer.len() as int,
    ) + more);
}

/// It makes no difference in how many pieces the bytes of a stream arrive:
/// the events of two pieces are those of the first piece, followed by those
/// of what the first piece left together with the second.
pub proof fn lemma_pieces_give_the_same_events(first: Seq<u8>, second: Seq<u8>)
    ensures
        payloads_of(first + second) == payloads_of(first) + payloads_of(
            remainder_of(first) + second,
        ),
        remainder_of(first + second) == remainder_of(remainder_of(first) + second),
    decreases first.len(),
{
    match next_event(first) {
        None => {
            assert(payloads_of(first) + payloads_of(first + second) =~= payloads_of(
                first + second,
            ));
        },
        Some((event, rest)) => {
            lemma_event_shortens(first);
            lemma_next_event_extends(first, second);
            lemma_pieces_give_the_same_events(rest, second);
            let tail = payloads_of(remainder_of(rest) + second);
            if is_payload(utf8_lossy(event)) {
                assert(seq![utf8_lossy(event)] + (payloads_of(rest) + tail) =~= (seq![
                    utf8_lossy(event),
                ] + payloads_of(rest)) + tail);
            }
        },
    }
}

/// Whether an event carries a piece of the answer.
pub fn carries_payload(event: &str) -> (b: bool)
    ensures
        b == is_payload(event@),
{
    !event.is_empty() && !starts_with(event, "[DONE]")
}

/// The decoder of an event stream. It holds the bytes that arrived and
/// were not yet given out as events.
pub struct SSEDecoder {
    buffer: Vec<u8>,
}

impl View for SSEDecoder {
    type V = Seq<u8>;

    closed spec fn view(&self) -> Seq<u8> {
        self.buffer@
    }
}

impl SSEDecoder {
    /// A decoder that holds nothing.
    pub fn new() -> (decoder: Self)
        ensures
            decoder@ == Seq::<u8>::empty(),
    {
        SSEDecoder { buffer: Vec::new() }
    }

    /// Takes in bytes that arrived.
    pub fn extend(&mut self, chunk: &[u8])
        ensures
            final(self)@ == old(self)@ + chunk@,
    {
        self.buffer.extend_from_slice(chunk);
        assert(self.buffer@ =~= old(self).buffer@ + chunk@);
    }

    /// Whether the held bytes begin with `data: `.
    fn begins_with_data(&self) -> (b: bool)
        ensures
            b == has_data_prefix(self@),
    {
        if self.buffer.len() < 6 {
            return false;
        }
        let b = self.buffer[0] == 100 && self.buffer[1] == 97 && self.buffer[2] == 116
            && self.buffer[3] == 97 && self.buffer[4] == 58 && self.buffer[5] == 32;
        proof {
            if b {
                assert(self@.subrange(0, 6) =~= data_prefix());
            } else {
                if has_data_prefix(self@) {
                    assert(forall|k: int| 0 <= k < 6 ==> self@.subrange(0, 6)[k] == self@[k]);
                    assert(self@[0] == data_prefix()[0]);
                    assert(self@[1] == data_prefix()[1]);
                    assert(self@[2] == data_prefix()[2]);
                    assert(self@[3] == data_prefix()[3]);
                    assert(self@[4] == data_prefix()[4]);
                    assert(self@[5] == data_prefix()[5]);
                }
            }
        }
        b
    }

    /// The place of the first empty line among the held bytes.
    fn find_break(&self) -> (place: Option<usize>)
        ensures
            match place {
                Some(i) => is_first_break(self@, i as int),
                None => forall|i: int| !is_break(self@, i),
            },
    {
        let n = self.buffer.len();
        if n < 2 {
            return None;
        }
        let mut i: usize = 0;
        while i < n - 1
            invariant
                2 <= n == self.buffer.len(),
                forall|j: int| 0 <= j < i ==> !is_break(self@, j),
            decreases n - i,
        {
            if self.buffer[i] == 10 && self.buffer[i + 1] == 10 {
                return Some(i);
            }
            i += 1;
        }
        None
    }

    /// Takes the first event out of the held bytes, if a whole event is
    /// there, and gives its text.
    pub fn parse_next_event(&mut self) -> (event: Option<String>)
        ensures
            match next_event(old(self)@) {
                Some((bytes, rest)) => event matches Some(text) && text@ == utf8_lossy(bytes)
                    && final(self)@ == rest && rest.len() + 8 <= old(self)@.len(),
                None => event is None && final(self)@ == old(self)@,
            },
    {
        if !self.begins_with_data() {
            return None;
        }
        match self.find_break() {
            None => None,
            Some(place) => {
                proof {
                    lemma_break_after_prefix(self@, place as int);
                    let chosen = choose|i: int| is_first_break(self@, i);
                    lemma_first_break_unique(self@, place as int, chosen);
                    assert(place + 1 < self.buffer.len());
                }
                let rest = self.buffer.split_off(place + 2);
                let text = lossy_text(slice_subrange(self.buffer.as_slice(), 6, place));
                proof {
                    assert(old(self)@.subrange(0, place + 2).subrange(6, place as int) =~= old(
                        self,
                    )@.subrange(6, place as int));
                }
                self.buffer = rest;
                Some(text)
            },
        }
    }

    /// Takes in bytes that arrived and gives the texts of the events that are
    /// now whole and carry a piece of the answer, in the order of arrival.
    pub fn decode(&mut self, chunk: &[u8]) -> (payloads: Vec<String>)
        ensures
            payloads@.len() == payloads_of(old(self)@ + chunk@).len(),
            forall|i: int|
                0 <= i < payloads@.len() ==> (#[trigger] payloads@[i])@ == payloads_of(
                    old(self)@ + chunk@,
                )[i],
            final(self)@ == remainder_of(old(self)@ + chunk@),
    {
        self.extend(chunk);
        let ghost start = self@;
        let mut payloads: Vec<String> = Vec::new();
        loop
            invariant
                payloads_of(start).len() == payloads@.len() + payloads_of(self@).len(),
                forall|i: int|
                    0 <= i < payloads@.len() ==> (#[trigger] payloads@[i])@ == payloads_of(
                        start,
                    )[i],
                forall|i: int|
                    0 <= i < payloads_of(self@).len() ==> payloads_of(self@)[i] == payloads_of(
                        start,
                    )[payloads@.len() + i],
                remainder_of(start) == remainder_of(self@),
            ensures
                payloads@.len() == payloads_of(start).len(),
                forall|i: int|
                    0 <= i < payloads@.len() ==> (#[trigger] payloads@[i])@ == payloads_of(
                        start,
                    )[i],
                self@ == remainder_of(start),
            decreases self@.len(),
        {
            let ghost before = self@;
            let ghost had = payloads@;
            match self.parse_next_event() {
                None => {
                    break ;
                },
                Some(event) => {
                    let keep = carries_payload(event.as_str());
                    if keep {
                        payloads.push(event);
                        assert(payloads_of(before) =~= seq![event@] + payloads_of(self@));
                        assert forall|i: int| 0 <= i < payloads_of(self@).len() implies payloads_of(
                            self@,
                        )[i] == payloads_of(start)[payloads@.len() + i] by {
                            assert(payloads_of(before)[i + 1] == payloads_of(self@)[i]);
                        }
                        assert forall|i: int| 0 <= i < payloads@.len() implies (
                        #[trigger] payloads@[i])@ == payloads_of(start)[i] by {
                            if i == had.len() {
                                assert(payloads_of(before)[0] == event@);
                            } else {
                                assert(payloads@[i] == had[i]);
                            }
                        }
                    }
                },
            }
        }
        payloads
    }
}

impl Default for SSEDecoder {
    fn default() -> (decoder: Self)
        ensures
            decoder@ == Seq::<u8>::empty(),
    {
        SSEDecoder::new()
    }
}

/// The piece of the answer that an event carries: what the first choice adds.
pub open spec fn content_of(chunk: LLMStreamChunk) -> Option<Seq<char>> {
    if chunk.choices@.len() == 0 {
        None
    } else {
        match chunk.choices@[0].delta.content {
            Some(content) => Some(content@),
            None => None,
        }
    }
}

/// The piece of the answer that an event carries, if it carries one.
pub fn chunk_content(chunk: &LLMStreamChunk) -> (content: Option<String>)
    ensures
        match content_of(*chunk) {
            Some(text) => content matches Some(given) && given@ == text,
            None => content is None,
        },
{
    if chunk.choices.len() == 0 {
        None
    } else {
        match &chunk.choices[0].delta.content {
            Some(content) => Some(content.clone()),
            None => None,
        }
    }
}

/// The address of the service when none is set.
pub const DEFAULT_BASE_URL: &'static str = "https://api.siliconflow.cn/v1";

/// The model that is asked when none is set.
pub const DEFAULT_MODEL: &'static str = "Qwen/Qwen2.5-7B-Instruct";

/// The most tokens that an answer may have, unless the caller says otherwise.
pub const DEFAULT_MAX_TOKENS: u32 = 2000;

/// The seconds after which a request is given up.
pub const REQUEST_TIMEOUT_SECS: u64 = 30;

/// The settings with which the service is asked.
#[derive(Debug)]
pub struct LLMService {
    api_key: String,
    base_url: String,
    model: String,
}

/// The settings of the service, each as the sequence of its characters.
pub struct LLMServiceView {
    pub api_key: Seq<char>,
    pub base_url: Seq<char>,
    pub model: Seq<char>,
}

impl View for LLMService {
    type V = LLMServiceView;

    closed spec fn view(&self) -> LLMServiceView {
        LLMServiceView { api_key: self.api_key@, base_url: self.base_url@, model: self.model@ }
    }
}

/// A setting, or what stands in for one that is not set.
pub open spec fn or_default(setting: Option<String>, default: Seq<char>) -> Seq<char> {
    match setting {
        Some(text) => text@,
        None => default,
    }
}

/// A setting, or what stands in for one that is not set.
pub fn setting_or(setting: Option<String>, default: &str) -> (text: String)
    ensures
        text@ == or_default(setting, default@),
{
    match setting {
        Some(text) => text,
        None => String::from_str(default),
    }
}

/// How the service's answer to a request is to be read, by its status.
#[derive(Debug, Clone, Copy, PartialEq, Eq, Structural)]
pub enum StatusClass {
    /// A status from 200 to 299: the body is the completion.
    Success,
    /// Status 429: too many requests.
    RateLimited,
    /// Any other status: the body may say what failed.
    Failed,
}

/// The class of a status.
pub open spec fn status_class(status: u16) -> StatusClass {
    if 200 <= status < 300 {
        StatusClass::Success
    } else if status == 429 {
        StatusClass::RateLimited
    } else {
        StatusClass::Failed
    }
}

/// The failure for an answer with a failing status: too many requests for
/// status 429, else the message that the body reports, or the status where
/// the body could not be read.
pub open spec fn failure_of_status(status: u16, reported: Option<LLMErrorResponse>) -> LLMErrorView {
    if status == 429 {
        LLMErrorView::RateLimit
    } else {
        match reported {
            Some(body) => LLMErrorView::Api(body.error.message@),
            None => LLMErrorView::Api("API error: "@ + decimal(status as nat)),
        }
    }
}

impl LLMService {
    /// The settings that the environment gives: each argument is the value
    /// of its variable, `None` where the variable is not set. The key is
    /// required; the address and the model have defaults.
    pub fn new(api_key: Option<String>, base_url: Option<String>, model: Option<String>) -> (made:
        Result<Self, LLMError>)
        ensures
            match api_key {
                None => made matches Err(error) && error@ == LLMErrorView::Config(
                    "SILICONFLOW_API_KEY not set"@,
                ),
                Some(key) => if key@.len() == 0 {
                    made matches Err(error) && error@ == LLMErrorView::Config(
                        "SILICONFLOW_API_KEY is empty"@,
                    )
                } else {
                    made matches Ok(service) && service@ == (LLMServiceView {
                        api_key: key@,
                        base_url: or_default(base_url, DEFAULT_BASE_URL@),
                        model: or_default(model, DEFAULT_MODEL@),
                    })
                },
            },
    {
        match api_key {
            None => Err(LLMError::Config(String::from_str("SILICONFLOW_API_KEY not set"))),
            Some(key) => {
                if key.as_str().is_empty() {
                    Err(LLMError::Config(String::from_str("SILICONFLOW_API_KEY is empty")))
                } else {
                    Ok(
                        LLMService {
                            api_key: key,
                            base_url: setting_or(base_url, DEFAULT_BASE_URL),
                            model: setting_or(model, DEFAULT_MODEL),
                        },
                    )
                }
            },
        }
    }

    /// The settings that the caller gives. The key must not be empty.
    pub fn with_config(api_key: String, base_url: String, model: String) -> (made: Result<
        Self,
        LLMError,
    >)
        ensures
            api_key@.len() == 0 ==> (made matches Err(error) && error@ == LLMErrorView::Config(
                "API key is empty"@,
            )),
            api_key@.len() > 0 ==> (made matches Ok(service) && service@ == (LLMServiceView {
                api_key: api_key@,
                base_url: base_url@,
                model: model@,
            })),
    {
        if api_key.as_str().is_empty() {
            return Err(LLMError::Config(String::from_str("API key is empty")));
        }
        Ok(LLMService { api_key, base_url, model })
    }

    /// The model that is asked.
    pub fn model(&self) -> (model: &str)
        ensures
            model@ == self@.model,
    {
        self.model.as_str()
    }

    /// The address to which a completion is posted.
    pub fn endpoint(&self) -> (url: String)
        ensures
            url@ == self@.base_url + "/chat/completions"@,
    {
        let mut url = self.base_url.clone();
        url.append("/chat/completions");
        url
    }

    /// The value of the request's `Authorization` header.
    pub fn authorization(&self) -> (value: String)
        ensures
            value@ == "Bearer "@ + self@.api_key,
    {
        prefixed("Bearer ", self.api_key.as_str())
    }

    /// The class of an answer's status.
    pub fn classify_status(status: u16) -> (class: StatusClass)
        ensures
            class == status_class(status),
    {
        if 200 <= status && status < 300 {
            StatusClass::Success
        } else if status == 429 {
            StatusClass::RateLimited
        } else {
            StatusClass::Failed
        }
    }

    /// The failure for a completion whose body could not be read;
    /// `detail` is the reader's message.
    pub fn unreadable_completion(detail: &str) -> (error: LLMError)
        ensures
            error@ == LLMErrorView::Api("Failed to parse response: "@ + detail@),
    {
        LLMError::Api(prefixed("Failed to parse response: ", detail))
    }

    /// The failure for an answer with a failing status; `reported` is the
    /// answer's body, `None` where it could not be read.
    pub fn failed_status(status: u16, reported: Option<LLMErrorResponse>) -> (error: LLMError)
        ensures
            error@ == failure_of_status(status, reported),
    {
        if status == 429 {
            return LLMError::RateLimit;
        }
        match reported {
            Some(body) => LLMError::Api(body.error.message),
            None => {
                let digits = decimal_text(status as u64);
                LLMError::Api(prefixed("API error: ", digits.as_str()))
            },
        }
    }
}

} // verus!
