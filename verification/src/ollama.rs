//! Talking to the local chat model: how failures are worded, what a health
//! check amounts to, and how a streamed answer is cut into its lines.
//!
//! The requests themselves are the caller's.

use vstd::prelude::*;
use vstd::seq_lib::*;
use vstd::string::*;
use vstd::utf8::{decode_utf8, valid_utf8};
use crate::text::{text_from_utf8, text_of, trim_text, trimmed};

verus! {

/// The byte that ends a line of a streamed answer.
pub const LINE_FEED: u8 = 10;

/// What the interface is told about the health of the chat model.
#[derive(Debug)]
pub struct OllamaHealthPayload {
    pub ok: bool,
    pub error: Option<String>,
}

impl Clone for OllamaHealthPayload {
    fn clone(&self) -> (out: Self)
        ensures
            out.ok == self.ok,
            text_of(out.error) == text_of(self.error),
    {
        OllamaHealthPayload {
            ok: self.ok,
            error: match &self.error {
                Some(error) => Some(error.clone()),
                None => None,
            },
        }
    }
}

/// How a request to the chat model ended.
#[derive(Debug)]
pub enum Reply {
    /// No answer came: the request timed out, the connection was refused,
    /// or something else that `detail` tells.
    Unanswered { is_timeout: bool, is_connect: bool, detail: String },
    /// An answer came with this status line and, where the status is no
    /// success, this body.
    Answered { success: bool, status: String, body: String },
}

/// The sentence that describes a request that got no answer.
pub open spec fn request_error(is_timeout: bool, is_connect: bool, detail: Seq<char>) -> Seq<char> {
    if is_timeout {
        "timeout while connecting to Ollama"@
    } else if is_connect {
        "connection refused by Ollama"@
    } else {
        "request error: "@ + detail
    }
}

/// The sentence that describes an answer whose status is no success.
pub open spec fn status_error(status: Seq<char>, body: Seq<char>) -> Seq<char> {
    "non-200 from Ollama: "@ + status + " "@ + body
}

/// What a reply amounts to: nothing to report, or a sentence.
pub open spec fn verdict(reply: Reply) -> Option<Seq<char>> {
    match reply {
        Reply::Unanswered { is_timeout, is_connect, detail } => Some(
            request_error(is_timeout, is_connect, detail@),
        ),
        Reply::Answered { success, status, body } => if success {
            None
        } else {
            Some(status_error(status@, body@))
        },
    }
}

/// Words a request that got no answer, with the common failures named in
/// plain terms.
pub fn describe_reqwest_error(is_timeout: bool, is_connect: bool, detail: &str) -> (out: String)
    ensures
        out@ == request_error(is_timeout, is_connect, detail@),
{
    if is_timeout {
        return String::from_str("timeout while connecting to Ollama");
    }
    if is_connect {
        return String::from_str("connection refused by Ollama");
    }
    let mut message = String::from_str("request error: ");
    message.append(detail);
    message
}

/// Decides whether the chat model is healthy from the reply to a request
/// for its list of models.
pub fn check_ollama_health(reply: &Reply) -> (out: Result<(), String>)
    ensures
        match out {
            Ok(_) => verdict(*reply) is None,
            Err(message) => verdict(*reply) == Some(message@),
        },
{
    match reply {
        Reply::Unanswered { is_timeout, is_connect, detail } => Err(
            describe_reqwest_error(*is_timeout, *is_connect, detail.as_str()),
        ),
        Reply::Answered { success, status, body } => {
            if *success {
                Ok(())
            } else {
                let mut message = String::from_str("non-200 from Ollama: ");
                message.append(status.as_str());
                message.append(" ");
                message.append(body.as_str());
                Err(message)
            }
        },
    }
}

/// What the interface is told after a health check: nothing where the chat
/// model is healthy, else that it is not and why.
pub fn emit_health_if_needed(health: Result<(), String>) -> (out: Option<OllamaHealthPayload>)
    ensures
        match health {
            Ok(_) => out is None,
            Err(message) => out matches Some(payload) && !payload.ok
                && text_of(payload.error) == Some(message@),
        },
{
    match health {
        Ok(_) => None,
        Err(message) => Some(OllamaHealthPayload { ok: false, error: Some(message) }),
    }
}

/// Decides whether a chat request is passed on, and with which value of its
/// `stream` field: only a JSON object is, and the field is set to `stream`
/// whatever the request says.
pub fn ollama_chat(payload_is_object: bool, stream: bool) -> (out: Result<bool, String>)
    ensures
        match out {
            Ok(flag) => payload_is_object && flag == stream,
            Err(message) => !payload_is_object && message@ == "Invalid request payload."@,
        },
{
    if payload_is_object {
        Ok(stream)
    } else {
        Err(String::from_str("Invalid request payload."))
    }
}

/// A JSON value of the `serde_json` crate, carried through without a look
/// inside.
#[verifier::external_type_specification]
#[verifier::external_body]
pub struct ExJsonValue(serde_json::Value);

/// The error type of the `serde_json` crate, carried through without a look
/// inside.
#[verifier::external_type_specification]
#[verifier::external_body]
pub struct ExJsonError(serde_json::Error);

/// Whether `serde_json::from_str` reads `text` as a JSON value.
pub uninterp spec fn is_json(text: Seq<char>) -> bool;

/// Calls `serde_json::from_str` for a `serde_json::Value`. Trusted: whether
/// the text is accepted is a function of the text alone.
#[verifier::external_body]
fn parse_json(text: &str) -> (out: Result<serde_json::Value, serde_json::Error>)
    ensures
        out is Ok <==> is_json(text@),
{
    serde_json::from_str::<serde_json::Value>(text)
}

/// The position of the first line feed of `bytes` at or after `from`, or the
/// length of `bytes` where there is none.
pub open spec fn line_feed_from(bytes: Seq<u8>, from: int) -> int
    decreases bytes.len() - from,
{
    if from < 0 || from >= bytes.len() {
        bytes.len() as int
    } else if bytes[from] == LINE_FEED {
        from
    } else {
        line_feed_from(bytes, from + 1)
    }
}

/// Length of the first line of `bytes` with its line feed, or zero where no
/// line is complete.
pub open spec fn first_line_len(bytes: Seq<u8>) -> int {
    let at = line_feed_from(bytes, 0);
    if 0 <= at < bytes.len() {
        at + 1
    } else {
        0
    }
}

/// The complete lines of `bytes`, each with its line feed.
pub open spec fn complete_lines(bytes: Seq<u8>) -> Seq<Seq<u8>>
    decreases bytes.len(),
{
    let len = first_line_len(bytes);
    if 0 < len <= bytes.len() {
        seq![bytes.subrange(0, len)] + complete_lines(bytes.subrange(len, bytes.len() as int))
    } else {
        Seq::empty()
    }
}

/// What follows the last line feed of `bytes`.
pub open spec fn unfinished_line(bytes: Seq<u8>) -> Seq<u8>
    decreases bytes.len(),
{
    let len = first_line_len(bytes);
    if 0 < len <= bytes.len() {
        unfinished_line(bytes.subrange(len, bytes.len() as int))
    } else {
        bytes
    }
}

/// The text that a line carries: what it says without the white space at
/// its ends, where the line is valid UTF-8 and not blank.
pub open spec fn line_text(line: Seq<u8>) -> Option<Seq<char>> {
    if !valid_utf8(line) {
        None
    } else {
        let text = trimmed(decode_utf8(line));
        if text.len() == 0 {
            None
        } else {
            Some(text)
        }
    }
}

/// The texts that `lines` carry, in their order; lines without a text are
/// passed over.
pub open spec fn texts_of(lines: Seq<Seq<u8>>) -> Seq<Seq<char>>
    decreases lines.len(),
{
    if lines.len() == 0 {
        Seq::empty()
    } else {
        match line_text(lines.last()) {
            Some(text) => texts_of(lines.drop_last()).push(text),
            None => texts_of(lines.drop_last()),
        }
    }
}

/// What a sequence of texts is.
pub open spec fn text_views(texts: Seq<String>) -> Seq<Seq<char>> {
    texts.map_values(|text: String| text@)
}

/// A JSON value of a streamed answer with the text it was read from.
pub struct StreamedValue {
    pub text: String,
    pub value: serde_json::Value,
}

/// The texts that `values` were read from, in their order.
pub open spec fn streamed_texts(values: Seq<StreamedValue>) -> Seq<Seq<char>> {
    values.map_values(|streamed: StreamedValue| streamed.text@)
}

/// The test that picks the texts that are JSON values.
pub open spec fn json_texts() -> spec_fn(Seq<char>) -> bool {
    |text: Seq<char>| is_json(text)
}

/// The first line feed lies between the start of the search and the end of
/// the bytes, with no line feed before it.
pub proof fn lemma_line_feed_from(bytes: Seq<u8>, from: int)
    requires
        0 <= from <= bytes.len(),
    ensures
        from <= line_feed_from(bytes, from) <= bytes.len(),
        line_feed_from(bytes, from) < bytes.len() ==> bytes[line_feed_from(bytes, from)]
            == LINE_FEED,
        forall|i: int| from <= i < line_feed_from(bytes, from) ==> bytes[i] != LINE_FEED,
    decreases bytes.len() - from,
{
    if from < bytes.len() && bytes[from] != LINE_FEED {
        lemma_line_feed_from(bytes, from + 1);
    }
}

/// Bytes without a line feed hold no complete line; all of them are the
/// unfinished one.
pub proof fn lemma_no_line_feed_no_line(bytes: Seq<u8>)
    requires
        forall|i: int| 0 <= i < bytes.len() ==> bytes[i] != LINE_FEED,
    ensures
        complete_lines(bytes) == Seq::<Seq<u8>>::empty(),
        unfinished_line(bytes) == bytes,
{
    lemma_line_feed_from(bytes, 0);
}

/// The text that a line of a streamed answer carries, if it carries one.
/// Lines that are no valid UTF-8 and blank lines carry none.
pub fn decode_line(line: Vec<u8>) -> (out: Option<String>)
    ensures
        text_of(out) == line_text(line@),
{
    match text_from_utf8(line) {
        None => None,
        Some(text) => {
            let payload = trim_text(text.as_str());
            if payload.as_str().unicode_len() == 0 {
                None
            } else {
                Some(payload)
            }
        },
    }
}

/// The JSON value that `text` is, if it is one.
pub fn decode_payload(text: &str) -> (out: Option<serde_json::Value>)
    ensures
        out is Some <==> is_json(text@),
{
    match parse_json(text) {
        Ok(value) => Some(value),
        Err(_) => None,
    }
}

/// The part of a streamed answer that has arrived and is not yet passed on.
pub struct StreamRelay {
    pending: Vec<u8>,
}

impl View for StreamRelay {
    type V = Seq<u8>;

    closed spec fn view(&self) -> Seq<u8> {
        self.pending@
    }
}

impl StreamRelay {
    /// The relay of an answer of which nothing has arrived.
    pub fn new() -> (out: StreamRelay)
        ensures
            out@ == Seq::<u8>::empty(),
    {
        StreamRelay { pending: Vec::new() }
    }

    /// Number of bytes that wait for the end of their line.
    pub fn pending_len(&self) -> (out: usize)
        ensures
            out == self@.len(),
    {
        self.pending.len()
    }

    /// Adds `chunk` to what has arrived.
    pub fn push_chunk(&mut self, chunk: &[u8])
        ensures
            final(self)@ == old(self)@ + chunk@,
    {
        let mut i: usize = 0;
        while i < chunk.len()
            invariant
                i <= chunk@.len(),
                self@ == old(self)@ + chunk@.subrange(0, i as int),
            decreases chunk@.len() - i,
        {
            self.pending.push(chunk[i]);
            i = i + 1;
        }
    }

    /// Takes the first complete line, with its line feed, out of what has
    /// arrived; none where no line is complete.
    pub fn next_line(&mut self) -> (out: Option<Vec<u8>>)
        ensures
            match out {
                Some(line) => {
                    &&& 0 < first_line_len(old(self)@) <= old(self)@.len()
                    &&& line@ == old(self)@.subrange(0, first_line_len(old(self)@))
                    &&& final(self)@ == old(self)@.subrange(
                        first_line_len(old(self)@),
                        old(self)@.len() as int,
                    )
                },
                None => first_line_len(old(self)@) == 0 && final(self)@ == old(self)@,
            },
    {
        let len = self.pending.len();
        let mut at: usize = 0;
        while at < len && self.pending[at] != LINE_FEED
            invariant
                len == self@.len(),
                self@ == old(self)@,
                at <= len,
                line_feed_from(self@, 0) == line_feed_from(self@, at as int),
            decreases len - at,
        {
            at = at + 1;
        }
        if at == len {
            return None;
        }
        let mut line = self.pending.split_off(at + 1);
        core::mem::swap(&mut self.pending, &mut line);
        Some(line)
    }

    /// Takes note that `chunk` arrived and hands out the texts of the lines
    /// that are complete now, in their order. What follows the last line
    /// feed waits for the next chunk.
    pub fn take_texts(&mut self, chunk: &[u8]) -> (out: Vec<String>)
        ensures
            final(self)@ == unfinished_line(old(self)@ + chunk@),
            text_views(out@) == texts_of(complete_lines(old(self)@ + chunk@)),
    {
        self.push_chunk(chunk);
        let ghost arrived = self@;
        let ghost mut passed: Seq<Seq<u8>> = Seq::empty();
        let mut out: Vec<String> = Vec::new();
        loop
            invariant
                complete_lines(arrived) == passed + complete_lines(self@),
                unfinished_line(arrived) == unfinished_line(self@),
                text_views(out@) == texts_of(passed),
            ensures
                complete_lines(arrived) == passed,
                unfinished_line(arrived) == self@,
                text_views(out@) == texts_of(passed),
            decreases self@.len(),
        {
            let ghost before = self@;
            match self.next_line() {
                None => {
                    break ;
                },
                Some(line) => {
                    proof {
                        assert(passed.push(line@) + complete_lines(self@) =~= passed
                            + complete_lines(before));
                        assert(passed.push(line@).drop_last() =~= passed);
                        passed = passed.push(line@);
                    }
                    match decode_line(line) {
                        Some(text) => {
                            out.push(text);
                        },
                        None => {},
                    }
                },
            }
        }
        out
    }

    /// Takes note that `chunk` arrived and hands out the JSON values of the
    /// lines that are complete now, each with the text it was read from, in
    /// the order of the lines. Lines whose text is no JSON value are passed
    /// over; the stream goes on after them.
    pub fn on_chunk(&mut self, chunk: &[u8]) -> (out: Vec<StreamedValue>)
        ensures
            final(self)@ == unfinished_line(old(self)@ + chunk@),
            streamed_texts(out@) == texts_of(complete_lines(old(self)@ + chunk@)).filter(
                json_texts(),
            ),
    {
        let texts = self.take_texts(chunk);
        let ghost views = text_views(texts@);
        let mut out: Vec<StreamedValue> = Vec::new();
        let mut i: usize = 0;
        proof {
            views.take(0).lemma_filter_len(json_texts());
            assert(streamed_texts(out@) =~= views.take(0).filter(json_texts()));
        }
        while i < texts.len()
            invariant
                i <= texts@.len(),
                views == text_views(texts@),
                streamed_texts(out@) == views.take(i as int).filter(json_texts()),
            decreases texts@.len() - i,
        {
            proof {
                assert(views.take(i + 1) =~= views.take(i as int).push(texts@[i as int]@));
                views.take(i as int).lemma_filter_push(texts@[i as int]@, json_texts());
            }
            let ghost before = out@;
            match decode_payload(texts[i].as_str()) {
                Some(value) => {
                    out.push(StreamedValue { text: texts[i].clone(), value });
                    assert(streamed_texts(out@) =~= streamed_texts(before).push(
                        texts@[i as int]@,
                    ));
                },
                None => {},
            }
            i = i + 1;
        }
        proof {
            assert(views.take(texts@.len() as int) =~= views);
        }
        out
    }
}

} // verus!
