//! How a request is put together from the reads of a connection, and how a
//! response is handed to its writes.
//!
//! Nothing here touches a socket. A reader is fed what each read delivered
//! and answers with what to do next; a sender is told what each write took
//! and answers likewise. Whoever owns the socket runs the loop.

use crate::http::http_header::{lookup, HttpHeader, HttpHeaderType, Line};
use crate::http::http_request::{body_outcome, body_text, delimiter, parse_head};
use crate::http::http_request::{HttpRequest, RequestView};
use crate::text::{chars_of, find_bytes, first_match, parse_unsigned, trim};
use vstd::prelude::*;
use vstd::slice::slice_subrange;

verus! {

/// How many reads in a row may deliver nothing before a connection that has
/// not sent anything yet is given up.
pub const FIRST_TRIES: u8 = 4;

/// How many reads in a row may deliver nothing after a read that delivered
/// something.
pub const LATER_TRIES: u8 = 3;

/// How many bytes a plain read asks for at most.
pub const READ_SIZE: usize = 1024;

/// What a read came to.
pub enum ReadEvent {
    /// The read delivered these bytes; none, if the peer had nothing to say.
    Data(Vec<u8>),
    /// The read failed; the text says how.
    Failed(String),
}

/// The mathematical value of a `ReadEvent`.
pub enum ReadEventView {
    Data(Seq<u8>),
    Failed(Seq<char>),
}

impl View for ReadEvent {
    type V = ReadEventView;

    open spec fn view(&self) -> ReadEventView {
        match self {
            ReadEvent::Data(bytes) => ReadEventView::Data(bytes@),
            ReadEvent::Failed(detail) => ReadEventView::Failed(detail@),
        }
    }
}

/// The state of a connection that is being read: the bytes that came so far,
/// and how many empty reads it may still take.
pub struct RequestReader {
    received: Vec<u8>,
    tries: u8,
}

/// The mathematical value of a `RequestReader`.
pub struct ReaderView {
    pub received: Seq<u8>,
    pub tries: nat,
}

impl View for RequestReader {
    type V = ReaderView;

    closed spec fn view(&self) -> ReaderView {
        ReaderView { received: self.received@, tries: self.tries as nat }
    }
}

/// What to do after a read.
pub enum ReadAction {
    /// Read again, whatever comes.
    Read(RequestReader),
    /// Wait half a second, then read again.
    Wait(RequestReader),
    /// Read exactly this many bytes, blocking until they are there.
    ReadExact(RequestReader, usize),
    /// The request is complete. If its body holds a text that is no JSON, the
    /// text here says why, and the request is without body.
    Done(HttpRequest, Option<String>),
    /// The connection is given up; the text says why.
    Fail(String),
}

/// The mathematical value of a `ReadAction`.
pub enum ReadActionView {
    Read(ReaderView),
    Wait(ReaderView),
    ReadExact(ReaderView, nat),
    Done(RequestView, Option<Seq<char>>),
    Fail(Seq<char>),
}

impl View for ReadAction {
    type V = ReadActionView;

    open spec fn view(&self) -> ReadActionView {
        match self {
            ReadAction::Read(reader) => ReadActionView::Read(reader@),
            ReadAction::Wait(reader) => ReadActionView::Wait(reader@),
            ReadAction::ReadExact(reader, n) => ReadActionView::ReadExact(reader@, *n as nat),
            ReadAction::Done(request, error) => ReadActionView::Done(
                request@,
                match error {
                    Some(e) => Some(e@),
                    None => None,
                },
            ),
            ReadAction::Fail(reason) => ReadActionView::Fail(reason@),
        }
    }
}

/// Where the head of a request ends in the bytes received: just after the
/// first delimiter, if there is one.
pub open spec fn head_end(received: Seq<u8>) -> Option<int> {
    match first_match(received, delimiter()) {
        Some(d) => Some(d + 4),
        None => None,
    }
}

/// The length of the body that the headers declare: the number under
/// `content-length`, or zero where there is none or it is no number.
pub open spec fn declared_length(headers: Seq<Line>) -> nat {
    match lookup(headers, HttpHeaderType::ContentLength.name()) {
        Some(value) => match parse_unsigned(trim(value), usize::MAX as nat) {
            Some(n) => n,
            None => 0,
        },
        None => 0,
    }
}

/// The request whose head is `head`, after the bytes of its body were read.
pub open spec fn with_body(head: RequestView, body: Seq<u8>) -> RequestView {
    match body_outcome(body) {
        Ok(document) => RequestView { body: Some(document), ..head },
        Err(_) => head,
    }
}

/// Why the body could not be taken in, if it holds a text that is no JSON.
/// A body without text is no error: the request is then without body.
pub open spec fn body_error(body: Seq<u8>) -> Option<Seq<char>> {
    match body_outcome(body) {
        Ok(_) => None,
        Err(reason) => if body_text(body).len() == 0 {
            None
        } else {
            Some(reason)
        },
    }
}

/// How many bytes of the declared body are still to come; nothing is known
/// of it before the head is complete.
pub open spec fn missing(received: Seq<u8>) -> Option<nat> {
    match head_end(received) {
        Some(e) => {
            let declared = declared_length(parse_head(received.take(e)).headers);
            if e + declared <= received.len() {
                Some(0)
            } else {
                Some((e + declared - received.len()) as nat)
            }
        },
        None => None,
    }
}

/// Whether the bytes received hold a whole request.
pub open spec fn complete(received: Seq<u8>) -> bool {
    missing(received) == Some(0nat)
}

/// The request that the bytes received hold, once they are complete: the
/// head, and the declared number of bytes after it as body.
pub open spec fn request_of(received: Seq<u8>) -> RequestView {
    let e = head_end(received).unwrap();
    let head = parse_head(received.take(e));
    let declared = declared_length(head.headers);
    if declared == 0 {
        head
    } else {
        with_body(head, received.subrange(e, e + declared))
    }
}

/// Why the body of the request that the bytes received hold could not be
/// taken in, if it could not.
pub open spec fn request_error_of(received: Seq<u8>) -> Option<Seq<char>> {
    let e = head_end(received).unwrap();
    let declared = declared_length(parse_head(received.take(e)).headers);
    if declared == 0 {
        None
    } else {
        body_error(received.subrange(e, e + declared))
    }
}

/// What to do when the bytes received are looked at anew.
pub open spec fn examine(reader: ReaderView) -> ReadActionView {
    match missing(reader.received) {
        None => ReadActionView::Read(reader),
        Some(n) => if n == 0 {
            ReadActionView::Done(request_of(reader.received), request_error_of(reader.received))
        } else {
            ReadActionView::ReadExact(reader, n)
        },
    }
}

/// Why a connection that stays silent is given up.
pub open spec fn closed_message() -> Seq<char> {
    "Connection closed after 0 attempts."@
}

/// Why a connection whose read failed is given up.
pub open spec fn failed_message(detail: Seq<char>) -> Seq<char> {
    "Failed to read from the stream: "@ + detail
}

/// What the reader does with the outcome of a read.
///
/// Bytes that came are added to what was received, and the whole is looked
/// at anew. A read that delivered nothing costs one try; with none left the
/// connection is given up. A read that failed ends the connection, whether
/// the head is complete or not: a body that is shorter than the head declares
/// is never taken for the body.
pub open spec fn next_action(reader: ReaderView, event: ReadEventView) -> ReadActionView {
    match event {
        ReadEventView::Data(bytes) => if bytes.len() == 0 {
            if reader.tries <= 1 {
                ReadActionView::Fail(closed_message())
            } else {
                ReadActionView::Wait(
                    ReaderView { received: reader.received, tries: (reader.tries - 1) as nat },
                )
            }
        } else {
            examine(ReaderView { received: reader.received + bytes, tries: LATER_TRIES as nat })
        },
        ReadEventView::Failed(detail) => ReadActionView::Fail(failed_message(detail)),
    }
}

/// What comes of feeding a reader the chunks of a stream, one read after the
/// other: the action after the last chunk, or the action that ended the
/// reading before.
pub open spec fn feed(reader: ReaderView, chunks: Seq<Seq<u8>>) -> ReadActionView
    decreases chunks.len(),
{
    if chunks.len() == 0 {
        ReadActionView::Read(reader)
    } else {
        let action = next_action(reader, ReadEventView::Data(chunks[0]));
        if chunks.len() == 1 {
            action
        } else {
            match action {
                ReadActionView::Read(r) => feed(r, chunks.drop_first()),
                ReadActionView::Wait(r) => feed(r, chunks.drop_first()),
                ReadActionView::ReadExact(r, _) => feed(r, chunks.drop_first()),
                _ => action,
            }
        }
    }
}

/// Once the head is complete, bytes that come after it change neither where
/// it ends nor what it holds.
pub proof fn lemma_head_is_settled(received: Seq<u8>, more: Seq<u8>)
    requires
        head_end(received) is Some,
    ensures
        head_end(received + more) == head_end(received),
        (received + more).take(head_end(received).unwrap()) == received.take(
            head_end(received).unwrap(),
        ),
{
    crate::text::lemma_first_match_extend(received, delimiter(), more);
    crate::text::lemma_first_match_from(received, delimiter(), 0);
}

/// Once a request is complete, bytes that come after it change nothing.
pub proof fn lemma_request_is_settled(received: Seq<u8>, more: Seq<u8>)
    requires
        complete(received),
    ensures
        complete(received + more),
        request_of(received + more) == request_of(received),
        request_error_of(received + more) == request_error_of(received),
{
    lemma_head_is_settled(received, more);
    crate::text::lemma_first_match_from(received, delimiter(), 0);
    let e = head_end(received).unwrap();
    let declared = declared_length(parse_head(received.take(e)).headers);
    assert((received + more).subrange(e, e + declared) =~= received.subrange(e, e + declared));
}

/// However a stream that holds a whole request is cut into non-empty chunks,
/// feeding the chunks to a reader ends with the request that the stream
/// holds: the same as when the stream comes in one piece.
pub proof fn lemma_chunks_do_not_matter(reader: ReaderView, chunks: Seq<Seq<u8>>)
    requires
        !complete(reader.received),
        complete(reader.received + chunks.flatten()),
        forall|i: int| 0 <= i < chunks.len() ==> (#[trigger] chunks[i]).len() > 0,
    ensures
        feed(reader, chunks) == ReadActionView::Done(
            request_of(reader.received + chunks.flatten()),
            request_error_of(reader.received + chunks.flatten()),
        ),
    decreases chunks.len(),
{
    if chunks.len() > 0 {
        let first = chunks[0];
        let rest = chunks.drop_first();
        let grown = reader.received + first;
        assert(chunks.flatten() =~= first + rest.flatten()) by {
            vstd::seq_lib::lemma_flatten_concat(seq![first], rest);
            seq![first].lemma_flatten_one_element();
        }
        assert(reader.received + chunks.flatten() =~= grown + rest.flatten());
        let next = ReaderView { received: grown, tries: LATER_TRIES as nat };
        if complete(grown) {
            lemma_request_is_settled(grown, rest.flatten());
        } else {
            lemma_chunks_do_not_matter(next, rest);
        }
    }
}

/// A stream that holds a whole request gives the same request whether it
/// comes in one piece or in any number of non-empty chunks.
pub proof fn lemma_one_chunk_or_many(stream: Seq<u8>, chunks: Seq<Seq<u8>>, tries: nat)
    requires
        chunks.flatten() == stream,
        complete(stream),
        forall|i: int| 0 <= i < chunks.len() ==> (#[trigger] chunks[i]).len() > 0,
    ensures
        feed(ReaderView { received: Seq::empty(), tries }, chunks) == feed(
            ReaderView { received: Seq::empty(), tries },
            seq![stream],
        ),
        feed(ReaderView { received: Seq::empty(), tries }, chunks) == ReadActionView::Done(
            request_of(stream),
            request_error_of(stream),
        ),
{
    let fresh = ReaderView { received: Seq::empty(), tries };
    crate::text::lemma_first_match_from(Seq::<u8>::empty(), delimiter(), 0);
    lemma_chunks_do_not_matter(fresh, chunks);
    assert(stream.len() > 0) by {
        crate::text::lemma_first_match_from(stream, delimiter(), 0);
    }
    seq![stream].lemma_flatten_one_element();
    lemma_chunks_do_not_matter(fresh, seq![stream]);
}

/// A request whose body holds a text that is no JSON is read all the same:
/// method, path, parameters and headers are those of its head, it is without
/// body, and the reason why is reported with it.
pub proof fn lemma_malformed_body_is_reported(received: Seq<u8>)
    requires
        complete(received),
        declared_length(parse_head(received.take(head_end(received).unwrap())).headers) > 0,
        ({
            let e = head_end(received).unwrap();
            let declared = declared_length(parse_head(received.take(e)).headers);
            let text = body_text(received.subrange(e, e + declared));
            text.len() > 0 && crate::bridge::json_document(text) is Err
        }),
    ensures
        request_of(received) == parse_head(received.take(head_end(received).unwrap())),
        request_of(received).body is None,
        request_error_of(received) is Some,
        examine(ReaderView { received, tries: LATER_TRIES as nat }) == ReadActionView::Done(
            request_of(received),
            request_error_of(received),
        ),
{
}

/// A request whose body holds a JSON document is read with that document as
/// its body, after the head as it stands, and no error is reported with it.
pub proof fn lemma_body_arrives(received: Seq<u8>)
    requires
        complete(received),
        declared_length(parse_head(received.take(head_end(received).unwrap())).headers) > 0,
        ({
            let e = head_end(received).unwrap();
            let declared = declared_length(parse_head(received.take(e)).headers);
            let text = body_text(received.subrange(e, e + declared));
            text.len() > 0 && crate::bridge::json_document(text) is Ok
        }),
    ensures
        ({
            let e = head_end(received).unwrap();
            let head = parse_head(received.take(e));
            let text = body_text(received.subrange(e, e + declared_length(head.headers)));
            request_of(received) == (RequestView {
                body: Some(crate::bridge::json_document(text)->Ok_0),
                ..head
            })
        }),
        request_error_of(received) is None,
        examine(ReaderView { received, tries: LATER_TRIES as nat }) == ReadActionView::Done(
            request_of(received),
            None,
        ),
{
}

/// A request comes only of a read that delivered something, and only once
/// the bytes received hold the whole head and the whole declared body. A read
/// that failed never ends in a request, however much had come before it.
pub proof fn lemma_request_needs_every_byte(reader: ReaderView, event: ReadEventView)
    requires
        next_action(reader, event) is Done,
    ensures
        event matches ReadEventView::Data(bytes) && bytes.len() > 0 && complete(
            reader.received + bytes,
        ),
        next_action(reader, event) == ReadActionView::Done(
            request_of(reader.received + event->Data_0),
            request_error_of(reader.received + event->Data_0),
        ),
{
}

/// When two reads have delivered the head and less of the body than the head
/// declares, the reader asks for one blocking read of exactly what is
/// lacking, and the bytes of that read complete the request.
pub proof fn lemma_one_exact_read(first: Seq<u8>, second: Seq<u8>, last: Seq<u8>, tries: nat)
    requires
        first.len() > 0,
        second.len() > 0,
        missing(first + second) is Some,
        missing(first + second).unwrap() > 0,
        last.len() == missing(first + second).unwrap(),
    ensures
        feed(ReaderView { received: Seq::empty(), tries }, seq![first, second])
            == ReadActionView::ReadExact(
            ReaderView { received: first + second, tries: LATER_TRIES as nat },
            missing(first + second).unwrap(),
        ),
        next_action(
            ReaderView { received: first + second, tries: LATER_TRIES as nat },
            ReadEventView::Data(last),
        ) == ReadActionView::Done(
            request_of(first + second + last),
            request_error_of(first + second + last),
        ),
{
    let got = first + second;
    if complete(first) {
        lemma_request_is_settled(first, second);
    }
    let chunks = seq![first, second];
    assert(chunks.drop_first() =~= seq![second]);
    let after_first = ReaderView { received: first, tries: LATER_TRIES as nat };
    assert(feed(after_first, seq![second]) == next_action(
        after_first,
        ReadEventView::Data(second),
    ));
    lemma_head_is_settled(got, last);
}

impl RequestReader {
    /// A reader that has received nothing yet.
    pub fn new() -> (reader: Self)
        ensures
            reader@ == (ReaderView { received: Seq::empty(), tries: FIRST_TRIES as nat }),
    {
        RequestReader { received: Vec::new(), tries: FIRST_TRIES }
    }

    /// How many bytes were received so far.
    pub fn received_len(&self) -> (n: usize)
        ensures
            n == self@.received.len(),
    {
        self.received.len()
    }

    /// The length of the body that the headers declare.
    pub fn content_length(headers: &HttpHeader) -> (n: usize)
        ensures
            n == declared_length(headers@),
    {
        match headers.get(HttpHeaderType::ContentLength.as_str()) {
            Some(value) => {
                let chars = chars_of(value.as_str());
                let (start, end) = crate::text::trim_bounds(chars.as_slice());
                let number = slice_subrange(chars.as_slice(), start, end);
                match crate::text::parse_usize(number) {
                    Some(n) => n,
                    None => 0,
                }
            },
            None => 0,
        }
    }

    /// Looks at the bytes received and says what to do next.
    fn examine(self) -> (action: ReadAction)
        ensures
            action@ == examine(self@),
    {
        let delim: Vec<u8> = vec![13u8, 10u8, 13u8, 10u8];
        let total = self.received.len();
        match find_bytes(self.received.as_slice(), delim.as_slice()) {
            None => ReadAction::Read(self),
            Some(d) => {
                proof {
                    crate::text::lemma_first_match_from(self.received@, delimiter(), 0);
                }
                let e: usize = d + 4;
                let mut request = HttpRequest::from_request_bytes(
                    slice_subrange(self.received.as_slice(), 0, e),
                );
                let declared = RequestReader::content_length(&request.headers);
                let have: usize = total - e;
                if declared == 0 {
                    ReadAction::Done(request, None)
                } else if have >= declared {
                    let text = HttpRequest::body_text(
                        slice_subrange(self.received.as_slice(), e, e + declared),
                    );
                    let parsed = crate::bridge::json_parse(text.as_str());
                    match request.take_body(text.as_str(), parsed) {
                        Ok(_) => ReadAction::Done(request, None),
                        Err(reason) => {
                            if text.as_str().unicode_len() == 0 {
                                ReadAction::Done(request, None)
                            } else {
                                ReadAction::Done(request, Some(reason))
                            }
                        },
                    }
                } else {
                    ReadAction::ReadExact(self, declared - have)
                }
            },
        }
    }

    /// Takes in what a read came to, and says what to do next.
    pub fn step(self, event: ReadEvent) -> (action: ReadAction)
        ensures
            action@ == next_action(self@, event@),
    {
        let mut reader = self;
        match event {
            ReadEvent::Data(bytes) => {
                if bytes.len() == 0 {
                    if reader.tries <= 1 {
                        ReadAction::Fail(String::from_str("Connection closed after 0 attempts."))
                    } else {
                        reader.tries = reader.tries - 1;
                        ReadAction::Wait(reader)
                    }
                } else {
                    let mut bytes = bytes;
                    reader.received.append(&mut bytes);
                    reader.tries = LATER_TRIES;
                    reader.examine()
                }
            },
            ReadEvent::Failed(detail) => {
                let mut reason = String::from_str("Failed to read from the stream: ");
                reason.append(detail.as_str());
                ReadAction::Fail(reason)
            },
        }
    }
}

/// What a write or a flush came to.
pub enum WriteEvent {
    /// The write took this many bytes.
    Written(usize),
    /// The write failed; the text says how.
    WriteFailed(String),
    /// The flush went through.
    Flushed,
    /// The flush failed; the text says how.
    FlushFailed(String),
}

/// The mathematical value of a `WriteEvent`.
pub enum WriteEventView {
    Written(nat),
    WriteFailed(Seq<char>),
    Flushed,
    FlushFailed(Seq<char>),
}

impl View for WriteEvent {
    type V = WriteEventView;

    open spec fn view(&self) -> WriteEventView {
        match self {
            WriteEvent::Written(n) => WriteEventView::Written(*n as nat),
            WriteEvent::WriteFailed(detail) => WriteEventView::WriteFailed(detail@),
            WriteEvent::Flushed => WriteEventView::Flushed,
            WriteEvent::FlushFailed(detail) => WriteEventView::FlushFailed(detail@),
        }
    }
}

/// The state of a response that is being sent: how many bytes it has, and
/// how many of them the connection has taken.
pub struct ResponseSender {
    total: usize,
    sent: usize,
}

/// The mathematical value of a `ResponseSender`.
pub struct SenderView {
    pub total: nat,
    pub sent: nat,
}

impl View for ResponseSender {
    type V = SenderView;

    closed spec fn view(&self) -> SenderView {
        SenderView { total: self.total as nat, sent: self.sent as nat }
    }
}

/// What to do after a write or a flush.
pub enum WriteAction {
    /// Write the bytes of the response from this index on.
    Write(ResponseSender, usize),
    /// Flush the connection.
    Flush(ResponseSender),
    /// Every byte was written and flushed.
    Done,
    /// The connection is given up; the text says why.
    Fail(String),
}

/// The mathematical value of a `WriteAction`.
pub enum WriteActionView {
    Write(SenderView, nat),
    Flush(SenderView),
    Done,
    Fail(Seq<char>),
}

impl View for WriteAction {
    type V = WriteActionView;

    open spec fn view(&self) -> WriteActionView {
        match self {
            WriteAction::Write(sender, from) => WriteActionView::Write(sender@, *from as nat),
            WriteAction::Flush(sender) => WriteActionView::Flush(sender@),
            WriteAction::Done => WriteActionView::Done,
            WriteAction::Fail(reason) => WriteActionView::Fail(reason@),
        }
    }
}

/// Why a response whose write failed is given up.
pub open spec fn write_failed_message(total: nat, detail: Seq<char>) -> Seq<char> {
    "Failed to send data (attempted "@ + crate::text::decimal(total) + " bytes): "@ + detail
}

/// Why a response whose flush failed is given up.
pub open spec fn flush_failed_message(detail: Seq<char>) -> Seq<char> {
    "Failed to flush after sending data: "@ + detail
}

/// What is said of a write that took nothing.
pub open spec fn nothing_written() -> Seq<char> {
    "failed to write whole buffer"@
}

/// How to begin sending `total` bytes: with a write from the start, or, where
/// there is nothing to write, with the flush.
pub open spec fn first_write(total: nat) -> WriteActionView {
    if total == 0 {
        WriteActionView::Flush(SenderView { total, sent: 0 })
    } else {
        WriteActionView::Write(SenderView { total, sent: 0 }, 0)
    }
}

/// What the sender does with the outcome of a write or a flush.
///
/// Bytes that were written count as sent, and are flushed. After a flush the
/// next write begins where the last one ended, until nothing is left. A
/// write that took nothing, a write that failed and a flush that failed end
/// the sending.
pub open spec fn next_write(sender: SenderView, event: WriteEventView) -> WriteActionView {
    match event {
        WriteEventView::Written(n) => if n == 0 {
            WriteActionView::Fail(write_failed_message(sender.total, nothing_written()))
        } else if sender.sent + n >= sender.total {
            WriteActionView::Flush(SenderView { total: sender.total, sent: sender.total })
        } else {
            WriteActionView::Flush(SenderView { total: sender.total, sent: sender.sent + n })
        },
        WriteEventView::WriteFailed(detail) => WriteActionView::Fail(
            write_failed_message(sender.total, detail),
        ),
        WriteEventView::Flushed => if sender.sent >= sender.total {
            WriteActionView::Done
        } else {
            WriteActionView::Write(sender, sender.sent)
        },
        WriteEventView::FlushFailed(detail) => WriteActionView::Fail(
            flush_failed_message(detail),
        ),
    }
}

/// The sender that an action carries on with, if it carries on.
pub open spec fn sender_of(action: WriteActionView) -> Option<SenderView> {
    match action {
        WriteActionView::Write(sender, _) => Some(sender),
        WriteActionView::Flush(sender) => Some(sender),
        _ => None,
    }
}

/// The index of the next byte to go, as an action has it: where a write is
/// asked to begin, or how many bytes the sender has counted.
pub open spec fn offset_of(action: WriteActionView) -> nat {
    match action {
        WriteActionView::Write(_, from) => from,
        WriteActionView::Flush(sender) => sender.sent,
        _ => 0,
    }
}

/// For how many bytes a write that took `n` bytes is counted: for `n`, but
/// never for more than are left.
pub open spec fn counted(sender: SenderView, n: nat) -> nat {
    if sender.sent + n >= sender.total {
        (sender.total - sender.sent) as nat
    } else {
        n
    }
}

/// What comes of a run of writes and flushes that begins with `action`: the
/// action after the last event, or the action that ended the sending before.
pub open spec fn send_feed(action: WriteActionView, events: Seq<WriteEventView>) -> WriteActionView
    decreases events.len(),
{
    if events.len() == 0 {
        action
    } else {
        match sender_of(action) {
            Some(sender) => send_feed(next_write(sender, events[0]), events.drop_first()),
            None => action,
        }
    }
}

/// The writes of a run that were counted: for each, the index at which it
/// began and the number of bytes it was counted for, in the order of the run.
pub open spec fn writes_of(action: WriteActionView, events: Seq<WriteEventView>) -> Seq<(nat, nat)>
    decreases events.len(),
{
    if events.len() == 0 {
        Seq::empty()
    } else {
        match sender_of(action) {
            Some(sender) => {
                let rest = writes_of(next_write(sender, events[0]), events.drop_first());
                match events[0] {
                    WriteEventView::Written(n) => if counted(sender, n) > 0 {
                        seq![(offset_of(action), counted(sender, n))] + rest
                    } else {
                        rest
                    },
                    _ => rest,
                }
            },
            None => Seq::empty(),
        }
    }
}

/// Whether the writes cover the bytes from `start` to `end` one after the
/// other: each begins where the one before it ended, the first at `start`,
/// and the last ends at `end`.
pub open spec fn in_order(writes: Seq<(nat, nat)>, start: nat, end: nat) -> bool
    decreases writes.len(),
{
    if writes.len() == 0 {
        start == end
    } else {
        writes[0].0 == start && writes[0].1 > 0 && in_order(
            writes.drop_first(),
            start + writes[0].1,
            end,
        )
    }
}

/// A run that carries on from a sender and ends in `Done` has counted every
/// byte that was left, once and in order.
pub proof fn lemma_rest_is_counted_once(action: WriteActionView, events: Seq<WriteEventView>)
    requires
        sender_of(action) matches Some(sender) && sender.sent <= sender.total && offset_of(action)
            == sender.sent,
        send_feed(action, events) is Done,
    ensures
        in_order(
            writes_of(action, events),
            sender_of(action).unwrap().sent,
            sender_of(action).unwrap().total,
        ),
    decreases events.len(),
{
    let sender = sender_of(action).unwrap();
    if events.len() > 0 {
        let next = next_write(sender, events[0]);
        let rest = writes_of(next, events.drop_first());
        if sender_of(next) is Some {
            lemma_rest_is_counted_once(next, events.drop_first());
            if let WriteEventView::Written(n) = events[0] {
                if counted(sender, n) > 0 {
                    let first = (offset_of(action), counted(sender, n));
                    assert((seq![first] + rest).drop_first() =~= rest);
                }
            }
        }
    }
}

/// Every run of writes and flushes of a response that ends in `Done` has
/// counted every byte of the response once, in order: the first write began
/// at the first byte, each other where the one before it ended, and the last
/// ended with the last byte.
pub proof fn lemma_every_byte_is_counted_once(total: nat, events: Seq<WriteEventView>)
    requires
        send_feed(first_write(total), events) is Done,
    ensures
        in_order(writes_of(first_write(total), events), 0, total),
{
    lemma_rest_is_counted_once(first_write(total), events);
}

impl ResponseSender {
    #[verifier::type_invariant]
    spec fn within(&self) -> bool {
        self.sent <= self.total
    }

    /// Begins sending a response of `total` bytes.
    pub fn begin(total: usize) -> (action: WriteAction)
        ensures
            action@ == first_write(total as nat),
    {
        let sender = ResponseSender { total, sent: 0 };
        if total == 0 {
            WriteAction::Flush(sender)
        } else {
            WriteAction::Write(sender, 0)
        }
    }

    /// How many bytes the connection has taken; never more than there are.
    pub fn sent(&self) -> (n: usize)
        ensures
            n == self@.sent,
            self@.sent <= self@.total,
    {
        proof {
            use_type_invariant(self);
        }
        self.sent
    }

    /// Takes in what a write or a flush came to, and says what to do next.
    pub fn step(self, event: WriteEvent) -> (action: WriteAction)
        ensures
            action@ == next_write(self@, event@),
    {
        proof {
            use_type_invariant(&self);
        }
        let total = self.total;
        let sent = self.sent;
        match event {
            WriteEvent::Written(n) => {
                if n == 0 {
                    let mut reason = String::from_str("Failed to send data (attempted ");
                    reason.append(crate::text::usize_to_string(total).as_str());
                    reason.append(" bytes): ");
                    reason.append("failed to write whole buffer");
                    WriteAction::Fail(reason)
                } else if n >= total - sent {
                    WriteAction::Flush(ResponseSender { total, sent: total })
                } else {
                    WriteAction::Flush(ResponseSender { total, sent: sent + n })
                }
            },
            WriteEvent::WriteFailed(detail) => {
                let mut reason = String::from_str("Failed to send data (attempted ");
                reason.append(crate::text::usize_to_string(total).as_str());
                reason.append(" bytes): ");
                reason.append(detail.as_str());
                WriteAction::Fail(reason)
            },
            WriteEvent::Flushed => {
                if sent >= total {
                    WriteAction::Done
                } else {
                    WriteAction::Write(self, sent)
                }
            },
            WriteEvent::FlushFailed(detail) => {
                let mut reason = String::from_str("Failed to flush after sending data: ");
                reason.append(detail.as_str());
                WriteAction::Fail(reason)
            },
        }
    }
}

} // verus!
