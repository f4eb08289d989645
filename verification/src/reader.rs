//! The background reader of a session: what it reports for each read.
//!
//! The host performs the blocking reads. After each one it hands the buffer and
//! the read's outcome to [`ReaderTask::on_read`] and emits what comes back.
use vstd::prelude::*;
use vstd::slice::slice_subrange;
use vstd::utf8::{decode_utf8, encode_utf8, valid_utf8};
use crate::notification::{Notification, NotificationView};

verus! {

/// Size in bytes of the buffer that a reader fills with each read.
pub const CHUNK_SIZE: usize = 1024;

/// The text that lossy UTF-8 decoding makes of `bytes`: valid sequences decoded,
/// each invalid one replaced by U+FFFD.
pub uninterp spec fn utf8_lossy(bytes: Seq<u8>) -> Seq<char>;

/// `String::from_utf8_lossy`: the result is the lossy decoding of the bytes. Of
/// bytes that are valid UTF-8 it is the plain decoding, with nothing replaced.
#[verifier::external_body]
fn decode_lossy(bytes: &[u8]) -> (text: String)
    ensures
        text@ == utf8_lossy(bytes@),
        valid_utf8(bytes@) ==> text@ == decode_utf8(bytes@),
{
    String::from_utf8_lossy(bytes).into_owned()
}

/// The bytes that a read delivered: the first `count` bytes of the buffer after
/// a read of one byte or more; nothing after a read of no bytes (the end of
/// the stream) or a failed read.
pub open spec fn received<E>(buffer: Seq<u8>, outcome: Result<usize, E>) -> Option<Seq<u8>> {
    match outcome {
        Ok(count) => if count > 0 {
            Some(buffer.subrange(0, count as int))
        } else {
            None
        },
        Err(_) => None,
    }
}

/// The text that a read delivered: its bytes, decoded lossily.
pub open spec fn received_text<E>(buffer: Seq<u8>, outcome: Result<usize, E>) -> Option<Seq<char>> {
    match received(buffer, outcome) {
        Some(bytes) => Some(utf8_lossy(bytes)),
        None => None,
    }
}

/// Picks out of the buffer what a read delivered. A read reports no more bytes
/// than its buffer holds.
pub fn received_bytes<'a, E>(buffer: &'a [u8], outcome: &Result<usize, E>) -> (bytes: Option<
    &'a [u8],
>)
    requires
        outcome matches Ok(count) ==> count <= buffer@.len(),
    ensures
        match bytes {
            Some(chunk) => received(buffer@, *outcome) == Some(chunk@),
            None => received(buffer@, *outcome) is None,
        },
{
    match outcome {
        Ok(count) => {
            if *count > 0 {
                Some(slice_subrange(buffer, 0, *count))
            } else {
                None
            }
        },
        Err(_) => None,
    }
}

/// The reader of one session. It runs until the stream ends, then is finished
/// for good: a single end of stream or failed read is final.
#[derive(Debug)]
pub struct ReaderTask {
    session: String,
    finished: bool,
}

/// A reader as plain values.
pub struct ReaderState {
    /// The session whose output the reader forwards.
    pub session: Seq<char>,
    /// Whether the reader has reported the exit.
    pub finished: bool,
}

impl View for ReaderTask {
    type V = ReaderState;

    closed spec fn view(&self) -> ReaderState {
        ReaderState { session: self.session@, finished: self.finished }
    }
}

/// The reader of `session` before its first read.
pub open spec fn fresh(session: Seq<char>) -> ReaderState {
    ReaderState { session, finished: false }
}

/// One step of a reader: the state after a read that delivered `delivered`
/// (`None` where the stream ended or the read failed), and what is emitted.
/// A running reader forwards text as a data notification and stays running; on
/// the end of the stream it emits the exit and finishes. A finished reader
/// emits nothing.
pub open spec fn step(state: ReaderState, delivered: Option<Seq<char>>) -> (
    ReaderState,
    Option<NotificationView>,
) {
    if state.finished {
        (state, None)
    } else {
        match delivered {
            Some(text) => (state, Some(NotificationView::Data { session: state.session, text })),
            None => (
                ReaderState { session: state.session, finished: true },
                Some(NotificationView::Exit { session: state.session }),
            ),
        }
    }
}

/// The notification of a step, as plain values.
pub open spec fn emitted(notification: Option<Notification>) -> Option<NotificationView> {
    match notification {
        Some(n) => Some(n@),
        None => None,
    }
}

/// Everything that a reader in `state` emits over a run of reads, in order.
/// Each entry of `reads` is what one read delivered: text, or `None` where the
/// stream ended or the read failed.
pub open spec fn run(state: ReaderState, reads: Seq<Option<Seq<char>>>) -> Seq<NotificationView>
    decreases reads.len(),
{
    if reads.len() == 0 {
        Seq::empty()
    } else {
        let (next, out) = step(state, reads[0]);
        let rest = run(next, reads.drop_first());
        match out {
            Some(notification) => seq![notification] + rest,
            None => rest,
        }
    }
}

/// The number of reads that delivered text before the stream first ended.
pub open spec fn reads_before_end(reads: Seq<Option<Seq<char>>>) -> nat
    decreases reads.len(),
{
    if reads.len() == 0 || reads[0] is None {
        0
    } else {
        1 + reads_before_end(reads.drop_first())
    }
}

/// A finished reader emits nothing, whatever is read.
pub proof fn lemma_finished_reader_is_silent(state: ReaderState, reads: Seq<Option<Seq<char>>>)
    requires
        state.finished,
    ensures
        run(state, reads) == Seq::<NotificationView>::empty(),
    decreases reads.len(),
{
    if reads.len() > 0 {
        lemma_finished_reader_is_silent(state, reads.drop_first());
    }
}

/// Output is forwarded in the order it was read, up to the end of the stream:
/// a new reader emits one data notification per read, with that read's text,
/// then the exit at the first read that delivers nothing, and nothing more.
pub proof fn lemma_output_is_forwarded_in_order(session: Seq<char>, reads: Seq<Option<Seq<char>>>)
    ensures
        ({
            let trace = run(fresh(session), reads);
            let k = reads_before_end(reads);
            &&& k <= reads.len()
            &&& forall|i: int| 0 <= i < k ==> (#[trigger] reads[i]) is Some
            &&& k < reads.len() ==> reads[k as int] is None
            &&& trace.len() == if k < reads.len() { k + 1 } else { k }
            &&& forall|i: int|
                0 <= i < k ==> #[trigger] trace[i] == (NotificationView::Data {
                    session,
                    text: reads[i]->0,
                })
            &&& k < reads.len() ==> trace[k as int] == (NotificationView::Exit { session })
        }),
    decreases reads.len(),
{
    if reads.len() == 0 {
    } else if reads[0] is None {
        lemma_finished_reader_is_silent(
            ReaderState { session, finished: true },
            reads.drop_first(),
        );
    } else {
        let tail = reads.drop_first();
        lemma_output_is_forwarded_in_order(session, tail);
        let trace = run(fresh(session), reads);
        let rest = run(fresh(session), tail);
        let k = reads_before_end(reads);
        assert(trace == seq![NotificationView::Data { session, text: reads[0]->0 }] + rest);
        assert forall|i: int| 0 <= i < k implies (#[trigger] reads[i]) is Some by {
            if i > 0 {
                assert(tail[i - 1] == reads[i]);
            }
        }
        assert forall|i: int| 0 <= i < k implies #[trigger] trace[i] == (NotificationView::Data {
            session,
            text: reads[i]->0,
        }) by {
            if i > 0 {
                assert(trace[i] == rest[i - 1]);
                assert(tail[i - 1] == reads[i]);
            }
        }
        if k < reads.len() {
            assert(tail[k - 1] == reads[k as int]);
            assert(trace[k as int] == rest[k - 1]);
        }
    }
}

/// Once the stream of a session has ended, its reader has emitted exactly one
/// exit, and nothing after it. Every notification of a reader is scoped to its
/// session; an exit is the last of them, so there is never a second one and no
/// data follows it; it is there as soon as one read delivered nothing; and a
/// reader whose reads all delivered text has emitted no exit.
pub proof fn lemma_exit_is_emitted_once_and_last(session: Seq<char>, reads: Seq<Option<Seq<char>>>)
    ensures
        ({
            let trace = run(fresh(session), reads);
            &&& forall|i: int| 0 <= i < trace.len() ==> (#[trigger] trace[i]).session() == session
            &&& forall|i: int|
                0 <= i < trace.len() && (#[trigger] trace[i]) is Exit ==> i == trace.len() - 1
            &&& forall|i: int, j: int|
                0 <= i < trace.len() && 0 <= j < trace.len() && (#[trigger] trace[i]) is Exit && (
                #[trigger] trace[j]) is Exit ==> i == j
            &&& (exists|r: int| 0 <= r < reads.len() && (#[trigger] reads[r]) is None)
                ==> trace.len() > 0 && trace.last() is Exit
            &&& (forall|r: int| 0 <= r < reads.len() ==> (#[trigger] reads[r]) is Some)
                ==> forall|i: int| 0 <= i < trace.len() ==> (#[trigger] trace[i]) is Data
        }),
{
    lemma_output_is_forwarded_in_order(session, reads);
    let trace = run(fresh(session), reads);
    let k = reads_before_end(reads);
    assert forall|i: int| 0 <= i < trace.len() implies (#[trigger] trace[i]).session()
        == session by {
        if i < k {
            assert(trace[i] == (NotificationView::Data { session, text: reads[i]->0 }));
        }
    }
    assert forall|i: int| 0 <= i < trace.len() && (#[trigger] trace[i]) is Exit implies i
        == trace.len() - 1 by {
        if i < k {
            assert(trace[i] == (NotificationView::Data { session, text: reads[i]->0 }));
        }
    }
    if exists|r: int| 0 <= r < reads.len() && (#[trigger] reads[r]) is None {
        let r = choose|r: int| 0 <= r < reads.len() && (#[trigger] reads[r]) is None;
        if k == reads.len() {
            assert(reads[r] is Some);
        }
    }
    if forall|r: int| 0 <= r < reads.len() ==> (#[trigger] reads[r]) is Some {
        if k < reads.len() {
            assert(reads[k as int] is Some);
        }
        assert forall|i: int| 0 <= i < trace.len() implies (#[trigger] trace[i]) is Data by {
            assert(trace[i] == (NotificationView::Data { session, text: reads[i]->0 }));
        }
    }
}

/// Text survives the way to the process and back: the bytes that a write
/// sends for it are valid UTF-8, and a read that delivers just those bytes is
/// forwarded as the same text.
pub proof fn lemma_text_survives_the_round_trip(text: Seq<char>)
    ensures
        valid_utf8(encode_utf8(text)),
        decode_utf8(encode_utf8(text)) == text,
{
    vstd::utf8::encode_utf8_valid_utf8(text);
    vstd::utf8::encode_utf8_decode_utf8(text);
}

impl ReaderTask {
    /// The reader of a session that was just registered.
    pub(crate) fn new(session: String) -> (task: ReaderTask)
        ensures
            task@ == fresh(session@),
    {
        ReaderTask { session, finished: false }
    }

    /// The session whose output this reader forwards.
    pub fn session(&self) -> (session: &str)
        ensures
            session@ == self@.session,
    {
        self.session.as_str()
    }

    /// Whether the reader has reported the exit; the host then stops reading.
    pub fn is_finished(&self) -> (finished: bool)
        ensures
            finished == self@.finished,
    {
        self.finished
    }

    /// Takes one step on text that is already decoded; `None` stands for the end
    /// of the stream or a failed read.
    pub fn advance(&mut self, delivered: Option<String>) -> (notification: Option<Notification>)
        ensures
            (final(self)@, emitted(notification)) == step(old(self)@, delivered.deep_view()),
    {
        if self.finished {
            return None;
        }
        match delivered {
            Some(text) => Some(Notification::Data { session: self.session.clone(), text }),
            None => {
                self.finished = true;
                Some(Notification::Exit { session: self.session.clone() })
            },
        }
    }

    /// Takes one step on the outcome of a read into `buffer`: what to emit, if
    /// anything. Output is decoded as UTF-8, lossily. A finished reader decodes
    /// and emits nothing.
    pub fn on_read<E>(&mut self, buffer: &[u8], outcome: Result<usize, E>) -> (notification: Option<
        Notification,
    >)
        requires
            outcome matches Ok(count) ==> count <= buffer@.len(),
        ensures
            (final(self)@, emitted(notification)) == step(
                old(self)@,
                received_text(buffer@, outcome),
            ),
            received(buffer@, outcome) matches Some(bytes) ==> !old(self)@.finished && valid_utf8(
                bytes,
            ) ==> emitted(notification) == Some(
                NotificationView::Data { session: old(self)@.session, text: decode_utf8(bytes) },
            ),
    {
        if self.finished {
            return None;
        }
        let delivered = match received_bytes(buffer, &outcome) {
            Some(bytes) => Some(decode_lossy(bytes)),
            None => None,
        };
        self.advance(delivered)
    }
}

} // verus!
