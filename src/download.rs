//! The decisions of one streaming download of the engine.
//!
//! The caller reads the response body one chunk at a time and writes each
//! chunk to the destination file. It reports every outcome to a
//! [`DownloadSession`], which counts the bytes, works out the percentage to
//! show, and decides when the download has ended and how.
use vstd::prelude::*;
use vstd::arithmetic::div_mod::{lemma_div_is_ordered, lemma_div_by_multiple};

verus! {

/// What happened to the next chunk of the response body.
pub enum ChunkEvent {
    /// This chunk was read and written in full to the destination file.
    Data(Vec<u8>),
    /// Reading the body or writing the file failed with this message.
    Failed(String),
    /// The body has no more chunks.
    End,
}

/// What the download reports to the controller.
#[derive(Debug)]
pub enum DownloadMessage {
    /// The percentage of the declared length received so far; stays 0 where
    /// no length was declared.
    Progress(u128),
    /// The download is over: the path of the saved engine, or why it failed.
    Finished(Result<String, String>),
}

/// One download in progress, from the first byte to its single terminal
/// message.
pub struct DownloadSession {
    total: u64,
    downloaded: u64,
    path: String,
    finished: bool,
    written: Ghost<Seq<u8>>,
}

/// The mathematical state of a download session.
pub struct SessionView {
    /// The declared length of the body, or 0 where none was declared.
    pub total: u64,
    /// The number of bytes written so far (held at `u64::MAX` beyond it).
    pub downloaded: u64,
    /// Where the engine is being saved.
    pub path: String,
    /// Whether the terminal message has been given.
    pub finished: bool,
    /// The bytes handed to the destination file so far, in order.
    pub written: Seq<u8>,
}

impl View for DownloadSession {
    type V = SessionView;

    closed spec fn view(&self) -> SessionView {
        SessionView {
            total: self.total,
            downloaded: self.downloaded,
            path: self.path,
            finished: self.finished,
            written: self.written@,
        }
    }
}

/// `downloaded` out of `total` as a whole percentage, rounded down; 0 where
/// the total is unknown.
pub open spec fn percent(downloaded: nat, total: nat) -> nat {
    if total == 0 {
        0
    } else {
        downloaded * 100 / total
    }
}

/// `a + b`, held at `u64::MAX`.
pub open spec fn add_capped(a: u64, b: nat) -> u64 {
    if a + b > u64::MAX {
        u64::MAX
    } else {
        (a + b) as u64
    }
}

/// A session that has written nothing yet.
pub open spec fn fresh_view(path: String, total: u64) -> SessionView {
    SessionView { total, downloaded: 0, path, finished: false, written: Seq::empty() }
}

/// The state after `e`, and the message it gives (none once finished).
pub open spec fn step_spec(v: SessionView, e: ChunkEvent) -> (SessionView, Option<DownloadMessage>) {
    if v.finished {
        (v, None)
    } else {
        match e {
            ChunkEvent::Data(c) => {
                let d = add_capped(v.downloaded, c@.len());
                (
                    SessionView {
                        total: v.total,
                        downloaded: d,
                        path: v.path,
                        finished: false,
                        written: v.written + c@,
                    },
                    Some(DownloadMessage::Progress(percent(d as nat, v.total as nat) as u128)),
                )
            },
            ChunkEvent::Failed(m) => (
                SessionView {
                    total: v.total,
                    downloaded: v.downloaded,
                    path: v.path,
                    finished: true,
                    written: v.written,
                },
                Some(DownloadMessage::Finished(Err(m))),
            ),
            ChunkEvent::End => (
                SessionView {
                    total: v.total,
                    downloaded: v.downloaded,
                    path: v.path,
                    finished: true,
                    written: v.written,
                },
                Some(DownloadMessage::Finished(Ok(v.path))),
            ),
        }
    }
}

/// The state after `events` in order, and the message each one gave.
pub open spec fn run(v: SessionView, events: Seq<ChunkEvent>) -> (SessionView, Seq<
    Option<DownloadMessage>,
>)
    decreases events.len(),
{
    if events.len() == 0 {
        (v, Seq::empty())
    } else {
        let (w, ms) = run(v, events.drop_last());
        let (x, m) = step_spec(w, events.last());
        (x, ms.push(m))
    }
}

/// Whether every event of `events` is a written chunk.
pub open spec fn all_data(events: Seq<ChunkEvent>) -> bool {
    forall|i: int| 0 <= i < events.len() ==> #[trigger] events[i] is Data
}

/// The bytes that the chunks among `events` carry, in order.
pub open spec fn data_bytes(events: Seq<ChunkEvent>) -> Seq<u8>
    decreases events.len(),
{
    if events.len() == 0 {
        Seq::empty()
    } else {
        data_bytes(events.drop_last()) + match events.last() {
            ChunkEvent::Data(c) => c@,
            _ => Seq::empty(),
        }
    }
}

impl DownloadSession {
    /// Starts a download into `path`; `content_length` is the length the
    /// response declared, if any. The first message is a progress of 0.
    pub fn start(path: String, content_length: Option<u64>) -> (r: (DownloadSession, DownloadMessage))
        ensures
            r.0@ == fresh_view(
                path,
                match content_length {
                    Some(n) => n,
                    None => 0,
                },
            ),
            r.1 == DownloadMessage::Progress(0),
    {
        let total = match content_length {
            Some(n) => n,
            None => 0,
        };
        let s = DownloadSession {
            total,
            downloaded: 0,
            path,
            finished: false,
            written: Ghost(Seq::empty()),
        };
        (s, DownloadMessage::Progress(0))
    }

    /// Takes in what happened to the next chunk and gives the message to
    /// report: a progress update for a written chunk, the terminal message
    /// for a failure or the end of the body, and nothing once finished.
    pub fn step(&mut self, event: ChunkEvent) -> (r: Option<DownloadMessage>)
        ensures
            (final(self)@, r) == step_spec(old(self)@, event),
    {
        if self.finished {
            return None;
        }
        match event {
            ChunkEvent::Data(c) => {
                let len = c.len() as u64;
                self.downloaded = if self.downloaded > u64::MAX - len {
                    u64::MAX
                } else {
                    self.downloaded + len
                };
                self.written = Ghost(self.written@ + c@);
                let p = progress_percent(self.downloaded, self.total);
                Some(DownloadMessage::Progress(p))
            },
            ChunkEvent::Failed(m) => {
                self.finished = true;
                Some(DownloadMessage::Finished(Err(m)))
            },
            ChunkEvent::End => {
                self.finished = true;
                Some(DownloadMessage::Finished(Ok(self.path.clone())))
            },
        }
    }

    /// Whether the terminal message has been given.
    pub fn is_finished(&self) -> (r: bool)
        ensures
            r == self@.finished,
    {
        self.finished
    }
}

/// `downloaded` out of `total` as a whole percentage, rounded down; 0 where
/// the total is unknown.
pub fn progress_percent(downloaded: u64, total: u64) -> (r: u128)
    ensures
        r as nat == percent(downloaded as nat, total as nat),
{
    if total == 0 {
        0
    } else {
        let d = downloaded as u128;
        assert(d * 100 <= u64::MAX as u128 * 100) by (nonlinear_arith)
            requires
                d <= u64::MAX,
        ;
        d * 100 / (total as u128)
    }
}

proof fn lemma_percent_ordered(a: nat, b: nat, t: nat)
    requires
        a <= b,
    ensures
        percent(a, t) <= percent(b, t),
{
    if t > 0 {
        assert(a * 100 <= b * 100) by (nonlinear_arith)
            requires
                a <= b,
        ;
        lemma_div_is_ordered((a * 100) as int, (b * 100) as int, t as int);
    }
}

proof fn lemma_percent_bounded(a: nat, t: nat)
    requires
        a <= u64::MAX,
    ensures
        percent(a, t) <= u128::MAX,
{
    if t > 0 {
        assert(a * 100 / t <= a * 100) by (nonlinear_arith)
            requires
                t > 0,
        ;
    }
}

proof fn lemma_data_bytes_prefix(events: Seq<ChunkEvent>, k: int)
    requires
        0 <= k <= events.len(),
    ensures
        data_bytes(events.take(k)).len() <= data_bytes(events).len(),
    decreases events.len(),
{
    if k < events.len() {
        assert(events.drop_last().take(k) =~= events.take(k));
        lemma_data_bytes_prefix(events.drop_last(), k);
    } else {
        assert(events.take(k) =~= events);
    }
}

/// Written chunks leave a session unfinished, add exactly their bytes to what
/// was written, in order, and each give one progress message; where no length
/// was declared every one of those messages is 0.
pub proof fn lemma_chunks_append(v: SessionView, events: Seq<ChunkEvent>)
    requires
        !v.finished,
        all_data(events),
    ensures
        !run(v, events).0.finished,
        run(v, events).0.total == v.total,
        run(v, events).0.path == v.path,
        run(v, events).0.written == v.written + data_bytes(events),
        run(v, events).1.len() == events.len(),
        forall|i: int|
            0 <= i < events.len() ==> (#[trigger] run(v, events).1[i] matches Some(
                DownloadMessage::Progress(p),
            ) && (v.total == 0 ==> p == 0)),
    decreases events.len(),
{
    if events.len() > 0 {
        let rest = events.drop_last();
        assert(all_data(rest)) by {
            assert forall|i: int| 0 <= i < rest.len() implies #[trigger] rest[i] is Data by {
                assert(rest[i] == events[i]);
            }
        }
        lemma_chunks_append(v, rest);
        assert(events.last() == events[events.len() - 1]);
        let (w, ms) = run(v, rest);
        assert(run(v, events).1 == ms.push(step_spec(w, events.last()).1));
        assert(run(v, events).0.written =~= v.written + data_bytes(events));
        assert forall|i: int| 0 <= i < events.len() implies (#[trigger] run(v, events).1[i] matches Some(
            DownloadMessage::Progress(p),
        ) && (v.total == 0 ==> p == 0)) by {
            if i < events.len() - 1 {
                assert(run(v, events).1[i] == ms[i]);
            }
        }
    }
}

/// Where the chunks carry no more bytes than `u64::MAX` in all, each one
/// reports the percentage of everything received up to and including it.
pub proof fn lemma_chunks_progress(v: SessionView, events: Seq<ChunkEvent>)
    requires
        !v.finished,
        all_data(events),
        v.downloaded + data_bytes(events).len() <= u64::MAX,
    ensures
        run(v, events).0.downloaded == v.downloaded + data_bytes(events).len(),
        forall|i: int|
            0 <= i < events.len() ==> #[trigger] run(v, events).1[i] == Some(
                DownloadMessage::Progress(
                    percent(
                        (v.downloaded + data_bytes(events.take(i + 1)).len()) as nat,
                        v.total as nat,
                    ) as u128,
                ),
            ),
    decreases events.len(),
{
    lemma_chunks_append(v, events);
    if events.len() > 0 {
        let rest = events.drop_last();
        assert(all_data(rest)) by {
            assert forall|i: int| 0 <= i < rest.len() implies #[trigger] rest[i] is Data by {
                assert(rest[i] == events[i]);
            }
        }
        lemma_chunks_append(v, rest);
        assert(events.last() == events[events.len() - 1]);
        assert(data_bytes(events).len() == data_bytes(rest).len() + events.last()->Data_0@.len());
        lemma_chunks_progress(v, rest);
        let (w, ms) = run(v, rest);
        assert(run(v, events).1 == ms.push(step_spec(w, events.last()).1));
        assert forall|i: int| 0 <= i < events.len() implies #[trigger] run(v, events).1[i] == Some(
            DownloadMessage::Progress(
                percent((v.downloaded + data_bytes(events.take(i + 1)).len()) as nat, v.total as nat)
                    as u128,
            ),
        ) by {
            if i < events.len() - 1 {
                assert(rest.take(i + 1) =~= events.take(i + 1));
                assert(run(v, events).1[i] == ms[i]);
            } else {
                assert(events.take(i + 1) =~= events);
            }
        }
    }
}

/// A body of exactly the declared length, read in chunks, reports
/// percentages that never go down and whose last is exactly 100.
pub proof fn lemma_progress_reaches_full(path: String, total: u64, events: Seq<ChunkEvent>)
    requires
        all_data(events),
        data_bytes(events).len() == total,
        events.len() > 0,
        total > 0,
    ensures
        forall|i: int, j: int|
            0 <= i <= j < events.len() ==> ((#[trigger] run(fresh_view(path, total), events).1[i])
                matches Some(DownloadMessage::Progress(p)) && (#[trigger] run(
                fresh_view(path, total),
                events,
            ).1[j]) matches Some(DownloadMessage::Progress(q)) && p <= q),
        run(fresh_view(path, total), events).1.last() == Some(DownloadMessage::Progress(100)),
{
    let v = fresh_view(path, total);
    lemma_chunks_append(v, events);
    lemma_chunks_progress(v, events);
    let ms = run(v, events).1;
    assert forall|i: int, j: int| 0 <= i <= j < events.len() implies ((#[trigger] ms[i]) matches Some(
        DownloadMessage::Progress(p),
    ) && (#[trigger] ms[j]) matches Some(DownloadMessage::Progress(q)) && p <= q) by {
        let a = data_bytes(events.take(i + 1)).len();
        let b = data_bytes(events.take(j + 1)).len();
        assert(events.take(j + 1).take(i + 1) =~= events.take(i + 1));
        lemma_data_bytes_prefix(events.take(j + 1), i + 1);
        lemma_data_bytes_prefix(events, j + 1);
        lemma_percent_ordered(a, b, total as nat);
        lemma_percent_bounded(a, total as nat);
        lemma_percent_bounded(b, total as nat);
    }
    let n = events.len() - 1;
    assert(events.take(n + 1) =~= events);
    assert(ms.last() == ms[n]);
    lemma_div_by_multiple(100, total as int);
    assert(total * 100 == 100 * total) by (nonlinear_arith);
}

/// Where no length was declared, every chunk reports 0, and the end of the
/// body then gives the single terminal message with the saved path.
pub proof fn lemma_unknown_length_stays_zero(path: String, events: Seq<ChunkEvent>)
    requires
        all_data(events),
    ensures
        forall|i: int|
            0 <= i < events.len() ==> #[trigger] run(fresh_view(path, 0), events).1[i]
                == Some(DownloadMessage::Progress(0)),
        run(fresh_view(path, 0), events.push(ChunkEvent::End)).1.last() == Some(
            DownloadMessage::Finished(Ok(path)),
        ),
        run(fresh_view(path, 0), events.push(ChunkEvent::End)).0.finished,
{
    let v = fresh_view(path, 0);
    lemma_chunks_append(v, events);
    assert(events.push(ChunkEvent::End).drop_last() =~= events);
}

/// A failure after some chunks were written leaves exactly their bytes, in
/// order and nothing after them, and gives a failure as the terminal
/// message; no message follows it.
pub proof fn lemma_failure_keeps_written_prefix(
    path: String,
    total: u64,
    events: Seq<ChunkEvent>,
    message: String,
    later: ChunkEvent,
)
    requires
        all_data(events),
    ensures
        ({
            let (w, ms) = run(fresh_view(path, total), events.push(ChunkEvent::Failed(message)));
            &&& w.written == data_bytes(events)
            &&& w.finished
            &&& ms.last() == Some(DownloadMessage::Finished(Err(message)))
            &&& step_spec(w, later) == (w, None::<DownloadMessage>)
        }),
{
    let v = fresh_view(path, total);
    lemma_chunks_append(v, events);
    assert(events.push(ChunkEvent::Failed(message)).drop_last() =~= events);
    assert(v.written + data_bytes(events) =~= data_bytes(events));
}

} // verus!
