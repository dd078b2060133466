use vstd::prelude::*;

use crate::downloader::Error;

verus! {

/// How many milliseconds a rendered progress position stands before the
/// visible bar may be refreshed again.
pub const PROGRESS_UPDATE_INTERVAL_MILLIS: u64 = 1000;

/// The length of the buffer a download streams through.
pub const DOWNLOAD_BUFFER_BYTES: usize = 1024 * 64;

/// The phase of one download task. A task moves forward only — once it
/// reaches `Succeeded` or `Failed` no event is accepted any more.
#[derive(Clone, Copy, Debug, PartialEq, Eq, Structural)]
pub enum TaskPhase {
    Pending,
    Allocated,
    Streaming,
    Succeeded,
    Failed,
}

/// Whether a visible refresh is due at `now`: none has happened yet, or
/// more than the refresh interval has passed since the last one.
pub open spec fn render_due(last: Option<u64>, now: u64) -> bool {
    match last {
        None => true,
        Some(t) => now - t > PROGRESS_UPDATE_INTERVAL_MILLIS,
    }
}

/// One file's download, from pre-allocation to a terminal phase.
///
/// The worker that owns the task performs the outside work — creating the
/// destination, issuing the request, reading and writing chunks — and
/// feeds each outcome in as an event. The task decides the next phase,
/// keeps the byte accounting exact, and throttles the visible progress
/// rendering. No state is shared with any other task.
pub struct DownloadTask {
    expected_size: u64,
    phase: TaskPhase,
    failure: Option<Error>,
    bytes_received: u64,
    last_render_millis: Option<u64>,
    received: Ghost<Seq<u8>>,
}

impl DownloadTask {
    /// The task's phase.
    pub closed spec fn phase(&self) -> TaskPhase {
        self.phase
    }

    /// Why the task failed; `Some` exactly in the `Failed` phase.
    pub closed spec fn failure(&self) -> Option<Error> {
        self.failure
    }

    /// How many bytes have been received and written so far.
    pub closed spec fn bytes(&self) -> u64 {
        self.bytes_received
    }

    /// The bytes received and written so far, in order.
    pub closed spec fn received(&self) -> Seq<u8> {
        self.received@
    }

    /// The size the manifest declared for this file.
    pub closed spec fn expected_size(&self) -> u64 {
        self.expected_size
    }

    /// When the visible bar was last refreshed, if ever.
    pub closed spec fn last_render(&self) -> Option<u64> {
        self.last_render_millis
    }

    /// Well-formedness: the byte counter counts exactly the received
    /// bytes, nothing arrives before streaming, and a failure reason is
    /// recorded exactly in the `Failed` phase.
    pub closed spec fn inv(&self) -> bool {
        &&& self.received@.len() == self.bytes_received
        &&& (self.phase == TaskPhase::Pending || self.phase == TaskPhase::Allocated)
            ==> self.bytes_received == 0 && self.last_render_millis is None
        &&& self.failure is Some <==> self.phase == TaskPhase::Failed
    }

    /// A fresh task for a descriptor's declared size.
    pub fn new(expected_size: u64) -> (t: Self)
        ensures
            t.inv(),
            t.phase() == TaskPhase::Pending,
            t.expected_size() == expected_size,
            t.bytes() == 0,
            t.received() == Seq::<u8>::empty(),
            t.last_render() is None,
    {
        DownloadTask {
            expected_size,
            phase: TaskPhase::Pending,
            failure: None,
            bytes_received: 0,
            last_render_millis: None,
            received: Ghost(Seq::empty()),
        }
    }

    /// The outcome of pre-allocating the destination file to the expected
    /// size. Success moves the task to `Allocated`; a failure to create or
    /// extend the file fails only the one download, with `IoError`.
    pub fn on_allocation(&mut self, ok: bool)
        requires
            old(self).inv(),
            old(self).phase() == TaskPhase::Pending,
        ensures
            final(self).inv(),
            final(self).expected_size() == old(self).expected_size(),
            final(self).bytes() == 0,
            final(self).received() == Seq::<u8>::empty(),
            final(self).last_render() is None,
            ok ==> final(self).phase() == TaskPhase::Allocated,
            !ok ==> final(self).phase() == TaskPhase::Failed && final(self).failure() == Some(
                Error::IoError,
            ),
    {
        if ok {
            self.phase = TaskPhase::Allocated;
        } else {
            self.phase = TaskPhase::Failed;
            self.failure = Some(Error::IoError);
        }
        proof {
            assert(self.received@ =~= Seq::<u8>::empty());
        }
    }

    /// The status of the response to this file's request. A success
    /// status starts streaming; any other status fails only the one
    /// download, with `InvalidResponse` (the caller finalizes the bar at zero
    /// length to make the failure visible).
    pub fn on_status(&mut self, success: bool)
        requires
            old(self).inv(),
            old(self).phase() == TaskPhase::Allocated,
        ensures
            final(self).inv(),
            final(self).expected_size() == old(self).expected_size(),
            final(self).bytes() == 0,
            final(self).received() == Seq::<u8>::empty(),
            final(self).last_render() is None,
            success ==> final(self).phase() == TaskPhase::Streaming,
            !success ==> final(self).phase() == TaskPhase::Failed && final(self).failure()
                == Some(Error::InvalidResponse),
    {
        if success {
            self.phase = TaskPhase::Streaming;
        } else {
            self.phase = TaskPhase::Failed;
            self.failure = Some(Error::InvalidResponse);
        }
        proof {
            assert(self.received@ =~= Seq::<u8>::empty());
        }
    }

    /// One received chunk, and whether writing it to the destination
    /// succeeded. On a successful write the bytes are accounted exactly
    /// and the result says whether the visible bar may be rendered now —
    /// at most once per refresh interval. A failed write fails only the one
    /// download, with `IoError`; the accounting then stands as it was.
    pub fn on_chunk(&mut self, chunk: &[u8], write_ok: bool, now_millis: u64) -> (render: bool)
        requires
            old(self).inv(),
            old(self).phase() == TaskPhase::Streaming,
            chunk@.len() > 0,
            old(self).bytes() + chunk@.len() <= u64::MAX,
            old(self).last_render() matches Some(t) ==> t <= now_millis,
        ensures
            final(self).inv(),
            final(self).expected_size() == old(self).expected_size(),
            write_ok ==> {
                &&& final(self).phase() == TaskPhase::Streaming
                &&& final(self).bytes() == old(self).bytes() + chunk@.len()
                &&& final(self).received() == old(self).received() + chunk@
                &&& render == render_due(old(self).last_render(), now_millis)
                &&& final(self).last_render() == (if render {
                    Some(now_millis)
                } else {
                    old(self).last_render()
                })
            },
            !write_ok ==> {
                &&& final(self).phase() == TaskPhase::Failed
                &&& final(self).failure() == Some(Error::IoError)
                &&& final(self).bytes() == old(self).bytes()
                &&& final(self).received() == old(self).received()
                &&& !render
            },
    {
        if !write_ok {
            self.phase = TaskPhase::Failed;
            self.failure = Some(Error::IoError);
            return false;
        }
        self.bytes_received = self.bytes_received + chunk.len() as u64;
        self.received = Ghost(self.received@ + chunk@);
        let render = match self.last_render_millis {
            None => true,
            Some(t) => now_millis - t > PROGRESS_UPDATE_INTERVAL_MILLIS,
        };
        if render {
            self.last_render_millis = Some(now_millis);
        }
        render
    }

    /// A read of zero bytes: the end of the stream. Once at least one
    /// byte has arrived this is a normal end and the task succeeds; an
    /// immediately-empty body fails only the one download, with
    /// `DownloadFail`.
    pub fn on_end_of_stream(&mut self)
        requires
            old(self).inv(),
            old(self).phase() == TaskPhase::Streaming,
        ensures
            final(self).inv(),
            final(self).expected_size() == old(self).expected_size(),
            final(self).bytes() == old(self).bytes(),
            final(self).received() == old(self).received(),
            old(self).bytes() > 0 ==> final(self).phase() == TaskPhase::Succeeded,
            old(self).bytes() == 0 ==> final(self).phase() == TaskPhase::Failed
                && final(self).failure() == Some(Error::DownloadFail),
    {
        if self.bytes_received > 0 {
            self.phase = TaskPhase::Succeeded;
        } else {
            self.phase = TaskPhase::Failed;
            self.failure = Some(Error::DownloadFail);
        }
    }

    /// A failed read. A network blip is a permanent failure for this
    /// file's attempt: the bytes already written stand as they are, and
    /// the task fails with `DownloadFail` — only a normal end of stream
    /// can succeed a download.
    pub fn on_read_error(&mut self)
        requires
            old(self).inv(),
            old(self).phase() == TaskPhase::Streaming,
        ensures
            final(self).inv(),
            final(self).expected_size() == old(self).expected_size(),
            final(self).bytes() == old(self).bytes(),
            final(self).received() == old(self).received(),
            final(self).phase() == TaskPhase::Failed,
            final(self).failure() == Some(Error::DownloadFail),
    {
        self.phase = TaskPhase::Failed;
        self.failure = Some(Error::DownloadFail);
    }

    /// The request for this file could not be sent at all: no response,
    /// no status. Like any other network failure this is permanent for
    /// this file's attempt, with `DownloadFail`.
    pub fn on_send_failure(&mut self)
        requires
            old(self).inv(),
            old(self).phase() == TaskPhase::Allocated,
        ensures
            final(self).inv(),
            final(self).expected_size() == old(self).expected_size(),
            final(self).bytes() == 0,
            final(self).received() == Seq::<u8>::empty(),
            final(self).phase() == TaskPhase::Failed,
            final(self).failure() == Some(Error::DownloadFail),
    {
        self.phase = TaskPhase::Failed;
        self.failure = Some(Error::DownloadFail);
        proof {
            assert(self.received@ =~= Seq::<u8>::empty());
        }
    }

    /// The length the destination file must end with once the task has
    /// succeeded: exactly the bytes received, whatever size the manifest
    /// declared.
    pub fn final_length(&self) -> (n: u64)
        requires
            self.inv(),
            self.phase() == TaskPhase::Succeeded,
        ensures
            n == self.bytes(),
            n == self.received().len(),
    {
        self.bytes_received
    }

    /// The task's phase, for the worker loop.
    pub fn current_phase(&self) -> (p: TaskPhase)
        ensures
            p == self.phase(),
    {
        self.phase
    }

    /// Why the task failed, if it did.
    pub fn failure_of(&self) -> (e: Option<Error>)
        ensures
            e == self.failure(),
    {
        self.failure
    }

    /// How many bytes have been received so far, for the worker loop.
    pub fn bytes_received(&self) -> (n: u64)
        ensures
            n == self.bytes(),
    {
        self.bytes_received
    }
}

/// Once a task has succeeded, the destination holds exactly the bytes
/// that were streamed to it: its final length is the byte counter, which
/// counts the received bytes — not the size the manifest declared.
pub proof fn lemma_succeeded_length(t: DownloadTask)
    requires
        t.inv(),
        t.phase() == TaskPhase::Succeeded,
    ensures
        t.received().len() == t.bytes(),
{
}

} // verus!
