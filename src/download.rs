use vstd::prelude::*;
use crate::error::{InstallError, TransferStage};
use crate::progress::{
    DownloadProgress, Percentage, SAMPLE_INTERVAL_MS, snapshot, sample_due, spec_sample_due,
    spec_snapshot,
};

verus! {

/// Where a download session stands.
#[derive(Clone, Copy, Debug, PartialEq, Eq, Structural)]
pub enum SessionState {
    Active,
    Completed,
    Failed,
}

/// The running count of one streamed download. The host owns the response
/// stream and the destination file; it reports what happens to them as
/// `TransferEvent`s and performs the `SessionAction` that each one yields.
#[derive(Clone, Copy, Debug, PartialEq, Eq, Structural)]
pub struct DownloadSession {
    /// Bytes written to the destination so far.
    pub downloaded: u64,
    /// Declared size of the body, when the server sent one.
    pub total: Option<u64>,
    /// Milliseconds since the start at which the last snapshot was taken.
    pub last_sample_ms: u64,
    pub state: SessionState,
}

/// What happened to the transfer.
#[derive(Debug)]
pub enum TransferEvent {
    /// A chunk of `len` bytes was received and written, `now_ms`
    /// milliseconds after the download started.
    Chunk { len: u64, now_ms: u64 },
    /// Reading the body failed.
    ReadFailed(String),
    /// Writing to the destination file failed.
    WriteFailed(String),
    /// The body is exhausted and the file closed.
    Finished,
}

/// What the host does next.
#[derive(Debug)]
pub enum SessionAction {
    /// Read the next chunk.
    Continue,
    /// Emit this snapshot, then read the next chunk.
    Progress(DownloadProgress),
    /// Emit the completion; the download is over.
    Complete { downloaded: u64, total: Option<u64> },
    /// Emit the failure and stop; the partial file stays where it is.
    Fail(InstallError),
    /// The session is over; the event changes nothing.
    Ignore,
}

impl SessionAction {
    /// The action ends the session.
    pub open spec fn is_outcome(self) -> bool {
        self is Complete || self is Fail
    }
}

impl DownloadSession {
    /// The effect of one event: the next session and the action to take.
    pub open spec fn step(self, e: TransferEvent) -> (DownloadSession, SessionAction) {
        if self.state != SessionState::Active {
            (self, SessionAction::Ignore)
        } else {
            match e {
                TransferEvent::Chunk { len, now_ms } => {
                    let downloaded = if self.downloaded + len > u64::MAX {
                        u64::MAX
                    } else {
                        (self.downloaded + len) as u64
                    };
                    if spec_sample_due(self.last_sample_ms, now_ms) {
                        (
                            DownloadSession { downloaded, last_sample_ms: now_ms, ..self },
                            SessionAction::Progress(spec_snapshot(downloaded, self.total, now_ms)),
                        )
                    } else {
                        (DownloadSession { downloaded, ..self }, SessionAction::Continue)
                    }
                },
                TransferEvent::ReadFailed(detail) => (
                    DownloadSession { state: SessionState::Failed, ..self },
                    SessionAction::Fail(
                        InstallError::TransferFailure { stage: TransferStage::Read, detail },
                    ),
                ),
                TransferEvent::WriteFailed(detail) => (
                    DownloadSession { state: SessionState::Failed, ..self },
                    SessionAction::Fail(
                        InstallError::TransferFailure { stage: TransferStage::Write, detail },
                    ),
                ),
                TransferEvent::Finished => (
                    DownloadSession { state: SessionState::Completed, ..self },
                    SessionAction::Complete { downloaded: self.downloaded, total: self.total },
                ),
            }
        }
    }

    /// A session that has received nothing of a body of declared size `total`.
    pub open spec fn spec_new(total: Option<u64>) -> DownloadSession {
        DownloadSession { downloaded: 0, total, last_sample_ms: 0, state: SessionState::Active }
    }

    pub fn new(total: Option<u64>) -> (r: DownloadSession)
        ensures
            r == Self::spec_new(total),
    {
        DownloadSession { downloaded: 0, total, last_sample_ms: 0, state: SessionState::Active }
    }

    /// Takes in one event. A chunk adds to the count (saturating at the
    /// largest `u64`) and yields a snapshot when `SAMPLE_INTERVAL_MS` have
    /// passed since the last; a failure of the stream or of the file ends the
    /// session with a `TransferFailure`; the end of the body ends it with a
    /// completion. Once the session is over every event is ignored.
    pub fn on_event(&mut self, e: TransferEvent) -> (a: SessionAction)
        ensures
            (*final(self), a) == old(self).step(e),
    {
        if self.state != SessionState::Active {
            return SessionAction::Ignore;
        }
        match e {
            TransferEvent::Chunk { len, now_ms } => {
                self.downloaded = self.downloaded.saturating_add(len);
                if sample_due(self.last_sample_ms, now_ms) {
                    self.last_sample_ms = now_ms;
                    SessionAction::Progress(snapshot(self.downloaded, self.total, now_ms))
                } else {
                    SessionAction::Continue
                }
            },
            TransferEvent::ReadFailed(detail) => {
                self.state = SessionState::Failed;
                SessionAction::Fail(
                    InstallError::TransferFailure { stage: TransferStage::Read, detail },
                )
            },
            TransferEvent::WriteFailed(detail) => {
                self.state = SessionState::Failed;
                SessionAction::Fail(
                    InstallError::TransferFailure { stage: TransferStage::Write, detail },
                )
            },
            TransferEvent::Finished => {
                self.state = SessionState::Completed;
                SessionAction::Complete { downloaded: self.downloaded, total: self.total }
            },
        }
    }
}

/// The session after the first `n` events.
pub open spec fn session_after(s0: DownloadSession, events: Seq<TransferEvent>, n: nat) -> DownloadSession
    decreases n,
{
    if n == 0 {
        s0
    } else {
        session_after(s0, events, (n - 1) as nat).step(events[n - 1]).0
    }
}

/// The action that the event at index `n` yields.
pub open spec fn action_at(s0: DownloadSession, events: Seq<TransferEvent>, n: nat) -> SessionAction {
    session_after(s0, events, n).step(events[n as int]).1
}

proof fn lemma_sample_time_never_decreases(
    s0: DownloadSession,
    events: Seq<TransferEvent>,
    i: nat,
    j: nat,
)
    requires
        i <= j,
    ensures
        session_after(s0, events, i).last_sample_ms <= session_after(s0, events, j).last_sample_ms,
    decreases j - i,
{
    if j > i {
        lemma_sample_time_never_decreases(s0, events, i, (j - 1) as nat);
    }
}

/// Two snapshots of a session are taken at least `SAMPLE_INTERVAL_MS`
/// milliseconds apart, however fast the chunks arrive.
pub proof fn lemma_snapshots_spaced(s0: DownloadSession, events: Seq<TransferEvent>, i: nat, j: nat)
    requires
        i < j,
        action_at(s0, events, i) is Progress,
        action_at(s0, events, j) is Progress,
    ensures
        events[j as int]->Chunk_now_ms >= events[i as int]->Chunk_now_ms + SAMPLE_INTERVAL_MS,
{
    lemma_sample_time_never_decreases(s0, events, i + 1, j);
}

/// Bytes carried by the chunks among the first `n` events.
pub open spec fn chunk_bytes(events: Seq<TransferEvent>, n: nat) -> int
    decreases n,
{
    if n == 0 {
        0
    } else {
        chunk_bytes(events, (n - 1) as nat) + match events[n - 1] {
            TransferEvent::Chunk { len, .. } => len as int,
            _ => 0,
        }
    }
}

/// The first `n` events are all chunks.
pub open spec fn only_chunks_before(events: Seq<TransferEvent>, n: nat) -> bool {
    forall|i: int| 0 <= i < n ==> #[trigger] events[i] is Chunk
}

proof fn lemma_total_kept(s0: DownloadSession, events: Seq<TransferEvent>, n: nat)
    ensures
        session_after(s0, events, n).total == s0.total,
    decreases n,
{
    if n > 0 {
        lemma_total_kept(s0, events, (n - 1) as nat);
    }
}

proof fn lemma_active_while_chunks(s0: DownloadSession, events: Seq<TransferEvent>, n: nat)
    requires
        s0.state == SessionState::Active,
        only_chunks_before(events, n),
    ensures
        session_after(s0, events, n).state == SessionState::Active,
    decreases n,
{
    if n > 0 {
        lemma_active_while_chunks(s0, events, (n - 1) as nat);
        assert(events[n - 1] is Chunk);
    }
}

proof fn lemma_over_stays_over(s0: DownloadSession, events: Seq<TransferEvent>, i: nat, j: nat)
    requires
        i <= j,
        session_after(s0, events, i).state != SessionState::Active,
    ensures
        session_after(s0, events, j) == session_after(s0, events, i),
    decreases j - i,
{
    if j > i {
        lemma_over_stays_over(s0, events, i, (j - 1) as nat);
    }
}

/// The byte count of a session never goes down.
pub proof fn lemma_downloaded_never_decreases(
    s0: DownloadSession,
    events: Seq<TransferEvent>,
    i: nat,
    j: nat,
)
    requires
        i <= j,
    ensures
        session_after(s0, events, i).downloaded <= session_after(s0, events, j).downloaded,
    decreases j - i,
{
    if j > i {
        lemma_downloaded_never_decreases(s0, events, i, (j - 1) as nat);
    }
}

/// While only chunks have come, the byte count is their sum, held at the
/// largest `u64`.
pub proof fn lemma_downloaded_is_chunk_sum(total: Option<u64>, events: Seq<TransferEvent>, n: nat)
    requires
        only_chunks_before(events, n),
    ensures
        session_after(DownloadSession::spec_new(total), events, n).downloaded == if chunk_bytes(
            events,
            n,
        ) > u64::MAX {
            u64::MAX as int
        } else {
            chunk_bytes(events, n)
        },
    decreases n,
{
    if n > 0 {
        lemma_downloaded_is_chunk_sum(total, events, (n - 1) as nat);
        lemma_active_while_chunks(DownloadSession::spec_new(total), events, (n - 1) as nat);
        assert(events[n - 1] is Chunk);
    }
}

/// A download whose server declared no size reports every snapshot with no
/// total and the unknown percentage, and completes with no total.
pub proof fn lemma_unknown_size_stays_unknown(events: Seq<TransferEvent>, n: nat)
    requires
        n < events.len(),
    ensures
        ({
            let a = action_at(DownloadSession::spec_new(None), events, n);
            &&& a matches SessionAction::Progress(p) ==> p.total is None && p.percentage
                == Percentage::Unknown
            &&& a matches SessionAction::Complete { total, .. } ==> total is None
        }),
{
    lemma_total_kept(DownloadSession::spec_new(None), events, n);
}

/// After chunks only, the end of the body completes the download with the
/// declared size and the byte count of the chunks.
pub proof fn lemma_finish_completes(total: Option<u64>, events: Seq<TransferEvent>, k: nat)
    requires
        k < events.len(),
        only_chunks_before(events, k),
        events[k as int] is Finished,
        chunk_bytes(events, k) <= u64::MAX,
    ensures
        action_at(DownloadSession::spec_new(total), events, k) == (SessionAction::Complete {
            downloaded: chunk_bytes(events, k) as u64,
            total,
        }),
{
    let s0 = DownloadSession::spec_new(total);
    lemma_active_while_chunks(s0, events, k);
    lemma_total_kept(s0, events, k);
    lemma_downloaded_is_chunk_sum(total, events, k);
}

/// A session ends at most once: after a completion or a failure, every later
/// event is ignored.
pub proof fn lemma_single_outcome(s0: DownloadSession, events: Seq<TransferEvent>, i: nat, j: nat)
    requires
        i < j,
        action_at(s0, events, i).is_outcome(),
    ensures
        action_at(s0, events, j) is Ignore,
{
    lemma_over_stays_over(s0, events, i + 1, j);
}

/// A transfer that fails mid-stream yields exactly one failure: at the event
/// that reports it, and at no other.
pub proof fn lemma_failure_reported_once(total: Option<u64>, events: Seq<TransferEvent>, k: nat)
    requires
        k < events.len(),
        only_chunks_before(events, k),
        events[k as int] is ReadFailed || events[k as int] is WriteFailed,
    ensures
        action_at(DownloadSession::spec_new(total), events, k) is Fail,
        forall|j: nat|
            j < events.len() && j != k ==> !(#[trigger] action_at(
                DownloadSession::spec_new(total),
                events,
                j,
            ) is Fail),
{
    let s0 = DownloadSession::spec_new(total);
    lemma_active_while_chunks(s0, events, k);
    assert forall|j: nat| j < events.len() && j != k implies !(#[trigger] action_at(
        s0,
        events,
        j,
    ) is Fail) by {
        if j < k {
            lemma_active_while_chunks(s0, events, j);
            assert(events[j as int] is Chunk);
        } else {
            lemma_single_outcome(s0, events, k, j);
        }
    }
}

/// Index of the last `/` in `s`, or -1 when it has none.
pub open spec fn spec_last_slash(s: Seq<char>) -> int
    decreases s.len(),
{
    if s.len() == 0 {
        -1
    } else if s.last() == '/' {
        s.len() - 1
    } else {
        spec_last_slash(s.drop_last())
    }
}

/// The name under which the body of `url` is saved: the text after its last
/// `/`, or `downloaded_file.exe` when that text is empty.
pub open spec fn spec_installer_file_name(url: Seq<char>) -> Seq<char> {
    let tail = url.skip(spec_last_slash(url) + 1);
    if tail.len() == 0 {
        "downloaded_file.exe"@
    } else {
        tail
    }
}

/// The file name of a download URL.
pub fn installer_file_name(url: &str) -> (r: String)
    ensures
        r@ == spec_installer_file_name(url@),
{
    let n = url.unicode_len();
    let mut i: usize = n;
    assert(url@.take(n as int) =~= url@);
    while i > 0 && url.get_char(i - 1) != '/'
        invariant
            n == url@.len(),
            i <= n,
            spec_last_slash(url@) == spec_last_slash(url@.take(i as int)),
        decreases i,
    {
        assert(url@.take(i as int).drop_last() =~= url@.take(i - 1));
        i = i - 1;
    }
    if i == 0 {
        assert(url@.take(0) =~= Seq::<char>::empty());
    } else {
        assert(url@.take(i as int).last() == url@[i - 1]);
    }
    let tail = url.substring_char(i, n);
    if i == n {
        String::from_str("downloaded_file.exe")
    } else {
        String::from_str(tail)
    }
}

} // verus!
