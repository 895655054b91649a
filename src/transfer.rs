//! File transfers: the control flag of each running transfer, the chunk loop
//! that consults it, and the progress it reports.
use vstd::prelude::*;
use vstd::string::*;
use crate::registry::Registry;

verus! {

/// The control flag of one transfer.
#[derive(PartialEq, Eq, Structural, Clone, Copy, Debug)]
pub enum TransferState {
    Running,
    Paused,
    Cancelled,
}

/// Sets the flag of `transfer_id` if it is registered; otherwise nothing.
fn set_flag(transfers: &mut Registry<TransferState>, transfer_id: &str, state: TransferState)
    requires
        old(transfers).wf(),
    ensures
        final(transfers).wf(),
        final(transfers)@ == if old(transfers)@.contains_key(transfer_id@) {
            old(transfers)@.insert(transfer_id@, state)
        } else {
            old(transfers)@
        },
{
    if transfers.contains(transfer_id) {
        transfers.insert(String::from_str(transfer_id), state);
    }
}

/// Pauses a running transfer. An unknown or finished transfer is left alone:
/// the request never fails.
pub fn sftp_pause(transfers: &mut Registry<TransferState>, transfer_id: &str) -> (r: Result<(), String>)
    requires
        old(transfers).wf(),
    ensures
        r is Ok,
        final(transfers).wf(),
        final(transfers)@ == if old(transfers)@.contains_key(transfer_id@) {
            old(transfers)@.insert(transfer_id@, TransferState::Paused)
        } else {
            old(transfers)@
        },
{
    set_flag(transfers, transfer_id, TransferState::Paused);
    Ok(())
}

/// Lets a paused transfer go on; a no-op for unknown identifiers.
pub fn sftp_resume(transfers: &mut Registry<TransferState>, transfer_id: &str) -> (r: Result<(), String>)
    requires
        old(transfers).wf(),
    ensures
        r is Ok,
        final(transfers).wf(),
        final(transfers)@ == if old(transfers)@.contains_key(transfer_id@) {
            old(transfers)@.insert(transfer_id@, TransferState::Running)
        } else {
            old(transfers)@
        },
{
    set_flag(transfers, transfer_id, TransferState::Running);
    Ok(())
}

/// Asks a transfer to stop at its next chunk; a no-op for unknown identifiers.
pub fn sftp_cancel(transfers: &mut Registry<TransferState>, transfer_id: &str) -> (r: Result<(), String>)
    requires
        old(transfers).wf(),
    ensures
        r is Ok,
        final(transfers).wf(),
        final(transfers)@ == if old(transfers)@.contains_key(transfer_id@) {
            old(transfers)@.insert(transfer_id@, TransferState::Cancelled)
        } else {
            old(transfers)@
        },
{
    set_flag(transfers, transfer_id, TransferState::Cancelled);
    Ok(())
}

/// Registers a fresh flag, at `Running`, for a transfer that starts.
pub fn begin_transfer(transfers: &mut Registry<TransferState>, transfer_id: String)
    requires
        old(transfers).wf(),
    ensures
        final(transfers).wf(),
        final(transfers)@ == old(transfers)@.insert(transfer_id@, TransferState::Running),
{
    transfers.insert(transfer_id, TransferState::Running);
}

/// Removes the flag of a transfer that completed, failed or was cancelled.
pub fn end_transfer(transfers: &mut Registry<TransferState>, transfer_id: &str)
    requires
        old(transfers).wf(),
    ensures
        final(transfers).wf(),
        final(transfers)@ == old(transfers)@.remove(transfer_id@),
{
    let _ = transfers.remove(transfer_id);
}

/// Control requests on a transfer that has ended change nothing, and a
/// transfer started again under the same identifier starts afresh.
pub proof fn lemma_control_after_end(before: Map<Seq<char>, TransferState>, transfer_id: Seq<char>, state: TransferState)
    ensures
        ({
            let ended = before.remove(transfer_id);
            &&& !ended.contains_key(transfer_id)
            &&& ended.insert(transfer_id, TransferState::Running)[transfer_id] == TransferState::Running
        }),
{
}

pub const UPLOAD_CHUNK: usize = 65536;
pub const DOWNLOAD_CHUNK: usize = 131072;
/// How long a paused transfer sleeps before it looks at its flag again.
pub const PAUSE_POLL_MILLIS: u64 = 200;

#[derive(PartialEq, Eq, Structural, Clone, Copy, Debug)]
pub enum Direction {
    Upload,
    Download,
}

/// What the transfer loop does next.
#[derive(PartialEq, Eq, Structural, Clone, Copy, Debug)]
pub enum TransferAction {
    /// Stop: release the destination, remove the flag, report cancellation.
    Abort,
    /// Sleep this many milliseconds without moving any data.
    Wait(u64),
    /// Move one chunk of at most this many bytes.
    Move(usize),
    /// All data has moved.
    Complete,
}

/// One progress report.
#[derive(PartialEq, Eq, Structural, Clone, Copy, Debug)]
pub struct Progress {
    pub bytes_transferred: u64,
    pub total_bytes: u64,
    pub speed: u64,
}

/// Sum of the chunk sizes in `s`.
pub open spec fn sum_chunks(s: Seq<nat>) -> nat
    decreases s.len(),
{
    if s.len() == 0 {
        0
    } else {
        sum_chunks(s.drop_last()) + s.last()
    }
}

/// Bytes per second over whole elapsed seconds, counting at least one second.
pub open spec fn speed_of(bytes: u64, elapsed_secs: u64) -> u64 {
    if elapsed_secs == 0 {
        bytes
    } else {
        (bytes / elapsed_secs) as u64
    }
}

pub fn transfer_speed(bytes: u64, elapsed_secs: u64) -> (r: u64)
    ensures
        r == speed_of(bytes, elapsed_secs),
{
    let secs: u64 = if elapsed_secs == 0 { 1 } else { elapsed_secs };
    bytes / secs
}

/// The chunk loop of one transfer.
pub struct TransferMachine {
    direction: Direction,
    total: u64,
    transferred: u64,
    grant: Option<usize>,
    stopped: bool,
    chunks: Ghost<Seq<nat>>,
}

impl TransferMachine {
    pub closed spec fn spec_direction(&self) -> Direction {
        self.direction
    }

    pub closed spec fn spec_total(&self) -> u64 {
        self.total
    }

    pub closed spec fn spec_transferred(&self) -> u64 {
        self.transferred
    }

    /// The chunk the last step allowed and that has not been recorded yet.
    pub closed spec fn spec_grant(&self) -> Option<usize> {
        self.grant
    }

    pub closed spec fn spec_stopped(&self) -> bool {
        self.stopped
    }

    /// The sizes of the chunks moved so far, in order.
    pub closed spec fn spec_chunks(&self) -> Seq<nat> {
        self.chunks@
    }

    /// The bytes reported are the sum of the chunks moved; an upload never
    /// moves more than its source holds.
    pub open spec fn wf(&self) -> bool {
        &&& self.spec_transferred() == sum_chunks(self.spec_chunks())
        &&& self.spec_direction() == Direction::Upload ==> self.spec_transferred() <= self.spec_total()
        &&& self.spec_stopped() ==> self.spec_grant() is None
        &&& self.spec_direction() == Direction::Upload && self.spec_grant() is Some
            ==> self.spec_transferred() + self.spec_grant()->Some_0 <= self.spec_total()
    }

    /// A transfer at its start, `total` bytes long as far as is known.
    pub fn new(direction: Direction, total: u64) -> (r: Self)
        ensures
            r.wf(),
            r.spec_direction() == direction,
            r.spec_total() == total,
            r.spec_transferred() == 0,
            r.spec_chunks() == Seq::<nat>::empty(),
            r.spec_grant() is None,
            !r.spec_stopped(),
    {
        TransferMachine { direction, total, transferred: 0, grant: None, stopped: false, chunks: Ghost(Seq::empty()) }
    }

    pub fn bytes_transferred(&self) -> (r: u64)
        ensures
            r == self.spec_transferred(),
    {
        self.transferred
    }

    pub fn total_bytes(&self) -> (r: u64)
        ensures
            r == self.spec_total(),
    {
        self.total
    }

    pub fn is_stopped(&self) -> (r: bool)
        ensures
            r == self.spec_stopped(),
    {
        self.stopped
    }

    /// Decides the next move from the flag. A finished upload completes; a
    /// cancelled transfer stops for good; a paused one waits and moves
    /// nothing; a running one gets one chunk.
    pub fn next_step(&mut self, flag: TransferState) -> (r: TransferAction)
        requires
            old(self).wf(),
            !old(self).spec_stopped(),
            old(self).spec_grant() is None,
        ensures
            final(self).wf(),
            final(self).spec_direction() == old(self).spec_direction(),
            final(self).spec_total() == old(self).spec_total(),
            final(self).spec_transferred() == old(self).spec_transferred(),
            final(self).spec_chunks() == old(self).spec_chunks(),
            old(self).spec_direction() == Direction::Upload && old(self).spec_transferred() == old(self).spec_total() ==>
                r == TransferAction::Complete && final(self).spec_stopped(),
            !(old(self).spec_direction() == Direction::Upload && old(self).spec_transferred() == old(self).spec_total()) ==> match flag {
                TransferState::Cancelled => r == TransferAction::Abort && final(self).spec_stopped(),
                TransferState::Paused => r == TransferAction::Wait(PAUSE_POLL_MILLIS)
                    && !final(self).spec_stopped() && final(self).spec_grant() is None,
                TransferState::Running => !final(self).spec_stopped() && match old(self).spec_direction() {
                    Direction::Upload => {
                        let n = vstd::math::min(UPLOAD_CHUNK as int, old(self).spec_total() - old(self).spec_transferred());
                        r == TransferAction::Move(n as usize) && final(self).spec_grant() == Some(n as usize) && n > 0
                    },
                    Direction::Download => r == TransferAction::Move(DOWNLOAD_CHUNK)
                        && final(self).spec_grant() == Some(DOWNLOAD_CHUNK),
                },
            },
    {
        if self.direction == Direction::Upload && self.transferred == self.total {
            self.stopped = true;
            return TransferAction::Complete;
        }
        match flag {
            TransferState::Cancelled => {
                self.stopped = true;
                TransferAction::Abort
            },
            TransferState::Paused => TransferAction::Wait(PAUSE_POLL_MILLIS),
            TransferState::Running => {
                let n: usize = match self.direction {
                    Direction::Upload => {
                        let left: u64 = self.total - self.transferred;
                        if left < UPLOAD_CHUNK as u64 { left as usize } else { UPLOAD_CHUNK }
                    },
                    Direction::Download => DOWNLOAD_CHUNK,
                };
                self.grant = Some(n);
                TransferAction::Move(n)
            },
        }
    }

    /// Records the `moved` bytes of the granted chunk, `elapsed_secs` after the
    /// start. An upload moves its whole chunk. A download that read nothing has
    /// reached the end: it completes, with no report. Otherwise the report
    /// carries the bytes moved so far, the total, and the speed.
    pub fn record_chunk(&mut self, moved: usize, elapsed_secs: u64) -> (r: Option<Progress>)
        requires
            old(self).wf(),
            old(self).spec_grant() matches Some(g) && moved <= g,
            old(self).spec_direction() == Direction::Upload ==> old(self).spec_grant() == Some(moved),
            old(self).spec_transferred() + moved <= u64::MAX,
        ensures
            final(self).wf(),
            final(self).spec_grant() is None,
            final(self).spec_direction() == old(self).spec_direction(),
            final(self).spec_total() == old(self).spec_total(),
            moved == 0 ==> r is None && final(self).spec_stopped()
                && final(self).spec_transferred() == old(self).spec_transferred()
                && final(self).spec_chunks() == old(self).spec_chunks(),
            moved > 0 ==> !final(self).spec_stopped()
                && final(self).spec_chunks() == old(self).spec_chunks().push(moved as nat)
                && final(self).spec_transferred() == old(self).spec_transferred() + moved
                && r == Some(Progress {
                    bytes_transferred: final(self).spec_transferred(),
                    total_bytes: old(self).spec_total(),
                    speed: speed_of(final(self).spec_transferred(), elapsed_secs),
                }),
    {
        self.grant = None;
        if moved == 0 {
            self.stopped = true;
            return None;
        }
        let ghost before = self.chunks@;
        self.transferred = self.transferred + moved as u64;
        self.chunks = Ghost(self.chunks@.push(moved as nat));
        assert(self.chunks@.drop_last() =~= before);
        Some(Progress {
            bytes_transferred: self.transferred,
            total_bytes: self.total,
            speed: transfer_speed(self.transferred, elapsed_secs),
        })
    }
}

/// Every report carries the sum of the chunks moved, and an upload that
/// completed has moved exactly its source's length.
pub proof fn lemma_completed_upload_moved_everything(m: TransferMachine)
    requires
        m.wf(),
        m.spec_direction() == Direction::Upload,
        m.spec_transferred() == m.spec_total(),
    ensures
        sum_chunks(m.spec_chunks()) == m.spec_total(),
{
}

} // verus!
