use vstd::prelude::*;

use crate::errors::{InitError, TransferError};

verus! {

/// The mutable heart of one transfer: how many bytes the transfer owes in
/// all, and how many have been written to the destination so far. The total
/// is fixed when the state is created; the counter only ever grows, and
/// never past the total.
pub struct DownloadState {
    total: u64,
    downloaded: u64,
}

impl DownloadState {
    /// Total bytes this transfer must deliver; fixed at construction.
    pub closed spec fn spec_total(self) -> u64 {
        self.total
    }

    /// Bytes written to the destination so far.
    pub closed spec fn spec_downloaded(self) -> u64 {
        self.downloaded
    }

    /// State invariant: the running counter never passes the fixed total.
    pub open spec fn wf(self) -> bool {
        self.spec_downloaded() <= self.spec_total()
    }

    pub fn new(total: u64) -> (s: Self)
        ensures
            s.wf(),
            s.spec_total() == total,
            s.spec_downloaded() == 0,
    {
        DownloadState { total, downloaded: 0 }
    }

    /// The immutable denominator of the transfer's progress. Every call on
    /// one state value returns the same number, and no method changes it.
    pub fn total_size(&self) -> (r: u64)
        ensures
            r == self.spec_total(),
    {
        self.total
    }

    /// The running byte count at this instant.
    pub fn downloaded_size(&self) -> (r: u64)
        ensures
            r == self.spec_downloaded(),
    {
        self.downloaded
    }

    pub fn is_complete(&self) -> (r: bool)
        ensures
            r == (self.spec_downloaded() == self.spec_total()),
    {
        self.downloaded == self.total
    }

    /// Count one received chunk of `len` bytes. Returns false and leaves the
    /// state untouched when the chunk would push the counter past the total;
    /// otherwise the counter grows by exactly `len`.
    pub fn apply_chunk(&mut self, len: u64) -> (ok: bool)
        requires
            old(self).wf(),
        ensures
            final(self).wf(),
            final(self).spec_total() == old(self).spec_total(),
            ok == (old(self).spec_downloaded() + len <= old(self).spec_total()),
            ok ==> final(self).spec_downloaded() == old(self).spec_downloaded() + len,
            !ok ==> final(self).spec_downloaded() == old(self).spec_downloaded(),
            final(self).spec_downloaded() >= old(self).spec_downloaded(),
    {
        if len <= self.total - self.downloaded {
            self.downloaded = self.downloaded + len;
            true
        } else {
            false
        }
    }
}

/// One thing the transport reports while a transfer runs. The surrounding
/// process performs the network read and the file write, then hands the
/// outcome back as one of these events.
#[derive(Clone, Copy, Debug, PartialEq, Eq, Structural)]
pub enum TransferEvent {
    /// A chunk of this many bytes arrived and was appended to the file.
    Chunk(u64),
    /// The stream ended.
    End,
    /// The connection failed mid-stream.
    NetworkError,
    /// Appending to the destination file failed.
    WriteError,
}

/// What the transfer decides after one event.
#[derive(Clone, Copy, Debug, PartialEq, Eq, Structural)]
pub enum TransferStep {
    /// Keep streaming.
    Continue,
    /// The transfer is complete: every owed byte was counted.
    Done,
    /// The transfer failed and stops here.
    Failed(TransferError),
}

/// Sum of the chunk lengths in `chunks[i..]`.
pub open spec fn sum_from(chunks: Seq<u64>, i: int) -> int
    decreases chunks.len() - i,
{
    if i < 0 || i >= chunks.len() {
        0
    } else {
        chunks[i] + sum_from(chunks, i + 1)
    }
}

/// Sum of all chunk lengths in a transcript.
pub open spec fn chunk_sum(chunks: Seq<u64>) -> int {
    sum_from(chunks, 0)
}

/// Bytes a transfer that still owes `remaining` bytes counts when the chunks
/// in `chunks[i..]` arrive: chunks are counted in order until one would
/// overrun the total, where the transfer stops.
pub open spec fn counted_from(remaining: int, chunks: Seq<u64>, i: int) -> int
    decreases chunks.len() - i,
{
    if i < 0 || i >= chunks.len() {
        0
    } else if chunks[i] <= remaining {
        chunks[i] + counted_from(remaining - chunks[i], chunks, i + 1)
    } else {
        0
    }
}

/// Outcome of one transfer attempt that still owes `remaining` bytes and
/// then receives the chunks in `chunks[i..]` followed by end of stream:
/// success exactly when the stream delivers every owed byte and no more.
pub open spec fn transcript_outcome(remaining: int, chunks: Seq<u64>, i: int) -> Result<
    bool,
    TransferError,
>
    decreases chunks.len() - i,
{
    if i < 0 || i >= chunks.len() {
        if remaining == 0 {
            Ok(true)
        } else {
            Err(TransferError::PrematureEnd)
        }
    } else if chunks[i] <= remaining {
        transcript_outcome(remaining - chunks[i], chunks, i + 1)
    } else {
        Err(TransferError::Overrun)
    }
}

/// The outcome of a transcript depends only on how its chunk sum compares to
/// the owed bytes: exactly equal succeeds, more overruns, less ends short.
/// Alongside, the counted bytes never exceed what was owed.
pub proof fn lemma_outcome_by_sum(remaining: int, chunks: Seq<u64>, i: int)
    requires
        0 <= i <= chunks.len(),
        0 <= remaining,
    ensures
        sum_from(chunks, i) == remaining ==> transcript_outcome(remaining, chunks, i) == Ok::<
            bool,
            TransferError,
        >(true),
        sum_from(chunks, i) > remaining ==> transcript_outcome(remaining, chunks, i) == Err::<
            bool,
            TransferError,
        >(TransferError::Overrun),
        sum_from(chunks, i) < remaining ==> transcript_outcome(remaining, chunks, i) == Err::<
            bool,
            TransferError,
        >(TransferError::PrematureEnd),
        sum_from(chunks, i) <= remaining ==> counted_from(remaining, chunks, i) == sum_from(
            chunks,
            i,
        ),
        0 <= counted_from(remaining, chunks, i) <= remaining,
    decreases chunks.len() - i,
{
    if i < chunks.len() {
        if chunks[i] <= remaining {
            lemma_outcome_by_sum(remaining - chunks[i], chunks, i + 1);
            lemma_sum_from_nonneg(chunks, i + 1);
        } else {
            lemma_sum_from_nonneg(chunks, i + 1);
        }
    }
}

/// Chunk lengths are unsigned, so every partial sum is non-negative.
pub proof fn lemma_sum_from_nonneg(chunks: Seq<u64>, i: int)
    ensures
        sum_from(chunks, i) >= 0,
    decreases chunks.len() - i,
{
    if 0 <= i < chunks.len() {
        lemma_sum_from_nonneg(chunks, i + 1);
    }
}

/// What the set-up probes of the outside world reported before a transfer:
/// whether the destination directory can be used, and the resource's total
/// length in bytes, if the server disclosed one.
#[derive(Clone, Copy, Debug)]
pub struct InitProbe {
    pub dest_writable: bool,
    pub content_length: Option<u64>,
}

/// The length the probe reported, where it reported one.
pub open spec fn probed_len(probe: InitProbe) -> u64 {
    match probe.content_length {
        Some(len) => len,
        None => 0,
    }
}

/// The byte offset a transfer starts from: the requested resume offset, or
/// the start of the resource when none was requested.
pub open spec fn start_offset(resume_offset: Option<u64>) -> u64 {
    match resume_offset {
        Some(o) => o,
        None => 0,
    }
}

/// Bytes left to fetch from a resource of `len` bytes entered at byte
/// `offset`: the tail from the offset, or nothing when the offset lies at or
/// past the end.
pub open spec fn remaining_of(len: u64, offset: u64) -> u64 {
    if offset <= len {
        (len - offset) as u64
    } else {
        0
    }
}

/// One remote-to-local transfer: the fixed source and destination, and the
/// byte accounting of the bytes still owed and already written. The
/// surrounding process streams the bytes and feeds every event through
/// `transfer_step`; every decision and every count lives here.
pub struct Downloader {
    state: DownloadState,
    source_url: Vec<u8>,
    dest_path: Vec<u8>,
}

impl Downloader {
    pub closed spec fn spec_total(self) -> u64 {
        self.state.spec_total()
    }

    pub closed spec fn spec_downloaded(self) -> u64 {
        self.state.spec_downloaded()
    }

    pub closed spec fn spec_source_url(self) -> Seq<u8> {
        self.source_url@
    }

    pub closed spec fn spec_dest_path(self) -> Seq<u8> {
        self.dest_path@
    }

    pub open spec fn wf(self) -> bool {
        self.spec_downloaded() <= self.spec_total()
    }

    /// Set one transfer up from what the outside probes reported. Fails when
    /// the destination directory is unusable or the resource's size could
    /// not be determined; otherwise the total is fixed, once and for all, as
    /// the bytes remaining from the resume offset to the end of the
    /// resource, and the counter starts at zero.
    pub fn new(
        source_url: Vec<u8>,
        dest_path: Vec<u8>,
        resume_offset: Option<u64>,
        probe: InitProbe,
    ) -> (r: Result<Downloader, InitError>)
        ensures
            !probe.dest_writable ==> r == Err::<Downloader, InitError>(
                InitError::DestinationUnwritable,
            ),
            probe.dest_writable && probe.content_length is None ==> r == Err::<
                Downloader,
                InitError,
            >(InitError::SizeUnknown),
            (probe.dest_writable && probe.content_length is Some) ==> ({
                &&& r matches Ok(d)
                &&& d.wf()
                &&& d.spec_total() == remaining_of(probed_len(probe), start_offset(resume_offset))
                &&& d.spec_downloaded() == 0
                &&& d.spec_source_url() == source_url@
                &&& d.spec_dest_path() == dest_path@
            }),
    {
        if !probe.dest_writable {
            return Err(InitError::DestinationUnwritable);
        }
        match probe.content_length {
            None => Err(InitError::SizeUnknown),
            Some(len) => {
                let offset: u64 = match resume_offset {
                    Some(o) => o,
                    None => 0,
                };
                let total: u64 = if offset <= len {
                    len - offset
                } else {
                    0
                };
                Ok(Downloader { state: DownloadState::new(total), source_url, dest_path })
            },
        }
    }

    /// The immutable total; the same value on every call for the lifetime of
    /// one instance, since no method changes it.
    pub fn total_size(&self) -> (r: u64)
        ensures
            r == self.spec_total(),
    {
        self.state.total_size()
    }

    /// The running byte count at this instant.
    pub fn downloaded_size(&self) -> (r: u64)
        ensures
            r == self.spec_downloaded(),
    {
        self.state.downloaded_size()
    }

    /// The destination path this transfer writes to.
    pub fn dest_path(&self) -> (r: &Vec<u8>)
        ensures
            r@ == self.spec_dest_path(),
    {
        &self.dest_path
    }

    /// Take one transport event and decide how the transfer goes on. The
    /// counter never shrinks and never passes the total, and the total,
    /// source and destination never change.
    pub fn transfer_step(&mut self, ev: TransferEvent) -> (r: TransferStep)
        requires
            old(self).wf(),
        ensures
            final(self).wf(),
            final(self).spec_total() == old(self).spec_total(),
            final(self).spec_downloaded() >= old(self).spec_downloaded(),
            final(self).spec_source_url() == old(self).spec_source_url(),
            final(self).spec_dest_path() == old(self).spec_dest_path(),
            (match ev {
                TransferEvent::Chunk(len) => {
                    if old(self).spec_downloaded() + len <= old(self).spec_total() {
                        r == TransferStep::Continue && final(self).spec_downloaded() == old(self).spec_downloaded() + len
                    } else {
                        r == TransferStep::Failed(TransferError::Overrun) && final(self).spec_downloaded() == old(self).spec_downloaded()
                    }
                },
                TransferEvent::End => {
                    &&& final(self).spec_downloaded() == old(self).spec_downloaded()
                    &&& if old(self).spec_downloaded() == old(self).spec_total() {
                        r == TransferStep::Done
                    } else {
                        r == TransferStep::Failed(TransferError::PrematureEnd)
                    }
                },
                TransferEvent::NetworkError => r == TransferStep::Failed(TransferError::Interrupted)
                    && final(self).spec_downloaded() == old(self).spec_downloaded(),
                TransferEvent::WriteError => r == TransferStep::Failed(TransferError::WriteFailed)
                    && final(self).spec_downloaded() == old(self).spec_downloaded(),
            }),
    {
        match ev {
            TransferEvent::Chunk(len) => {
                if self.state.apply_chunk(len) {
                    TransferStep::Continue
                } else {
                    TransferStep::Failed(TransferError::Overrun)
                }
            },
            TransferEvent::End => {
                if self.state.is_complete() {
                    TransferStep::Done
                } else {
                    TransferStep::Failed(TransferError::PrematureEnd)
                }
            },
            TransferEvent::NetworkError => TransferStep::Failed(TransferError::Interrupted),
            TransferEvent::WriteError => TransferStep::Failed(TransferError::WriteFailed),
        }
    }

    /// Run one whole transfer attempt over a transcript of received chunk
    /// lengths followed by end of stream. Succeeds exactly when the chunks
    /// sum to the owed bytes; a transcript that runs past the total fails as
    /// an overrun at the offending chunk, one that falls short fails as a
    /// premature end. A single call makes at most one attempt.
    pub fn download(&mut self, chunks: &Vec<u64>) -> (r: Result<bool, TransferError>)
        requires
            old(self).wf(),
        ensures
            final(self).wf(),
            final(self).spec_total() == old(self).spec_total(),
            final(self).spec_source_url() == old(self).spec_source_url(),
            final(self).spec_dest_path() == old(self).spec_dest_path(),
            final(self).spec_downloaded() >= old(self).spec_downloaded(),
            r == transcript_outcome(
                old(self).spec_total() - old(self).spec_downloaded(),
                chunks@,
                0,
            ),
            final(self).spec_downloaded() == old(self).spec_downloaded() + counted_from(
                old(self).spec_total() - old(self).spec_downloaded(),
                chunks@,
                0,
            ),
            r is Ok <==> chunk_sum(chunks@) == old(self).spec_total() - old(self).spec_downloaded(),
            r is Ok ==> final(self).spec_downloaded() == final(self).spec_total(),
    {
        let ghost rem0: int = old(self).spec_total() - old(self).spec_downloaded();
        let mut i: usize = 0;
        while i < chunks.len()
            invariant
                0 <= i <= chunks@.len(),
                self.wf(),
                self.spec_total() == old(self).spec_total(),
                self.spec_source_url() == old(self).spec_source_url(),
                self.spec_dest_path() == old(self).spec_dest_path(),
                self.spec_downloaded() >= old(self).spec_downloaded(),
                rem0 == old(self).spec_total() - old(self).spec_downloaded(),
                0 <= rem0,
                transcript_outcome(rem0, chunks@, 0) == transcript_outcome(
                    self.spec_total() - self.spec_downloaded(),
                    chunks@,
                    i as int,
                ),
                counted_from(rem0, chunks@, 0) == self.spec_downloaded() - old(self).spec_downloaded() + counted_from(
                    self.spec_total() - self.spec_downloaded(),
                    chunks@,
                    i as int,
                ),
            decreases chunks@.len() - i,
        {
            let len = chunks[i];
            match self.transfer_step(TransferEvent::Chunk(len)) {
                TransferStep::Continue => {
                    i = i + 1;
                },
                TransferStep::Failed(e) => {
                    proof {
                        lemma_outcome_by_sum(rem0, chunks@, 0);
                        assert(transcript_outcome(
                            self.spec_total() - self.spec_downloaded(),
                            chunks@,
                            i as int,
                        ) == Err::<bool, TransferError>(TransferError::Overrun));
                        assert(counted_from(
                            self.spec_total() - self.spec_downloaded(),
                            chunks@,
                            i as int,
                        ) == 0);
                    }
                    return Err(e);
                },
                TransferStep::Done => {
                    // a chunk event never completes a transfer by itself
                    assert(false);
                    return Err(TransferError::Interrupted);
                },
            }
        }
        proof {
            lemma_outcome_by_sum(rem0, chunks@, 0);
        }
        match self.transfer_step(TransferEvent::End) {
            TransferStep::Done => Ok(true),
            TransferStep::Failed(e) => Err(e),
            TransferStep::Continue => {
                // the end of the stream always settles the outcome
                assert(false);
                Err(TransferError::Interrupted)
            },
        }
    }
}

} // verus!

