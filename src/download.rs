//! Bookkeeping of a streamed download: the caller reads the response body in
//! chunks of at most `CHUNK_SIZE` bytes, writes each to the destination file,
//! and reports its size here; the end of the body is a chunk of size zero.
use vstd::prelude::*;

use crate::error::LibError;

verus! {

/// Size of the buffer the body is read through.
pub const CHUNK_SIZE: usize = 8192;

/// How progress is shown while a body streams in.
#[derive(Debug, Clone, Copy, PartialEq, Eq, Structural)]
pub enum ProgressMode {
    /// Nothing is shown (headless callers).
    Hidden,
    /// A bar over the advertised total.
    Bounded(u64),
    /// Bytes so far and throughput only, for a body of unknown length.
    Unbounded,
}

/// Picks the progress display: none for headless callers, a bounded bar when
/// the response advertises a nonzero length, an unbounded one otherwise.
pub fn progress_mode(interactive: bool, content_length: Option<u64>) -> (r: ProgressMode)
    ensures
        r == (if !interactive {
            ProgressMode::Hidden
        } else {
            match content_length {
                Some(n) => if n > 0 {
                    ProgressMode::Bounded(n)
                } else {
                    ProgressMode::Unbounded
                },
                None => ProgressMode::Unbounded,
            }
        }),
{
    if !interactive {
        ProgressMode::Hidden
    } else {
        match content_length {
            Some(n) => if n > 0 {
                ProgressMode::Bounded(n)
            } else {
                ProgressMode::Unbounded
            },
            None => ProgressMode::Unbounded,
        }
    }
}

/// A finished download.
pub struct DownloadResult {
    pub bytes_written: u64,
    pub destination: String,
}

/// What to do after a chunk.
pub enum TransferStep {
    /// Read the next chunk.
    Continue,
    /// The body is complete.
    Done(DownloadResult),
}

/// The state of one download.
pub struct Transfer {
    pub destination: String,
    /// The content length the response advertised, if any.
    pub advertised: Option<u64>,
    /// Bytes written so far.
    pub received: u64,
}

/// Sum of the chunk sizes.
pub open spec fn total(chunks: Seq<nat>) -> nat
    decreases chunks.len(),
{
    if chunks.len() == 0 {
        0
    } else {
        chunks[0] + total(chunks.subrange(1, chunks.len() as int))
    }
}

impl Transfer {
    pub open spec fn fresh(destination: String, advertised: Option<u64>) -> Transfer {
        Transfer { destination, advertised, received: 0 }
    }

    /// The size the body must have: the advertised length when it is nonzero.
    pub open spec fn expected_size(self) -> Option<u64> {
        match self.advertised {
            Some(n) => if n > 0 {
                Some(n)
            } else {
                None
            },
            None => None,
        }
    }

    /// The most bytes the body may have.
    pub open spec fn limit(self) -> nat {
        match self.expected_size() {
            Some(n) => n as nat,
            None => u64::MAX as nat,
        }
    }

    /// Whether `count` bytes make a complete body: exactly the expected size
    /// when there is one, at least one byte otherwise.
    pub open spec fn complete_at(self, count: nat) -> bool {
        match self.expected_size() {
            Some(n) => count == n,
            None => count > 0,
        }
    }

    pub open spec fn size_error(self) -> LibError {
        LibError::Size { advertised: self.advertised, received: self.received }
    }

    /// The state and outcome after a chunk of `n` bytes (`n == 0`: end of body).
    pub open spec fn step(self, n: nat) -> (Transfer, Result<TransferStep, LibError>) {
        if n == 0 {
            if self.complete_at(self.received as nat) {
                (
                    self,
                    Ok(
                        TransferStep::Done(
                            DownloadResult {
                                bytes_written: self.received,
                                destination: self.destination,
                            },
                        ),
                    ),
                )
            } else {
                (self, Err(self.size_error()))
            }
        } else if self.received + n > self.limit() {
            (self, Err(self.size_error()))
        } else {
            (
                Transfer {
                    destination: self.destination,
                    advertised: self.advertised,
                    received: (self.received + n) as u64,
                },
                Ok(TransferStep::Continue),
            )
        }
    }

    /// Feeds `chunks` in order, stopping at the first outcome other than
    /// `Continue`.
    pub open spec fn run(self, chunks: Seq<nat>) -> (Transfer, Result<TransferStep, LibError>)
        decreases chunks.len(),
    {
        if chunks.len() == 0 {
            (self, Ok(TransferStep::Continue))
        } else {
            let (next, out) = self.step(chunks[0]);
            if out is Ok && out->Ok_0 is Continue {
                next.run(chunks.subrange(1, chunks.len() as int))
            } else {
                (next, out)
            }
        }
    }

    /// Starts a download into `destination` of a response that advertised
    /// `content_length`.
    pub fn new(destination: String, content_length: Option<u64>) -> (r: Transfer)
        ensures
            r == Transfer::fresh(destination, content_length),
    {
        Transfer { destination, advertised: content_length, received: 0 }
    }

    /// Records a chunk of `n` bytes, or the end of the body when `n` is zero.
    /// A body longer than the advertised length, or one that ends short of it
    /// (or empty, when none was advertised), is `LibError::Size`.
    pub fn on_chunk(&mut self, n: usize) -> (r: Result<TransferStep, LibError>)
        ensures
            (*final(self), r) == old(self).step(n as nat),
    {
        if n == 0 {
            let complete = match self.advertised {
                Some(e) => if e > 0 {
                    self.received == e
                } else {
                    self.received > 0
                },
                None => self.received > 0,
            };
            if complete {
                Ok(
                    TransferStep::Done(
                        DownloadResult {
                            bytes_written: self.received,
                            destination: self.destination.clone(),
                        },
                    ),
                )
            } else {
                Err(LibError::Size { advertised: self.advertised, received: self.received })
            }
        } else {
            let n64 = n as u64;
            let limit: u64 = match self.advertised {
                Some(e) => if e > 0 {
                    e
                } else {
                    u64::MAX
                },
                None => u64::MAX,
            };
            if self.received > limit || n64 > limit - self.received {
                Err(LibError::Size { advertised: self.advertised, received: self.received })
            } else {
                self.received = self.received + n64;
                Ok(TransferStep::Continue)
            }
        }
    }
}

/// The byte count of a finished download: a body of nonzero chunks followed
/// by its end completes exactly when its total is the advertised length (or,
/// with none advertised, when it is nonempty); the result then records that
/// total, and so the advertised length when there is one.
pub proof fn lemma_download_byte_count(t: Transfer, chunks: Seq<nat>)
    requires
        t.received <= t.limit(),
        chunks.len() >= 1,
        chunks.last() == 0,
        forall|i: int| 0 <= i < chunks.len() - 1 ==> chunks[i] > 0,
    ensures
        ({
            let out = t.run(chunks).1;
            let count = (t.received + total(chunks)) as nat;
            &&& (out is Ok && out->Ok_0 is Done) <==> (count <= t.limit() && t.complete_at(count))
            &&& out is Ok && out->Ok_0 is Done ==> {
                &&& out->Ok_0->Done_0.bytes_written == count
                &&& out->Ok_0->Done_0.destination == t.destination
                &&& (t.expected_size() is Some ==> out->Ok_0->Done_0.bytes_written
                    == t.expected_size()->0)
                &&& (t.expected_size() is None ==> out->Ok_0->Done_0.bytes_written > 0)
            }
        }),
    decreases chunks.len(),
{
    let rest = chunks.subrange(1, chunks.len() as int);
    if chunks.len() == 1 {
        assert(rest.len() == 0);
        assert(total(rest) == 0);
    } else {
        let n = chunks[0];
        assert(n > 0);
        if t.received + n <= t.limit() {
            let next = t.step(n).0;
            assert(rest.last() == 0);
            assert forall|i: int| 0 <= i < rest.len() - 1 implies rest[i] > 0 by {
                assert(rest[i] == chunks[i + 1]);
            }
            lemma_download_byte_count(next, rest);
        }
    }
}

} // verus!
