use vstd::prelude::*;
use crate::protocol::{ResponseHeader, SessionError};

verus! {

/// The size of the buffer that file contents are read through.
pub const BUFFER_LEN: usize = 65536;

/// Where a file transfer stands after a read.
#[derive(Debug, Clone, Copy, PartialEq, Eq, Structural)]
pub enum TransferStatus {
    /// More bytes are owed.
    InProgress,
    /// Every byte announced has arrived.
    Complete,
    /// The connection ended before every byte announced had arrived.
    Incomplete,
}

/// The bytes of a file that the board announced and that have arrived so far.
pub struct Transfer {
    total: u64,
    remaining: u64,
    status: TransferStatus,
}

/// The sum of a sequence of read lengths.
pub open spec fn total_len(chunks: Seq<nat>) -> nat
    decreases chunks.len(),
{
    if chunks.len() == 0 {
        0
    } else {
        chunks[0] + total_len(chunks.drop_first())
    }
}

/// How a transfer of `remaining` more bytes ends when reads return `chunks`,
/// each no longer than was asked for.
pub open spec fn transfer_outcome(remaining: nat, chunks: Seq<nat>) -> TransferStatus
    decreases chunks.len(),
{
    if remaining == 0 {
        TransferStatus::Complete
    } else if chunks.len() == 0 {
        TransferStatus::InProgress
    } else if chunks[0] == 0 {
        TransferStatus::Incomplete
    } else {
        transfer_outcome((remaining - chunks[0]) as nat, chunks.drop_first())
    }
}

impl Transfer {
    pub closed spec fn total_spec(&self) -> nat {
        self.total as nat
    }

    pub closed spec fn remaining_spec(&self) -> nat {
        self.remaining as nat
    }

    pub closed spec fn status_spec(&self) -> TransferStatus {
        self.status
    }

    pub open spec fn received_spec(&self) -> nat {
        (self.total_spec() - self.remaining_spec()) as nat
    }

    pub closed spec fn wf(&self) -> bool {
        &&& self.remaining <= self.total
        &&& (self.status == TransferStatus::Complete <==> self.remaining == 0)
    }

    /// A transfer of `size` bytes, none of which has arrived yet.
    pub fn new(size: u64) -> (r: Transfer)
        ensures
            r.wf(),
            r.total_spec() == size,
            r.remaining_spec() == size,
            r.status_spec() == (if size == 0 {
                TransferStatus::Complete
            } else {
                TransferStatus::InProgress
            }),
    {
        let status = if size == 0 {
            TransferStatus::Complete
        } else {
            TransferStatus::InProgress
        };
        Transfer { total: size, remaining: size, status }
    }

    /// The transfer that the board's answer to a copy request announces: a
    /// device error if the board flagged one, else one of the announced size.
    pub fn start(resp: &ResponseHeader) -> (r: Result<Transfer, SessionError>)
        ensures
            resp.is_error <==> r is Err,
            r is Err ==> r->Err_0 == SessionError::Device,
            r is Ok ==> r->Ok_0.wf() && r->Ok_0.total_spec() == resp.file_size
                && r->Ok_0.remaining_spec() == resp.file_size,
    {
        if resp.is_error {
            Err(SessionError::Device)
        } else {
            Ok(Transfer::new(resp.file_size))
        }
    }

    /// How many bytes the next read may take into a buffer of `buf_len` bytes.
    pub fn read_len(&self, buf_len: usize) -> (r: usize)
        requires
            self.wf(),
        ensures
            r == vstd::math::min(self.remaining_spec() as int, buf_len as int),
    {
        if self.remaining < buf_len as u64 {
            self.remaining as usize
        } else {
            buf_len
        }
    }

    /// The bytes still owed.
    pub fn remaining(&self) -> (r: u64)
        ensures
            r == self.remaining_spec(),
    {
        self.remaining
    }

    /// Where the transfer stands.
    pub fn status(&self) -> (r: TransferStatus)
        ensures
            r == self.status_spec(),
    {
        self.status
    }

    /// Takes note of a read of `n` bytes: a read of none while bytes are owed
    /// ends the transfer as incomplete.
    pub fn record(&mut self, n: usize) -> (r: TransferStatus)
        requires
            old(self).wf(),
            old(self).status_spec() == TransferStatus::InProgress,
            n <= old(self).remaining_spec(),
        ensures
            final(self).wf(),
            r == final(self).status_spec(),
            final(self).total_spec() == old(self).total_spec(),
            final(self).remaining_spec() == old(self).remaining_spec() - n,
            r == (if n == 0 {
                TransferStatus::Incomplete
            } else if n == old(self).remaining_spec() {
                TransferStatus::Complete
            } else {
                TransferStatus::InProgress
            }),
            r == transfer_outcome(old(self).remaining_spec(), seq![n as nat]),
    {
        let ghost rem0 = self.remaining as nat;
        if n == 0 {
            self.status = TransferStatus::Incomplete;
        } else {
            self.remaining = self.remaining - n as u64;
            if self.remaining == 0 {
                self.status = TransferStatus::Complete;
            }
        }
        proof {
            let s = seq![n as nat];
            if n != 0 {
                assert(s.drop_first() =~= Seq::<nat>::empty());
                assert(transfer_outcome((rem0 - n) as nat, Seq::<nat>::empty()) == self.status);
            }
        }
        self.status
    }
}

/// A peer that sends the announced bytes in reads of any positive lengths
/// completes the transfer, with exactly the announced number of bytes received.
pub proof fn lemma_transfer_completes(size: nat, chunks: Seq<nat>)
    requires
        total_len(chunks) == size,
        forall|i: int| 0 <= i < chunks.len() ==> chunks[i] > 0,
    ensures
        transfer_outcome(size, chunks) == TransferStatus::Complete,
    decreases chunks.len(),
{
    if size != 0 && chunks.len() != 0 {
        let rest = chunks.drop_first();
        assert forall|i: int| 0 <= i < rest.len() implies rest[i] > 0 by {
            assert(rest[i] == chunks[i + 1]);
        }
        lemma_transfer_completes((size - chunks[0]) as nat, rest);
    }
}

/// A peer that closes the connection after sending fewer bytes than announced
/// leaves the transfer incomplete, never complete.
pub proof fn lemma_transfer_short(size: nat, chunks: Seq<nat>)
    requires
        total_len(chunks) < size,
        forall|i: int| 0 <= i < chunks.len() ==> chunks[i] > 0,
    ensures
        transfer_outcome(size, chunks.push(0)) == TransferStatus::Incomplete,
        transfer_outcome(size, chunks) == TransferStatus::InProgress,
    decreases chunks.len(),
{
    if chunks.len() == 0 {
        assert(chunks.push(0)[0] == 0);
    } else {
        let rest = chunks.drop_first();
        assert forall|i: int| 0 <= i < rest.len() implies rest[i] > 0 by {
            assert(rest[i] == chunks[i + 1]);
        }
        assert(chunks.push(0).drop_first() =~= rest.push(0));
        lemma_transfer_short((size - chunks[0]) as nat, rest);
    }
}

} // verus!
