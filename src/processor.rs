//! The processor of one version range: it builds the batches, then steps
//! through forwarding the transactions and writing the batches, and reports
//! the range's result. The caller performs each step that it asks for.
use vstd::prelude::*;

use crate::batches::{batches_of, build_batches, sanitized_from, EntityBatches};
use crate::decompose::{well_formed, RawTransaction};
use crate::records::TransactionRecord;
use crate::writer::{next_phase, Attempt, AtomicWrite, StorageError, WritePhase};

verus! {

/// The name this processor reports its results under.
pub const NAME: &'static str = "custom_processor";

/// A version range that was written.
pub struct ProcessingResult {
    pub processor_name: &'static str,
    pub start_version: u64,
    pub end_version: u64,
}

/// Why a version range was not written. Each error names the range and the
/// processor, so that the caller can drive the range again.
pub enum ProcessingError {
    /// A transaction carried an entity of another version; nothing was written.
    DecodeError { version: u64, start_version: u64, end_version: u64, processor_name: &'static str },
    /// The write failed, and so did its sanitized retry; nothing was written.
    TransactionCommitError {
        cause: StorageError,
        start_version: u64,
        end_version: u64,
        processor_name: &'static str,
    },
}

/// What the caller is to do next for a run.
#[derive(Debug, Clone, Copy, PartialEq, Eq, Structural)]
pub enum PipelineAction {
    /// Send `transactions_to_forward()` to the sink, then call `mark_forwarded`.
    Forward,
    /// Write `batches_to_write()` in one storage transaction, then call
    /// `record_write` with how it ended.
    Write,
    /// Call `finish`.
    Finished,
}

/// The processing of one version range.
pub struct PipelineRun {
    pub processor_name: &'static str,
    pub start_version: u64,
    pub end_version: u64,
    /// Whether the transaction records were handed to the sink.
    pub forwarded: bool,
    /// The transaction records of the range, as built.
    pub forward_batch: Ghost<Seq<TransactionRecord>>,
    pub write: AtomicWrite,
}

impl PipelineRun {
    /// Forwarding comes before any write attempt, and sends the records as
    /// built.
    pub open spec fn wf(&self) -> bool {
        &&& self.write.wf()
        &&& !self.forwarded ==> self.write.phase == WritePhase::Pending(Attempt::Initial)
            && self.write.batches.transactions@ == self.forward_batch@
    }

    /// The step the caller is to perform next.
    pub fn next_action(&self) -> (a: PipelineAction)
        ensures
            a == (if !self.forwarded {
                PipelineAction::Forward
            } else if self.write.phase is Pending {
                PipelineAction::Write
            } else {
                PipelineAction::Finished
            }),
    {
        if !self.forwarded {
            PipelineAction::Forward
        } else if self.write.is_pending() {
            PipelineAction::Write
        } else {
            PipelineAction::Finished
        }
    }

    /// The transaction records to send to the sink: all of the range's.
    pub fn transactions_to_forward(&self) -> (r: &Vec<TransactionRecord>)
        requires
            self.wf(),
            !self.forwarded,
        ensures
            r@ == self.forward_batch@,
    {
        &self.write.batches.transactions
    }

    /// Notes that the sink was handed the records; how the sink fared does
    /// not bear on the write.
    pub fn mark_forwarded(&mut self)
        requires
            old(self).wf(),
        ensures
            final(self).wf(),
            final(self).forwarded,
            final(self).write == old(self).write,
            final(self).forward_batch == old(self).forward_batch,
            final(self).processor_name == old(self).processor_name,
            final(self).start_version == old(self).start_version,
            final(self).end_version == old(self).end_version,
    {
        self.forwarded = true;
    }

    /// The batches that the pending attempt writes.
    pub fn batches_to_write(&self) -> (r: &EntityBatches)
        ensures
            *r == self.write.batches,
    {
        &self.write.batches
    }

    /// Takes in how the pending write attempt ended.
    pub fn record_write(&mut self, outcome: Result<(), StorageError>)
        requires
            old(self).wf(),
            old(self).forwarded,
            old(self).write.phase is Pending,
        ensures
            final(self).wf(),
            final(self).forwarded,
            final(self).write.attempts == old(self).write.attempts + 1,
            final(self).write.phase == next_phase(old(self).write.phase, outcome),
            old(self).write.phase == WritePhase::Pending(Attempt::Initial) && outcome is Err
                ==> sanitized_from(old(self).write.batches, final(self).write.batches),
            !(old(self).write.phase == WritePhase::Pending(Attempt::Initial) && outcome is Err)
                ==> final(self).write.batches == old(self).write.batches,
            final(self).forward_batch == old(self).forward_batch,
            final(self).processor_name == old(self).processor_name,
            final(self).start_version == old(self).start_version,
            final(self).end_version == old(self).end_version,
    {
        self.write.record_outcome(outcome);
    }

    /// The range's result: written, or the retry's error with the range and
    /// the processor's name.
    pub fn finish(self) -> (r: Result<ProcessingResult, ProcessingError>)
        requires
            self.wf(),
            !(self.write.phase is Pending),
        ensures
            self.write.phase is Committed <==> r is Ok,
            r matches Ok(x) ==> x.processor_name == self.processor_name && x.start_version
                == self.start_version && x.end_version == self.end_version,
            r matches Err(e) ==> (e matches ProcessingError::TransactionCommitError {
                cause,
                start_version,
                end_version,
                processor_name,
            } && self.write.phase == WritePhase::Failed(cause) && start_version == self.start_version
                && end_version == self.end_version && processor_name == self.processor_name),
    {
        match self.write.phase {
            WritePhase::Failed(cause) => Err(
                ProcessingError::TransactionCommitError {
                    cause,
                    start_version: self.start_version,
                    end_version: self.end_version,
                    processor_name: self.processor_name,
                },
            ),
            _ => Ok(
                ProcessingResult {
                    processor_name: self.processor_name,
                    start_version: self.start_version,
                    end_version: self.end_version,
                },
            ),
        }
    }
}

/// Forwarding independence: once a write attempt has ended, whether it
/// committed or failed, the sink has already been handed the range's
/// transaction records.
pub proof fn lemma_forwarded_whatever_the_write(run: PipelineRun)
    requires
        run.wf(),
        run.write.attempts >= 1,
    ensures
        run.forwarded,
{
}

/// The processor: a storage connection pool and a sink for transaction
/// records, which the caller uses to perform the steps of each run.
pub struct CustomTransactionProcessor<Pool, Sink> {
    connection_pool: Pool,
    publisher: Sink,
}

impl<Pool, Sink> CustomTransactionProcessor<Pool, Sink> {
    pub closed spec fn pool(&self) -> Pool {
        self.connection_pool
    }

    pub closed spec fn sink(&self) -> Sink {
        self.publisher
    }

    pub fn new(connection_pool: Pool, publisher: Sink) -> (r: Self)
        ensures
            r.pool() == connection_pool,
            r.sink() == publisher,
    {
        Self { connection_pool, publisher }
    }

    pub fn name(&self) -> (r: &'static str)
        ensures
            r == NAME,
    {
        NAME
    }

    pub fn connection_pool(&self) -> (r: &Pool)
        ensures
            *r == self.pool(),
    {
        &self.connection_pool
    }

    pub fn publisher(&self) -> (r: &Sink)
        ensures
            *r == self.sink(),
    {
        &self.publisher
    }

    /// Starts processing the range `start_version..=end_version`, whose
    /// transactions are `transactions`: builds its batches, or fails with the
    /// version of the first malformed transaction before anything is written
    /// or forwarded.
    pub fn process_transactions(
        &self,
        transactions: Vec<RawTransaction>,
        start_version: u64,
        end_version: u64,
    ) -> (r: Result<PipelineRun, ProcessingError>)
        ensures
            r is Ok <==> forall|i: int|
                0 <= i < transactions@.len() ==> well_formed(#[trigger] transactions@[i]),
            r matches Ok(run) ==> {
                &&& run.wf()
                &&& run.processor_name == NAME
                &&& run.start_version == start_version
                &&& run.end_version == end_version
                &&& !run.forwarded
                &&& run.write.phase == WritePhase::Pending(Attempt::Initial)
                &&& batches_of(transactions@, run.write.batches)
                &&& run.forward_batch@ == transactions@.map_values(|t: RawTransaction| t.record)
            },
            r matches Err(e) ==> (e matches ProcessingError::DecodeError {
                version,
                start_version: s,
                end_version: t,
                processor_name,
            } && s == start_version && t == end_version && processor_name == NAME && exists|i: int|
                0 <= i < transactions@.len() && !well_formed(transactions@[i]) && version
                    == transactions@[i].record.version && forall|j: int|
                    0 <= j < i ==> well_formed(#[trigger] transactions@[j])),
    {
        let ghost raw = transactions@;
        match build_batches(transactions) {
            Ok(batches) => {
                let ghost records = batches.transactions@;
                Ok(
                    PipelineRun {
                        processor_name: NAME,
                        start_version,
                        end_version,
                        forwarded: false,
                        forward_batch: Ghost(records),
                        write: AtomicWrite::new(batches),
                    },
                )
            },
            Err(e) => Err(
                ProcessingError::DecodeError {
                    version: e.version,
                    start_version,
                    end_version,
                    processor_name: NAME,
                },
            ),
        }
    }
}

} // verus!
