//! All entity batches of one version range, as written in one atomic unit.
use vstd::prelude::*;

use crate::collapse::{collapse, collapses_to, CollapsedChanges};
use crate::decompose::{
    block_metadata_of, change_details_of, change_records_of, decompose, events_of,
    signatures_of, split_details, user_records_of, well_formed, DecodeError, RawTransaction,
};
use crate::records::{
    sanitize_all, views, BlockMetadataRecord, CurrentTableItem, EventRecord, MoveModule,
    MoveResource, Record, SignatureRecord, TableItem, TableMetadata, TransactionRecord,
    UserTransactionRecord, WriteSetChangeRecord,
};

verus! {

/// The entities of one version range, one batch per kind.
pub struct EntityBatches {
    pub transactions: Vec<TransactionRecord>,
    pub user_transactions: Vec<UserTransactionRecord>,
    pub signatures: Vec<SignatureRecord>,
    pub block_metadata_transactions: Vec<BlockMetadataRecord>,
    pub events: Vec<EventRecord>,
    pub write_set_changes: Vec<WriteSetChangeRecord>,
    pub move_modules: Vec<MoveModule>,
    pub move_resources: Vec<MoveResource>,
    pub table_items: Vec<TableItem>,
    pub current_table_items: Vec<CurrentTableItem>,
    pub table_metadata: Vec<TableMetadata>,
}

/// `b` is `a` with each record sanitized, in the same order.
pub open spec fn cleaned<T: Record>(a: Seq<T>, b: Seq<T>) -> bool {
    views(b) == views(a).map_values(|v: T::V| T::clean(v))
}

/// `b` is `a` with every record of every batch sanitized.
pub open spec fn sanitized_from(a: EntityBatches, b: EntityBatches) -> bool {
    &&& cleaned(a.transactions@, b.transactions@)
    &&& cleaned(a.user_transactions@, b.user_transactions@)
    &&& cleaned(a.signatures@, b.signatures@)
    &&& cleaned(a.block_metadata_transactions@, b.block_metadata_transactions@)
    &&& cleaned(a.events@, b.events@)
    &&& cleaned(a.write_set_changes@, b.write_set_changes@)
    &&& cleaned(a.move_modules@, b.move_modules@)
    &&& cleaned(a.move_resources@, b.move_resources@)
    &&& cleaned(a.table_items@, b.table_items@)
    &&& cleaned(a.current_table_items@, b.current_table_items@)
    &&& cleaned(a.table_metadata@, b.table_metadata@)
}

/// The write-set change batches of `b`.
pub open spec fn collapsed_part(b: EntityBatches) -> CollapsedChanges {
    CollapsedChanges {
        move_modules: b.move_modules,
        move_resources: b.move_resources,
        table_items: b.table_items,
        current_table_items: b.current_table_items,
        table_metadata: b.table_metadata,
    }
}

/// `b` holds the entities of `raw`: the transaction-level batches in order,
/// and the write-set change details collapsed.
pub open spec fn batches_of(raw: Seq<RawTransaction>, b: EntityBatches) -> bool {
    let details = raw.map_values(|t: RawTransaction| t.detail);
    &&& b.transactions@ == raw.map_values(|t: RawTransaction| t.record)
    &&& b.user_transactions@ == user_records_of(details)
    &&& b.signatures@ == signatures_of(details)
    &&& b.block_metadata_transactions@ == block_metadata_of(details)
    &&& b.events@ == events_of(raw)
    &&& b.write_set_changes@ == change_records_of(raw)
    &&& collapses_to(change_details_of(raw), collapsed_part(b))
}

impl EntityBatches {
    /// Every batch with every record sanitized.
    pub fn sanitized(&self) -> (r: EntityBatches)
        ensures
            sanitized_from(*self, r),
    {
        EntityBatches {
            transactions: sanitize_all(&self.transactions),
            user_transactions: sanitize_all(&self.user_transactions),
            signatures: sanitize_all(&self.signatures),
            block_metadata_transactions: sanitize_all(&self.block_metadata_transactions),
            events: sanitize_all(&self.events),
            write_set_changes: sanitize_all(&self.write_set_changes),
            move_modules: sanitize_all(&self.move_modules),
            move_resources: sanitize_all(&self.move_resources),
            table_items: sanitize_all(&self.table_items),
            current_table_items: sanitize_all(&self.current_table_items),
            table_metadata: sanitize_all(&self.table_metadata),
        }
    }
}

/// Decomposes `transactions`, splits their details and collapses their
/// write-set changes into the batches to write; fails as decomposing does.
pub fn build_batches(transactions: Vec<RawTransaction>) -> (r: Result<EntityBatches, DecodeError>)
    ensures
        r is Ok <==> forall|i: int|
            0 <= i < transactions@.len() ==> well_formed(#[trigger] transactions@[i]),
        r matches Ok(b) ==> batches_of(transactions@, b),
        r matches Err(e) ==> exists|i: int|
            0 <= i < transactions@.len() && !well_formed(transactions@[i]) && e.version
                == transactions@[i].record.version && forall|j: int|
                0 <= j < i ==> well_formed(#[trigger] transactions@[j]),
{
    let decomposed = match decompose(transactions) {
        Ok(d) => d,
        Err(e) => return Err(e),
    };
    let split = split_details(decomposed.details);
    let changes = collapse(decomposed.change_details);
    Ok(
        EntityBatches {
            transactions: decomposed.transactions,
            user_transactions: split.user_transactions,
            signatures: split.signatures,
            block_metadata_transactions: split.block_metadata_transactions,
            events: decomposed.events,
            write_set_changes: decomposed.write_set_changes,
            move_modules: changes.move_modules,
            move_resources: changes.move_resources,
            table_items: changes.table_items,
            current_table_items: changes.current_table_items,
            table_metadata: changes.table_metadata,
        },
    )
}

} // verus!
