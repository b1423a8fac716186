//! The normalized entities that one version range is decomposed into.
use vstd::prelude::*;

use crate::text::{strip_nul_bytes, without_nul};

verus! {

/// An entity that can be sanitized for the store.
pub trait Record: View + Sized {
    /// What sanitizing does to a record's view: NUL bytes leave every text field.
    spec fn clean(v: Self::V) -> Self::V;

    fn sanitized(&self) -> (r: Self)
        ensures
            r@ == Self::clean(self@),
    ;
}

/// The views of the items of `s`, in order.
pub open spec fn views<T: View>(s: Seq<T>) -> Seq<T::V> {
    s.map_values(|t: T| t@)
}

/// The sanitized form of every item of `items`, in order.
pub fn sanitize_all<T: Record>(items: &Vec<T>) -> (r: Vec<T>)
    ensures
        views(r@) == views(items@).map_values(|v: T::V| T::clean(v)),
{
    let mut r: Vec<T> = Vec::new();
    let mut i: usize = 0;
    while i < items.len()
        invariant
            i <= items@.len(),
            r@.len() == i,
            forall|j: int| 0 <= j < i ==> r@[j]@ == T::clean(items@[j]@),
        decreases items@.len() - i,
    {
        let item = items[i].sanitized();
        r.push(item);
        i = i + 1;
    }
    assert(views(r@) =~= views(items@).map_values(|v: T::V| T::clean(v)));
    r
}

/// The canonical record of one transaction.
pub struct TransactionRecord {
    pub version: u64,
    pub txn_type: Vec<u8>,
    pub success: bool,
    pub vm_status: Vec<u8>,
    pub timestamp: u64,
    pub hash: Vec<u8>,
}

pub ghost struct TransactionRecordView {
    pub version: u64,
    pub txn_type: Seq<u8>,
    pub success: bool,
    pub vm_status: Seq<u8>,
    pub timestamp: u64,
    pub hash: Seq<u8>,
}

impl View for TransactionRecord {
    type V = TransactionRecordView;

    open spec fn view(&self) -> TransactionRecordView {
        TransactionRecordView {
            version: self.version,
            txn_type: self.txn_type@,
            success: self.success,
            vm_status: self.vm_status@,
            timestamp: self.timestamp,
            hash: self.hash@,
        }
    }
}

impl Record for TransactionRecord {
    open spec fn clean(v: TransactionRecordView) -> TransactionRecordView {
        TransactionRecordView {
            txn_type: without_nul(v.txn_type),
            vm_status: without_nul(v.vm_status),
            hash: without_nul(v.hash),
            ..v
        }
    }

    fn sanitized(&self) -> (r: Self) {
        TransactionRecord {
            version: self.version,
            txn_type: strip_nul_bytes(&self.txn_type),
            success: self.success,
            vm_status: strip_nul_bytes(&self.vm_status),
            timestamp: self.timestamp,
            hash: strip_nul_bytes(&self.hash),
        }
    }
}

/// The user-submitted part of a user transaction.
pub struct UserTransactionRecord {
    pub version: u64,
    pub sender: Vec<u8>,
    pub sequence_number: u64,
    pub entry_function: Vec<u8>,
}

pub ghost struct UserTransactionRecordView {
    pub version: u64,
    pub sender: Seq<u8>,
    pub sequence_number: u64,
    pub entry_function: Seq<u8>,
}

impl View for UserTransactionRecord {
    type V = UserTransactionRecordView;

    open spec fn view(&self) -> UserTransactionRecordView {
        UserTransactionRecordView {
            version: self.version,
            sender: self.sender@,
            sequence_number: self.sequence_number,
            entry_function: self.entry_function@,
        }
    }
}

impl Record for UserTransactionRecord {
    open spec fn clean(v: UserTransactionRecordView) -> UserTransactionRecordView {
        UserTransactionRecordView {
            sender: without_nul(v.sender),
            entry_function: without_nul(v.entry_function),
            ..v
        }
    }

    fn sanitized(&self) -> (r: Self) {
        UserTransactionRecord {
            version: self.version,
            sender: strip_nul_bytes(&self.sender),
            sequence_number: self.sequence_number,
            entry_function: strip_nul_bytes(&self.entry_function),
        }
    }
}

/// One signature of a user transaction.
pub struct SignatureRecord {
    pub version: u64,
    pub index: u64,
    pub signer: Vec<u8>,
    pub signature: Vec<u8>,
}

pub ghost struct SignatureRecordView {
    pub version: u64,
    pub index: u64,
    pub signer: Seq<u8>,
    pub signature: Seq<u8>,
}

impl View for SignatureRecord {
    type V = SignatureRecordView;

    open spec fn view(&self) -> SignatureRecordView {
        SignatureRecordView {
            version: self.version,
            index: self.index,
            signer: self.signer@,
            signature: self.signature@,
        }
    }
}

impl Record for SignatureRecord {
    open spec fn clean(v: SignatureRecordView) -> SignatureRecordView {
        SignatureRecordView {
            signer: without_nul(v.signer),
            signature: without_nul(v.signature),
            ..v
        }
    }

    fn sanitized(&self) -> (r: Self) {
        SignatureRecord {
            version: self.version,
            index: self.index,
            signer: strip_nul_bytes(&self.signer),
            signature: strip_nul_bytes(&self.signature),
        }
    }
}

/// The block metadata carried by a block-metadata transaction.
pub struct BlockMetadataRecord {
    pub version: u64,
    pub block_id: Vec<u8>,
    pub epoch: u64,
    pub round: u64,
    pub proposer: Vec<u8>,
}

pub ghost struct BlockMetadataRecordView {
    pub version: u64,
    pub block_id: Seq<u8>,
    pub epoch: u64,
    pub round: u64,
    pub proposer: Seq<u8>,
}

impl View for BlockMetadataRecord {
    type V = BlockMetadataRecordView;

    open spec fn view(&self) -> BlockMetadataRecordView {
        BlockMetadataRecordView {
            version: self.version,
            block_id: self.block_id@,
            epoch: self.epoch,
            round: self.round,
            proposer: self.proposer@,
        }
    }
}

impl Record for BlockMetadataRecord {
    open spec fn clean(v: BlockMetadataRecordView) -> BlockMetadataRecordView {
        BlockMetadataRecordView {
            block_id: without_nul(v.block_id),
            proposer: without_nul(v.proposer),
            ..v
        }
    }

    fn sanitized(&self) -> (r: Self) {
        BlockMetadataRecord {
            version: self.version,
            block_id: strip_nul_bytes(&self.block_id),
            epoch: self.epoch,
            round: self.round,
            proposer: strip_nul_bytes(&self.proposer),
        }
    }
}

/// One event emitted by a transaction; identified by version and index.
pub struct EventRecord {
    pub version: u64,
    pub index: u64,
    pub event_type: Vec<u8>,
    pub data: Vec<u8>,
}

pub ghost struct EventRecordView {
    pub version: u64,
    pub index: u64,
    pub event_type: Seq<u8>,
    pub data: Seq<u8>,
}

impl View for EventRecord {
    type V = EventRecordView;

    open spec fn view(&self) -> EventRecordView {
        EventRecordView {
            version: self.version,
            index: self.index,
            event_type: self.event_type@,
            data: self.data@,
        }
    }
}

impl Record for EventRecord {
    open spec fn clean(v: EventRecordView) -> EventRecordView {
        EventRecordView {
            event_type: without_nul(v.event_type),
            data: without_nul(v.data),
            ..v
        }
    }

    fn sanitized(&self) -> (r: Self) {
        EventRecord {
            version: self.version,
            index: self.index,
            event_type: strip_nul_bytes(&self.event_type),
            data: strip_nul_bytes(&self.data),
        }
    }
}

/// One state change recorded by a transaction.
pub struct WriteSetChangeRecord {
    pub version: u64,
    pub index: u64,
    pub change_type: Vec<u8>,
    pub address: Vec<u8>,
}

pub ghost struct WriteSetChangeRecordView {
    pub version: u64,
    pub index: u64,
    pub change_type: Seq<u8>,
    pub address: Seq<u8>,
}

impl View for WriteSetChangeRecord {
    type V = WriteSetChangeRecordView;

    open spec fn view(&self) -> WriteSetChangeRecordView {
        WriteSetChangeRecordView {
            version: self.version,
            index: self.index,
            change_type: self.change_type@,
            address: self.address@,
        }
    }
}

impl Record for WriteSetChangeRecord {
    open spec fn clean(v: WriteSetChangeRecordView) -> WriteSetChangeRecordView {
        WriteSetChangeRecordView {
            change_type: without_nul(v.change_type),
            address: without_nul(v.address),
            ..v
        }
    }

    fn sanitized(&self) -> (r: Self) {
        WriteSetChangeRecord {
            version: self.version,
            index: self.index,
            change_type: strip_nul_bytes(&self.change_type),
            address: strip_nul_bytes(&self.address),
        }
    }
}

/// A module published by a write-set change.
pub struct MoveModule {
    pub version: u64,
    pub index: u64,
    pub address: Vec<u8>,
    pub name: Vec<u8>,
}

pub ghost struct MoveModuleView {
    pub version: u64,
    pub index: u64,
    pub address: Seq<u8>,
    pub name: Seq<u8>,
}

impl View for MoveModule {
    type V = MoveModuleView;

    open spec fn view(&self) -> MoveModuleView {
        MoveModuleView {
            version: self.version,
            index: self.index,
            address: self.address@,
            name: self.name@,
        }
    }
}

impl Record for MoveModule {
    open spec fn clean(v: MoveModuleView) -> MoveModuleView {
        MoveModuleView {
            address: without_nul(v.address),
            name: without_nul(v.name),
            ..v
        }
    }

    fn sanitized(&self) -> (r: Self) {
        MoveModule {
            version: self.version,
            index: self.index,
            address: strip_nul_bytes(&self.address),
            name: strip_nul_bytes(&self.name),
        }
    }
}

/// A resource written by a write-set change.
pub struct MoveResource {
    pub version: u64,
    pub index: u64,
    pub address: Vec<u8>,
    pub resource_type: Vec<u8>,
    pub data: Vec<u8>,
}

pub ghost struct MoveResourceView {
    pub version: u64,
    pub index: u64,
    pub address: Seq<u8>,
    pub resource_type: Seq<u8>,
    pub data: Seq<u8>,
}

impl View for MoveResource {
    type V = MoveResourceView;

    open spec fn view(&self) -> MoveResourceView {
        MoveResourceView {
            version: self.version,
            index: self.index,
            address: self.address@,
            resource_type: self.resource_type@,
            data: self.data@,
        }
    }
}

impl Record for MoveResource {
    open spec fn clean(v: MoveResourceView) -> MoveResourceView {
        MoveResourceView {
            address: without_nul(v.address),
            resource_type: without_nul(v.resource_type),
            data: without_nul(v.data),
            ..v
        }
    }

    fn sanitized(&self) -> (r: Self) {
        MoveResource {
            version: self.version,
            index: self.index,
            address: strip_nul_bytes(&self.address),
            resource_type: strip_nul_bytes(&self.resource_type),
            data: strip_nul_bytes(&self.data),
        }
    }
}

/// One observed write to a table slot, at a given version and write-set index.
pub struct TableItem {
    pub version: u64,
    pub index: u64,
    pub table_handle: Vec<u8>,
    pub key: Vec<u8>,
    pub value: Vec<u8>,
}

pub ghost struct TableItemView {
    pub version: u64,
    pub index: u64,
    pub table_handle: Seq<u8>,
    pub key: Seq<u8>,
    pub value: Seq<u8>,
}

impl View for TableItem {
    type V = TableItemView;

    open spec fn view(&self) -> TableItemView {
        TableItemView {
            version: self.version,
            index: self.index,
            table_handle: self.table_handle@,
            key: self.key@,
            value: self.value@,
        }
    }
}

impl Record for TableItem {
    open spec fn clean(v: TableItemView) -> TableItemView {
        TableItemView {
            table_handle: without_nul(v.table_handle),
            key: without_nul(v.key),
            value: without_nul(v.value),
            ..v
        }
    }

    fn sanitized(&self) -> (r: Self) {
        TableItem {
            version: self.version,
            index: self.index,
            table_handle: strip_nul_bytes(&self.table_handle),
            key: strip_nul_bytes(&self.key),
            value: strip_nul_bytes(&self.value),
        }
    }
}

/// The latest known value of a table slot, keyed by `(table_handle, key_hash)`.
pub struct CurrentTableItem {
    pub table_handle: Vec<u8>,
    pub key_hash: Vec<u8>,
    pub key: Vec<u8>,
    pub value: Vec<u8>,
    pub last_version: u64,
}

pub ghost struct CurrentTableItemView {
    pub table_handle: Seq<u8>,
    pub key_hash: Seq<u8>,
    pub key: Seq<u8>,
    pub value: Seq<u8>,
    pub last_version: u64,
}

impl View for CurrentTableItem {
    type V = CurrentTableItemView;

    open spec fn view(&self) -> CurrentTableItemView {
        CurrentTableItemView {
            table_handle: self.table_handle@,
            key_hash: self.key_hash@,
            key: self.key@,
            value: self.value@,
            last_version: self.last_version,
        }
    }
}

impl Record for CurrentTableItem {
    open spec fn clean(v: CurrentTableItemView) -> CurrentTableItemView {
        CurrentTableItemView {
            table_handle: without_nul(v.table_handle),
            key_hash: without_nul(v.key_hash),
            key: without_nul(v.key),
            value: without_nul(v.value),
            ..v
        }
    }

    fn sanitized(&self) -> (r: Self) {
        CurrentTableItem {
            table_handle: strip_nul_bytes(&self.table_handle),
            key_hash: strip_nul_bytes(&self.key_hash),
            key: strip_nul_bytes(&self.key),
            value: strip_nul_bytes(&self.value),
            last_version: self.last_version,
        }
    }
}

/// The key and value types of a table, keyed by its handle.
pub struct TableMetadata {
    pub handle: Vec<u8>,
    pub key_type: Vec<u8>,
    pub value_type: Vec<u8>,
}

pub ghost struct TableMetadataView {
    pub handle: Seq<u8>,
    pub key_type: Seq<u8>,
    pub value_type: Seq<u8>,
}

impl View for TableMetadata {
    type V = TableMetadataView;

    open spec fn view(&self) -> TableMetadataView {
        TableMetadataView {
            handle: self.handle@,
            key_type: self.key_type@,
            value_type: self.value_type@,
        }
    }
}

impl Record for TableMetadata {
    open spec fn clean(v: TableMetadataView) -> TableMetadataView {
        TableMetadataView {
            handle: without_nul(v.handle),
            key_type: without_nul(v.key_type),
            value_type: without_nul(v.value_type),
            ..v
        }
    }

    fn sanitized(&self) -> (r: Self) {
        TableMetadata {
            handle: strip_nul_bytes(&self.handle),
            key_type: strip_nul_bytes(&self.key_type),
            value_type: strip_nul_bytes(&self.value_type),
        }
    }
}

/// What a transaction carries beside its canonical record: exactly one of these.
pub enum TransactionDetail {
    User(UserTransactionRecord, Vec<SignatureRecord>),
    BlockMetadata(BlockMetadataRecord),
}

/// What a write-set change wrote: a module, a resource, or a table slot. A
/// table write carries the item, the slot's new current value, and the table's
/// metadata where this is the first time the table is seen.
pub enum WriteSetChangeDetail {
    Module(MoveModule),
    Resource(MoveResource),
    Table(TableItem, CurrentTableItem, Option<TableMetadata>),
}

} // verus!
