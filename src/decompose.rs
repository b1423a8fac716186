//! Decomposing raw transactions into parallel batches of normalized entities.
use vstd::prelude::*;

use crate::records::{
    BlockMetadataRecord, EventRecord, SignatureRecord, TransactionDetail, TransactionRecord,
    UserTransactionRecord, WriteSetChangeDetail, WriteSetChangeRecord,
};

verus! {

/// One write-set change of a transaction, with what it wrote.
pub struct WriteSetChange {
    pub record: WriteSetChangeRecord,
    pub detail: WriteSetChangeDetail,
}

/// A transaction as received, already mapped to entities.
pub struct RawTransaction {
    pub record: TransactionRecord,
    pub detail: TransactionDetail,
    pub events: Vec<EventRecord>,
    pub changes: Vec<WriteSetChange>,
}

/// A raw transaction whose entities do not all belong to it.
#[derive(Debug, PartialEq, Eq, Structural)]
pub struct DecodeError {
    /// The version of the offending transaction.
    pub version: u64,
}

/// The version that a write-set change detail belongs to.
pub open spec fn change_version(c: WriteSetChangeDetail) -> u64 {
    match c {
        WriteSetChangeDetail::Module(m) => m.version,
        WriteSetChangeDetail::Resource(r) => r.version,
        WriteSetChangeDetail::Table(t, _, _) => t.version,
    }
}

/// Every entity that `t` carries is at `t`'s own version.
pub open spec fn well_formed(t: RawTransaction) -> bool {
    let v = t.record.version;
    &&& match t.detail {
        TransactionDetail::User(u, sigs) => u.version == v && forall|j: int|
            0 <= j < sigs@.len() ==> (#[trigger] sigs@[j]).version == v,
        TransactionDetail::BlockMetadata(b) => b.version == v,
    }
    &&& forall|j: int| 0 <= j < t.events@.len() ==> (#[trigger] t.events@[j]).version == v
    &&& forall|j: int|
        0 <= j < t.changes@.len() ==> (#[trigger] t.changes@[j]).record.version == v
            && change_version(t.changes@[j].detail) == v
}

/// The events of `raw`, transaction after transaction.
pub open spec fn events_of(raw: Seq<RawTransaction>) -> Seq<EventRecord>
    decreases raw.len(),
{
    if raw.len() == 0 {
        Seq::empty()
    } else {
        events_of(raw.drop_last()) + raw.last().events@
    }
}

/// The write-set change records of `raw`, in order.
pub open spec fn change_records_of(raw: Seq<RawTransaction>) -> Seq<WriteSetChangeRecord>
    decreases raw.len(),
{
    if raw.len() == 0 {
        Seq::empty()
    } else {
        change_records_of(raw.drop_last()) + raw.last().changes@.map_values(
            |c: WriteSetChange| c.record,
        )
    }
}

/// The write-set change details of `raw`, in order.
pub open spec fn change_details_of(raw: Seq<RawTransaction>) -> Seq<WriteSetChangeDetail>
    decreases raw.len(),
{
    if raw.len() == 0 {
        Seq::empty()
    } else {
        change_details_of(raw.drop_last()) + raw.last().changes@.map_values(
            |c: WriteSetChange| c.detail,
        )
    }
}

/// The batches that a sequence of transactions decomposes into.
pub struct Decomposed {
    pub transactions: Vec<TransactionRecord>,
    pub details: Vec<TransactionDetail>,
    pub events: Vec<EventRecord>,
    pub write_set_changes: Vec<WriteSetChangeRecord>,
    pub change_details: Vec<WriteSetChangeDetail>,
}

/// `o` holds the entities of `raw`, each batch in order, one detail per
/// transaction and one per write-set change.
pub open spec fn decomposes_to(raw: Seq<RawTransaction>, o: Decomposed) -> bool {
    &&& o.transactions@ == raw.map_values(|t: RawTransaction| t.record)
    &&& o.details@ == raw.map_values(|t: RawTransaction| t.detail)
    &&& o.events@ == events_of(raw)
    &&& o.write_set_changes@ == change_records_of(raw)
    &&& o.change_details@ == change_details_of(raw)
}

/// Whether every entity of `t` is at `t`'s version.
pub fn check_transaction(t: &RawTransaction) -> (ok: bool)
    ensures
        ok == well_formed(*t),
{
    let v = t.record.version;
    let detail_ok = match &t.detail {
        TransactionDetail::User(u, sigs) => {
            let mut ok = u.version == v;
            for j in 0..sigs.len()
                invariant
                    ok == (u.version == v && forall|i: int| 0 <= i < j ==> (#[trigger] sigs@[i]).version == v),
            {
                ok = ok && sigs[j].version == v;
            }
            ok
        },
        TransactionDetail::BlockMetadata(b) => b.version == v,
    };
    let mut events_ok = true;
    for j in 0..t.events.len()
        invariant
            events_ok == forall|i: int| 0 <= i < j ==> (#[trigger] t.events@[i]).version == v,
    {
        events_ok = events_ok && t.events[j].version == v;
    }
    let mut changes_ok = true;
    for j in 0..t.changes.len()
        invariant
            changes_ok == forall|i: int|
                0 <= i < j ==> (#[trigger] t.changes@[i]).record.version == v && change_version(
                    t.changes@[i].detail,
                ) == v,
    {
        let c = &t.changes[j];
        let detail_version = match &c.detail {
            WriteSetChangeDetail::Module(m) => m.version,
            WriteSetChangeDetail::Resource(r) => r.version,
            WriteSetChangeDetail::Table(item, _, _) => item.version,
        };
        changes_ok = changes_ok && c.record.version == v && detail_version == v;
    }
    detail_ok && events_ok && changes_ok
}

/// Decomposes `transactions` into their batches, or reports the first
/// transaction that carries an entity of another version.
pub fn decompose(transactions: Vec<RawTransaction>) -> (r: Result<Decomposed, DecodeError>)
    ensures
        r is Ok <==> forall|i: int|
            0 <= i < transactions@.len() ==> well_formed(#[trigger] transactions@[i]),
        r matches Ok(o) ==> decomposes_to(transactions@, o),
        r matches Err(e) ==> exists|i: int|
            0 <= i < transactions@.len() && !well_formed(transactions@[i]) && e.version
                == transactions@[i].record.version && forall|j: int|
                0 <= j < i ==> well_formed(#[trigger] transactions@[j]),
{
    let ghost raw = transactions@;
    let mut o = Decomposed {
        transactions: Vec::new(),
        details: Vec::new(),
        events: Vec::new(),
        write_set_changes: Vec::new(),
        change_details: Vec::new(),
    };
    assert(o.transactions@ =~= raw.subrange(0, 0).map_values(|t: RawTransaction| t.record));
    assert(o.details@ =~= raw.subrange(0, 0).map_values(|t: RawTransaction| t.detail));
    for t in it: transactions.into_iter()
        invariant
            it.seq() == raw,
            forall|j: int| 0 <= j < it.index() ==> well_formed(#[trigger] raw[j]),
            decomposes_to(raw.subrange(0, it.index() as int), o),
    {
        let ghost i = it.index() as int;
        let ghost p = raw.subrange(0, i);
        let ghost p2 = raw.subrange(0, i + 1);
        assert(p2.drop_last() =~= p);
        if !check_transaction(&t) {
            return Err(DecodeError { version: t.record.version });
        }
        let RawTransaction { record, detail, mut events, changes } = t;
        o.transactions.push(record);
        o.details.push(detail);
        o.events.append(&mut events);
        let ghost cs = changes@;
        let ghost records_before = o.write_set_changes@;
        let ghost details_before = o.change_details@;
        let ghost earlier = (o.transactions@, o.details@, o.events@);
        for c in it2: changes.into_iter()
            invariant
                it2.seq() == cs,
                (o.transactions@, o.details@, o.events@) == earlier,
                o.write_set_changes@ == records_before + cs.subrange(
                    0,
                    it2.index() as int,
                ).map_values(|c: WriteSetChange| c.record),
                o.change_details@ == details_before + cs.subrange(
                    0,
                    it2.index() as int,
                ).map_values(|c: WriteSetChange| c.detail),
        {
            let ghost k = it2.index() as int;
            let WriteSetChange { record, detail } = c;
            o.write_set_changes.push(record);
            o.change_details.push(detail);
            assert(o.write_set_changes@ =~= records_before + cs.subrange(0, k + 1).map_values(
                |c: WriteSetChange| c.record,
            ));
            assert(o.change_details@ =~= details_before + cs.subrange(0, k + 1).map_values(
                |c: WriteSetChange| c.detail,
            ));
        }
        assert(cs.subrange(0, cs.len() as int) =~= cs);
        assert(o.transactions@ =~= p2.map_values(|t: RawTransaction| t.record));
        assert(o.details@ =~= p2.map_values(|t: RawTransaction| t.detail));
    }
    assert(raw.subrange(0, raw.len() as int) =~= raw);
    Ok(o)
}

/// The user-transaction records among `d`, in order.
pub open spec fn user_records_of(d: Seq<TransactionDetail>) -> Seq<UserTransactionRecord>
    decreases d.len(),
{
    if d.len() == 0 {
        Seq::empty()
    } else {
        match d.last() {
            TransactionDetail::User(u, _) => user_records_of(d.drop_last()).push(u),
            _ => user_records_of(d.drop_last()),
        }
    }
}

/// The signatures of the user transactions among `d`, transaction after
/// transaction.
pub open spec fn signatures_of(d: Seq<TransactionDetail>) -> Seq<SignatureRecord>
    decreases d.len(),
{
    if d.len() == 0 {
        Seq::empty()
    } else {
        match d.last() {
            TransactionDetail::User(_, sigs) => signatures_of(d.drop_last()) + sigs@,
            _ => signatures_of(d.drop_last()),
        }
    }
}

/// The block-metadata records among `d`, in order.
pub open spec fn block_metadata_of(d: Seq<TransactionDetail>) -> Seq<BlockMetadataRecord>
    decreases d.len(),
{
    if d.len() == 0 {
        Seq::empty()
    } else {
        match d.last() {
            TransactionDetail::BlockMetadata(b) => block_metadata_of(d.drop_last()).push(b),
            _ => block_metadata_of(d.drop_last()),
        }
    }
}

/// The transaction details of a batch, split by kind.
pub struct SplitDetails {
    pub user_transactions: Vec<UserTransactionRecord>,
    pub signatures: Vec<SignatureRecord>,
    pub block_metadata_transactions: Vec<BlockMetadataRecord>,
}

/// Splits `details` into user transactions, their signatures, and block
/// metadata, each in order.
pub fn split_details(details: Vec<TransactionDetail>) -> (r: SplitDetails)
    ensures
        r.user_transactions@ == user_records_of(details@),
        r.signatures@ == signatures_of(details@),
        r.block_metadata_transactions@ == block_metadata_of(details@),
{
    let ghost d = details@;
    let mut r = SplitDetails {
        user_transactions: Vec::new(),
        signatures: Vec::new(),
        block_metadata_transactions: Vec::new(),
    };
    for detail in it: details.into_iter()
        invariant
            it.seq() == d,
            r.user_transactions@ == user_records_of(d.subrange(0, it.index() as int)),
            r.signatures@ == signatures_of(d.subrange(0, it.index() as int)),
            r.block_metadata_transactions@ == block_metadata_of(d.subrange(0, it.index() as int)),
    {
        assert(d.subrange(0, it.index() as int + 1).drop_last() =~= d.subrange(
            0,
            it.index() as int,
        ));
        match detail {
            TransactionDetail::User(u, mut sigs) => {
                r.user_transactions.push(u);
                r.signatures.append(&mut sigs);
            },
            TransactionDetail::BlockMetadata(b) => r.block_metadata_transactions.push(b),
        }
    }
    assert(d.subrange(0, d.len() as int) =~= d);
    r
}

} // verus!
