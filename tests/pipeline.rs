use custom_processor::batches::{build_batches, EntityBatches};
use custom_processor::chunks::{get_chunks, MAX_PARAMETERS};
use custom_processor::collapse::collapse;
use custom_processor::decompose::{
    check_transaction, decompose, split_details, DecodeError, RawTransaction, WriteSetChange,
};
use custom_processor::order::{compare_bytes, compare_keys};
use custom_processor::processor::{
    CustomTransactionProcessor, PipelineAction, PipelineRun, ProcessingError, NAME,
};
use custom_processor::records::{
    BlockMetadataRecord, CurrentTableItem, EventRecord, MoveModule, MoveResource,
    SignatureRecord, TableItem, TableMetadata, TransactionDetail, TransactionRecord,
    UserTransactionRecord, WriteSetChangeDetail, WriteSetChangeRecord,
};
use custom_processor::text::strip_nul_bytes;
use custom_processor::writer::{Attempt, AtomicWrite, StorageError, WritePhase};
use std::cmp::Ordering;

fn b(s: &str) -> Vec<u8> {
    s.as_bytes().to_vec()
}

fn txn_record(version: u64, kind: &str) -> TransactionRecord {
    TransactionRecord {
        version,
        txn_type: b(kind),
        success: true,
        vm_status: b("Executed successfully"),
        timestamp: 1_000 + version,
        hash: b(&format!("0x{:x}", version)),
    }
}

fn signature(version: u64, index: u64) -> SignatureRecord {
    SignatureRecord { version, index, signer: b("0x1"), signature: b(&format!("sig{}", index)) }
}

fn user_txn(version: u64, signatures: u64) -> RawTransaction {
    RawTransaction {
        record: txn_record(version, "user_transaction"),
        detail: TransactionDetail::User(
            UserTransactionRecord {
                version,
                sender: b("0x1"),
                sequence_number: version,
                entry_function: b("0x1::coin::transfer"),
            },
            (0..signatures).map(|i| signature(version, i)).collect(),
        ),
        events: vec![EventRecord { version, index: 0, event_type: b("0x1::coin::Deposit"), data: b("{}") }],
        changes: vec![],
    }
}

fn block_txn(version: u64) -> RawTransaction {
    RawTransaction {
        record: txn_record(version, "block_metadata_transaction"),
        detail: TransactionDetail::BlockMetadata(BlockMetadataRecord {
            version,
            block_id: b("0xb"),
            epoch: 1,
            round: version,
            proposer: b("0x2"),
        }),
        events: vec![],
        changes: vec![],
    }
}

fn table_write(version: u64, index: u64, handle: &str, key_hash: &str, value: &str, meta: bool) -> WriteSetChange {
    WriteSetChange {
        record: WriteSetChangeRecord { version, index, change_type: b("write_table_item"), address: b(handle) },
        detail: WriteSetChangeDetail::Table(
            TableItem { version, index, table_handle: b(handle), key: b(key_hash), value: b(value) },
            CurrentTableItem {
                table_handle: b(handle),
                key_hash: b(key_hash),
                key: b(key_hash),
                value: b(value),
                last_version: version,
            },
            if meta {
                Some(TableMetadata { handle: b(handle), key_type: b("u64"), value_type: b(value) })
            } else {
                None
            },
        ),
    }
}

fn current_keys(items: &[CurrentTableItem]) -> Vec<(Vec<u8>, Vec<u8>, Vec<u8>)> {
    items.iter().map(|c| (c.table_handle.clone(), c.key_hash.clone(), c.value.clone())).collect()
}

fn run_for(transactions: Vec<RawTransaction>, start: u64, end: u64) -> PipelineRun {
    let processor = CustomTransactionProcessor::new((), ());
    match processor.process_transactions(transactions, start, end) {
        Ok(run) => run,
        Err(_) => panic!("the transactions are well formed"),
    }
}

fn failure(message: &str) -> Result<(), StorageError> {
    Err(StorageError { message: message.to_string() })
}

#[test]
fn details_and_signatures_keep_transaction_order() {
    let raw = vec![user_txn(1, 1), block_txn(2), user_txn(3, 2)];
    let decomposed = match decompose(raw) {
        Ok(d) => d,
        Err(_) => panic!("well formed"),
    };
    assert_eq!(decomposed.details.len(), 3);
    assert!(matches!(decomposed.details[0], TransactionDetail::User(_, _)));
    assert!(matches!(decomposed.details[1], TransactionDetail::BlockMetadata(_)));
    assert!(matches!(decomposed.details[2], TransactionDetail::User(_, _)));
    let versions: Vec<u64> = decomposed.transactions.iter().map(|t| t.version).collect();
    assert_eq!(versions, vec![1, 2, 3]);
    assert_eq!(decomposed.events.len(), 2);
    let split = split_details(decomposed.details);
    assert_eq!(split.user_transactions.len(), 2);
    assert_eq!(split.block_metadata_transactions.len(), 1);
    let sigs: Vec<(u64, u64)> = split.signatures.iter().map(|s| (s.version, s.index)).collect();
    assert_eq!(sigs, vec![(1, 0), (3, 0), (3, 1)]);
}

#[test]
fn later_table_write_wins_and_keys_are_sorted() {
    let details = vec![
        table_write(5, 0, "0xabc", "h1", "{n:1}", false),
        table_write(5, 1, "0xabc", "h2", "{n:9}", false),
        table_write(6, 0, "0xabc", "h1", "{n:2}", false),
    ]
    .into_iter()
    .map(|c| c.detail)
    .collect();
    let collapsed = collapse(details);
    assert_eq!(
        current_keys(&collapsed.current_table_items),
        vec![(b("0xabc"), b("h1"), b("{n:2}")), (b("0xabc"), b("h2"), b("{n:9}"))]
    );
    assert_eq!(collapsed.table_items.len(), 3);
}

#[test]
fn collapse_order_does_not_depend_on_input_order() {
    let make = |order: &[(&str, &str)]| {
        let details: Vec<WriteSetChangeDetail> = order
            .iter()
            .enumerate()
            .map(|(i, (h, k))| table_write(1, i as u64, h, k, "v", true).detail)
            .collect();
        collapse(details)
    };
    let a = make(&[("0xb", "k2"), ("0xa", "k9"), ("0xb", "k1"), ("0xa", "k10")]);
    let c = make(&[("0xa", "k10"), ("0xb", "k1"), ("0xa", "k9"), ("0xb", "k2")]);
    let expected = vec![
        (b("0xa"), b("k10"), b("v")),
        (b("0xa"), b("k9"), b("v")),
        (b("0xb"), b("k1"), b("v")),
        (b("0xb"), b("k2"), b("v")),
    ];
    assert_eq!(current_keys(&a.current_table_items), expected);
    assert_eq!(current_keys(&c.current_table_items), expected);
    let handles: Vec<Vec<u8>> = a.table_metadata.iter().map(|m| m.handle.clone()).collect();
    assert_eq!(handles, vec![b("0xa"), b("0xb")]);
}

#[test]
fn table_metadata_keeps_one_row_per_handle() {
    let details = vec![
        table_write(1, 0, "0xt", "a", "first", true),
        table_write(1, 1, "0xt", "b", "second", true),
        table_write(1, 2, "0xs", "a", "x", false),
    ]
    .into_iter()
    .map(|c| c.detail)
    .collect();
    let collapsed = collapse(details);
    assert_eq!(collapsed.table_metadata.len(), 1);
    assert_eq!(collapsed.table_metadata[0].value_type, b("second"));
    assert_eq!(collapsed.current_table_items.len(), 3);
}

#[test]
fn modules_and_resources_keep_order() {
    let details = vec![
        WriteSetChangeDetail::Resource(MoveResource {
            version: 1,
            index: 0,
            address: b("0x2"),
            resource_type: b("0x1::coin::CoinStore"),
            data: b("{}"),
        }),
        WriteSetChangeDetail::Module(MoveModule { version: 1, index: 1, address: b("0x1"), name: b("coin") }),
        WriteSetChangeDetail::Module(MoveModule { version: 1, index: 2, address: b("0x1"), name: b("account") }),
    ];
    let collapsed = collapse(details);
    let names: Vec<Vec<u8>> = collapsed.move_modules.iter().map(|m| m.name.clone()).collect();
    assert_eq!(names, vec![b("coin"), b("account")]);
    assert_eq!(collapsed.move_resources.len(), 1);
    assert!(collapsed.current_table_items.is_empty());
}

#[test]
fn sanitized_retry_succeeds() {
    let mut raw = user_txn(10, 1);
    raw.changes.push(WriteSetChange {
        record: WriteSetChangeRecord { version: 10, index: 0, change_type: b("write_resource"), address: b("0x2") },
        detail: WriteSetChangeDetail::Resource(MoveResource {
            version: 10,
            index: 0,
            address: b("0x2"),
            resource_type: b("0x1::M::R"),
            data: vec![b'{', 0, b'}', 0],
        }),
    });
    let mut run = run_for(vec![raw, block_txn(11)], 10, 11);
    assert_eq!(run.next_action(), PipelineAction::Forward);
    assert_eq!(run.transactions_to_forward().len(), 2);
    run.mark_forwarded();
    assert_eq!(run.next_action(), PipelineAction::Write);
    run.record_write(failure("invalid byte sequence for encoding \"UTF8\": 0x00"));
    assert!(matches!(run.write.phase, WritePhase::Pending(Attempt::Sanitized)));
    assert_eq!(run.batches_to_write().move_resources[0].data, b("{}"));
    run.record_write(Ok(()));
    assert_eq!(run.next_action(), PipelineAction::Finished);
    match run.finish() {
        Ok(result) => {
            assert_eq!(result.start_version, 10);
            assert_eq!(result.end_version, 11);
            assert_eq!(result.processor_name, "custom_processor");
        }
        Err(_) => panic!("the retry committed"),
    }
}

#[test]
fn failed_retry_reports_range_and_processor() {
    let mut run = run_for(vec![user_txn(20, 1)], 20, 20);
    run.mark_forwarded();
    run.record_write(failure("duplicate key value violates unique constraint"));
    run.record_write(failure("duplicate key value violates unique constraint"));
    assert_eq!(run.write.attempts, 2);
    assert_eq!(run.next_action(), PipelineAction::Finished);
    match run.finish() {
        Err(ProcessingError::TransactionCommitError { cause, start_version, end_version, processor_name }) => {
            assert_eq!(start_version, 20);
            assert_eq!(end_version, 20);
            assert_eq!(processor_name, NAME);
            assert_eq!(cause.message, "duplicate key value violates unique constraint");
        }
        _ => panic!("both attempts failed"),
    }
}

#[test]
fn forwarding_precedes_the_write_even_when_it_fails() {
    let mut run = run_for(vec![user_txn(1, 1), block_txn(2), user_txn(3, 0)], 1, 3);
    assert_eq!(run.next_action(), PipelineAction::Forward);
    let forwarded: Vec<u64> = run.transactions_to_forward().iter().map(|t| t.version).collect();
    assert_eq!(forwarded, vec![1, 2, 3]);
    run.mark_forwarded();
    run.record_write(failure("connection lost"));
    run.record_write(failure("connection lost"));
    assert!(run.forwarded);
    assert!(run.finish().is_err());
}

#[test]
fn empty_range_commits_nothing_and_succeeds() {
    let batches = match build_batches(vec![]) {
        Ok(b) => b,
        Err(_) => panic!("empty input is well formed"),
    };
    assert!(batches.transactions.is_empty());
    assert!(batches.user_transactions.is_empty());
    assert!(batches.signatures.is_empty());
    assert!(batches.events.is_empty());
    assert!(batches.current_table_items.is_empty());
    assert!(batches.table_metadata.is_empty());
    let mut run = run_for(vec![], 100, 99);
    assert!(run.transactions_to_forward().is_empty());
    run.mark_forwarded();
    run.record_write(Ok(()));
    match run.finish() {
        Ok(result) => {
            assert_eq!(result.start_version, 100);
            assert_eq!(result.end_version, 99);
        }
        Err(_) => panic!("nothing to fail"),
    }
}

#[test]
fn first_attempt_commit_writes_batches_unchanged() {
    let mut raw = user_txn(7, 1);
    raw.record.vm_status = vec![b'o', 0, b'k'];
    let batches = match build_batches(vec![raw]) {
        Ok(b) => b,
        Err(_) => panic!("well formed"),
    };
    let mut write = AtomicWrite::new(batches);
    assert!(write.is_pending());
    write.record_outcome(Ok(()));
    assert!(!write.is_pending());
    assert!(matches!(write.phase, WritePhase::Committed));
    assert_eq!(write.attempts, 1);
    assert_eq!(write.batches.transactions[0].vm_status, vec![b'o', 0, b'k']);
}

#[test]
fn mismatched_version_is_a_decode_error() {
    let mut bad = user_txn(5, 1);
    bad.events[0].version = 4;
    assert!(!check_transaction(&bad));
    assert!(check_transaction(&user_txn(5, 1)));
    match decompose(vec![user_txn(4, 0), bad, block_txn(6)]) {
        Err(e) => assert_eq!(e, DecodeError { version: 5 }),
        Ok(_) => panic!("transaction 5 is malformed"),
    }
    let mut bad_sig = user_txn(8, 2);
    if let TransactionDetail::User(_, sigs) = &mut bad_sig.detail {
        sigs[1].version = 9;
    }
    let processor = CustomTransactionProcessor::new((), ());
    match processor.process_transactions(vec![bad_sig], 8, 8) {
        Err(ProcessingError::DecodeError { version, start_version, end_version, processor_name }) => {
            assert_eq!((version, start_version, end_version), (8, 8, 8));
            assert_eq!(processor_name, NAME);
        }
        _ => panic!("signature of another version"),
    }
}

#[test]
fn sanitize_strips_nul_bytes_from_every_batch() {
    let mut raw = user_txn(3, 1);
    raw.record.hash = vec![0, b'a', 0, 0, b'b'];
    raw.changes.push(table_write(3, 0, "0xt", "k", "v", true));
    if let WriteSetChangeDetail::Table(_, current, _) = &mut raw.changes[0].detail {
        current.value = vec![b'x', 0];
    }
    let batches: EntityBatches = match build_batches(vec![raw]) {
        Ok(b) => b,
        Err(_) => panic!("well formed"),
    };
    let clean = batches.sanitized();
    assert_eq!(clean.transactions[0].hash, b("ab"));
    assert_eq!(clean.current_table_items[0].value, b("x"));
    assert_eq!(clean.signatures.len(), 1);
    assert_eq!(strip_nul_bytes(&vec![0, 0]), Vec::<u8>::new());
    assert_eq!(strip_nul_bytes(&b("plain")), b("plain"));
}

#[test]
fn byte_and_key_order() {
    assert_eq!(compare_bytes(&b("abc"), &b("abd")), Ordering::Less);
    assert_eq!(compare_bytes(&b("ab"), &b("abc")), Ordering::Less);
    assert_eq!(compare_bytes(&b("b"), &b("abc")), Ordering::Greater);
    assert_eq!(compare_bytes(&b(""), &b("")), Ordering::Equal);
    assert_eq!(compare_keys(&b("0xa"), &b("z"), &b("0xb"), &b("a")), Ordering::Less);
    assert_eq!(compare_keys(&b("0xa"), &b("k2"), &b("0xa"), &b("k10")), Ordering::Greater);
    assert_eq!(compare_keys(&b("0xa"), &b("k"), &b("0xa"), &b("k")), Ordering::Equal);
}

#[test]
fn processor_reports_its_name_and_parts() {
    let processor = CustomTransactionProcessor::new(7u32, "sink");
    assert_eq!(processor.name(), "custom_processor");
    assert_eq!(*processor.connection_pool(), 7u32);
    assert_eq!(*processor.publisher(), "sink");
}

#[test]
fn chunks_respect_the_parameter_limit() {
    assert_eq!(get_chunks(0, 5), Vec::<(usize, usize)>::new());
    assert_eq!(get_chunks(3, 6), vec![(0, 3)]);
    assert_eq!(
        get_chunks(100_000, 2),
        vec![(0, 32_767), (32_767, 65_534), (65_534, 98_301), (98_301, 100_000)]
    );
    assert_eq!(get_chunks(4, MAX_PARAMETERS), vec![(0, 1), (1, 2), (2, 3), (3, 4)]);
    assert_eq!(get_chunks(10_922, 6), vec![(0, 10_922)]);
    assert_eq!(get_chunks(10_923, 6), vec![(0, 10_922), (10_922, 10_923)]);
}
