use sprint_backend::block_data::{copy_range, parse_transaction_ids, read_le_u32, split_batch};

fn transaction(id: u8, announced: u32, outputs: usize) -> Vec<u8> {
    let mut bytes = vec![id; 32];
    bytes.extend_from_slice(&announced.to_le_bytes());
    bytes.extend(std::iter::repeat(0xEE).take(8 * outputs));
    bytes
}

#[test]
fn numbers_are_read_least_significant_first() {
    assert_eq!(read_le_u32(&[1, 2, 3, 4], 0), 0x0403_0201);
    assert_eq!(read_le_u32(&[9, 0xff, 0xff, 0xff, 0xff], 1), u32::MAX);
    assert_eq!(copy_range(&[1, 2, 3, 4, 5], 1, 4), vec![2, 3, 4]);
    assert_eq!(copy_range(&[1, 2, 3], 2, 2), Vec::<u8>::new());
}

#[test]
fn transactions_are_found_in_order() {
    let mut block = transaction(1, 2, 2);
    block.extend(transaction(2, 0, 0));
    block.extend(transaction(3, 1, 1));
    let ids = parse_transaction_ids(&block);
    assert_eq!(ids, vec![vec![1u8; 32], vec![2u8; 32], vec![3u8; 32]]);
}

#[test]
fn a_block_that_ends_early_is_read_as_far_as_it_goes() {
    assert!(parse_transaction_ids(&[]).is_empty());
    assert!(parse_transaction_ids(&[7u8; 35]).is_empty());
    assert_eq!(parse_transaction_ids(&transaction(7, 0, 0)), vec![vec![7u8; 32]]);
    // Five outputs are announced, one and a half are there: the half output
    // is taken for the start of the next transaction, which is incomplete.
    let mut block = transaction(4, 5, 1);
    block.extend_from_slice(&[0xAA; 4]);
    assert_eq!(parse_transaction_ids(&block), vec![vec![4u8; 32]]);
    // Announced outputs that are missing do not hide a transaction that
    // follows in their place.
    let mut block = transaction(5, 1000, 0);
    block.extend(transaction(6, 0, 0));
    let ids = parse_transaction_ids(&block);
    assert_eq!(ids.len(), 1);
    let mut block = transaction(5, 0, 0);
    block.extend(transaction(6, 0, 0));
    assert_eq!(parse_transaction_ids(&block), vec![vec![5u8; 32], vec![6u8; 32]]);
}

#[test]
fn batches_are_split_into_outpoints() {
    let mut txids = vec![1u8; 32];
    txids.extend_from_slice(&[2u8; 32]);
    let batch = split_batch(&txids, &[7, 9], 2).unwrap();
    assert_eq!(batch.len(), 2);
    assert_eq!(batch[0].txid, vec![1u8; 32]);
    assert_eq!(batch[0].vout, 7);
    assert_eq!(batch[1].txid, vec![2u8; 32]);
    assert_eq!(batch[1].vout, 9);
    assert!(split_batch(&txids, &[7, 9], 3).is_none());
    assert!(split_batch(&txids, &[7], 2).is_none());
    assert!(split_batch(&txids[..63], &[7, 9], 2).is_none());
    assert_eq!(split_batch(&txids, &[7, 9], 1).unwrap().len(), 1);
    assert!(split_batch(&[], &[], 0).unwrap().is_empty());
}
