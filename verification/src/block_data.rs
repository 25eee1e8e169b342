//! The raw form in which blocks and batches of outputs reach the membership
//! filter.
//!
//! A block is a run of transactions. Each transaction is thirty-two bytes of
//! transaction id, a count of outputs as four bytes, least significant first,
//! and eight bytes for every output. A block that ends early is read as far
//! as it goes.

use vstd::prelude::*;

verus! {

/// The length of a transaction id, in bytes.
pub const TXID_LENGTH: usize = 32;

/// The length of the head of a transaction: its id and its count of outputs.
pub const TRANSACTION_HEAD_LENGTH: usize = 36;

/// The length of an output, in bytes.
pub const OUTPUT_LENGTH: usize = 8;

/// The number that four bytes stand for, least significant first.
pub open spec fn le_u32_model(bytes: Seq<u8>) -> nat
    recommends
        bytes.len() == 4,
{
    bytes[0] as nat + 0x100 * bytes[1] as nat + 0x1_0000 * bytes[2] as nat + 0x100_0000
        * bytes[3] as nat
}

/// The number of outputs of a transaction that are present in a block: the
/// count that the transaction announces, but no more than whole outputs fit
/// into the `available` bytes that follow its head.
pub open spec fn outputs_present(announced: nat, available: nat) -> nat {
    if announced <= available / OUTPUT_LENGTH as nat {
        announced
    } else {
        available / OUTPUT_LENGTH as nat
    }
}

/// Where the transaction after the one at `offset` begins.
pub open spec fn next_transaction(block: Seq<u8>, offset: nat) -> nat
    recommends
        offset + TRANSACTION_HEAD_LENGTH <= block.len(),
{
    let body = offset + TRANSACTION_HEAD_LENGTH as nat;
    body + OUTPUT_LENGTH as nat * outputs_present(
        le_u32_model(block.subrange(offset + TXID_LENGTH as int, body as int)),
        (block.len() - body) as nat,
    )
}

/// The ids of the transactions of `block` from `offset` on.
pub open spec fn transaction_ids(block: Seq<u8>, offset: nat) -> Seq<Seq<u8>>
    decreases block.len() - offset,
{
    if offset + TRANSACTION_HEAD_LENGTH > block.len() {
        Seq::empty()
    } else {
        seq![block.subrange(offset as int, offset + TXID_LENGTH as int)] + transaction_ids(
            block,
            next_transaction(block, offset),
        )
    }
}

/// The number that four bytes of `bytes` from `at` on stand for, least
/// significant first.
pub fn read_le_u32(bytes: &[u8], at: usize) -> (value: u32)
    requires
        at + 4 <= bytes@.len(),
    ensures
        value == le_u32_model(bytes@.subrange(at as int, at + 4)),
{
    let b0 = bytes[at] as u32;
    let b1 = bytes[at + 1] as u32;
    let b2 = bytes[at + 2] as u32;
    let b3 = bytes[at + 3] as u32;
    b0 + 0x100 * b1 + 0x1_0000 * b2 + 0x100_0000 * b3
}

/// A copy of the bytes of `bytes` from `from` up to `to`.
pub fn copy_range(bytes: &[u8], from: usize, to: usize) -> (copy: Vec<u8>)
    requires
        from <= to <= bytes@.len(),
    ensures
        copy@ == bytes@.subrange(from as int, to as int),
{
    let mut copy: Vec<u8> = Vec::new();
    let mut i: usize = from;
    while i < to
        invariant
            from <= i <= to <= bytes@.len(),
            copy@ == bytes@.subrange(from as int, i as int),
        decreases to - i,
    {
        copy.push(bytes[i]);
        proof {
            assert(copy@ =~= bytes@.subrange(from as int, i + 1));
        }
        i += 1;
    }
    copy
}

/// The ids of the transactions of a block, in order.
pub fn parse_transaction_ids(block: &[u8]) -> (ids: Vec<Vec<u8>>)
    ensures
        Seq::new(ids@.len(), |i: int| ids@[i]@) == transaction_ids(block@, 0),
{
    let block_size = block.len();
    let mut ids: Vec<Vec<u8>> = Vec::new();
    let mut offset: usize = 0;
    while offset <= block_size && block_size - offset >= TRANSACTION_HEAD_LENGTH
        invariant
            offset <= block_size,
            block_size == block@.len(),
            transaction_ids(block@, 0) == Seq::new(ids@.len(), |i: int| ids@[i]@)
                + transaction_ids(block@, offset as nat),
        decreases block_size - offset,
    {
        let ghost found = Seq::new(ids@.len(), |i: int| ids@[i]@);
        let txid = copy_range(block, offset, offset + TXID_LENGTH);
        let announced = read_le_u32(block, offset + TXID_LENGTH);
        let body = offset + TRANSACTION_HEAD_LENGTH;
        let available = block_size - body;
        let fitting = available / OUTPUT_LENGTH;
        let present = if (announced as usize) <= fitting {
            announced as usize
        } else {
            fitting
        };
        ids.push(txid);
        proof {
            assert(body + OUTPUT_LENGTH * present == next_transaction(block@, offset as nat));
            assert(Seq::new(ids@.len(), |i: int| ids@[i]@) =~= found.push(txid@));
            assert(found.push(txid@) + transaction_ids(
                block@,
                next_transaction(block@, offset as nat),
            ) =~= found + transaction_ids(block@, offset as nat));
        }
        offset = body + OUTPUT_LENGTH * present;
    }
    proof {
        assert(Seq::new(ids@.len(), |i: int| ids@[i]@) + Seq::<Seq<u8>>::empty() =~= Seq::new(
            ids@.len(),
            |i: int| ids@[i]@,
        ));
    }
    ids
}

/// One output named by its transaction and its index.
pub struct Outpoint {
    pub txid: Vec<u8>,
    pub vout: u32,
}

/// What an outpoint says.
pub struct OutpointRecord {
    pub txid: Seq<u8>,
    pub vout: u32,
}

impl View for Outpoint {
    type V = OutpointRecord;

    open spec fn view(&self) -> OutpointRecord {
        OutpointRecord { txid: self.txid@, vout: self.vout }
    }
}

/// The batch that `count` transaction ids of thirty-two bytes each, laid end
/// to end, make with their output indices.
pub open spec fn batch_model(txids: Seq<u8>, vouts: Seq<u32>, count: nat) -> Seq<OutpointRecord> {
    Seq::new(
        count,
        |i: int| OutpointRecord { txid: txids.subrange(32 * i, 32 * i + 32), vout: vouts[i] },
    )
}

/// Splits a batch of `count` outputs into its outpoints. `None` where the ids
/// or the indices do not suffice for `count` outputs.
pub fn split_batch(txids: &[u8], vouts: &[u32], count: usize) -> (batch: Option<Vec<Outpoint>>)
    ensures
        batch.is_some() <==> 32 * count <= txids@.len() && count <= vouts@.len(),
        batch matches Some(outpoints) ==> Seq::new(outpoints@.len(), |i: int| outpoints@[i]@)
            == batch_model(txids@, vouts@, count as nat),
{
    let available = txids.len();
    if count > vouts.len() || count > available / TXID_LENGTH {
        return None;
    }
    let mut outpoints: Vec<Outpoint> = Vec::new();
    let mut i: usize = 0;
    let mut start: usize = 0;
    while i < count
        invariant
            i <= count,
            start == 32 * i,
            count <= vouts@.len(),
            32 * count <= txids@.len(),
            txids@.len() == available,
            Seq::new(outpoints@.len(), |k: int| outpoints@[k]@) == batch_model(
                txids@,
                vouts@,
                i as nat,
            ),
        decreases count - i,
    {
        let ghost before = Seq::new(outpoints@.len(), |k: int| outpoints@[k]@);
        let txid = copy_range(txids, start, start + TXID_LENGTH);
        outpoints.push(Outpoint { txid, vout: vouts[i] });
        proof {
            let after = Seq::new(outpoints@.len(), |k: int| outpoints@[k]@);
            let wanted = batch_model(txids@, vouts@, (i + 1) as nat);
            assert(before.len() == i);
            assert forall|k: int| 0 <= k < i + 1 implies after[k] == wanted[k] by {
                if k < i {
                    assert(after[k] == before[k]);
                    assert(before[k] == batch_model(txids@, vouts@, i as nat)[k]);
                }
            }
            assert(after =~= wanted);
        }
        i += 1;
        start += TXID_LENGTH;
    }
    Some(outpoints)
}

} // verus!
