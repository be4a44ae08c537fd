//! Entity construction: the normalized Block, Transaction and Blob values
//! submitted to the indexing backend, built from the execution block and the
//! two reconciled mappings.

use vstd::prelude::*;

use crate::data::{copy_bytes, ExecutionBlockData, ExecutionBlockModel, SidecarModel};
use crate::events::{PermanentFault, PermanentFaultModel};
use crate::reconcile::{
    blob_mapping_contains, lookup_payload, mapping_contains_key, BlobMapping, TxBlobHashesModel,
    TxHashMapping,
};

verus! {

/// The normalized block entity.
#[derive(Debug, Clone, PartialEq, Eq)]
pub struct BlockEntity {
    pub number: u64,
    pub hash: Vec<u8>,
    pub slot: u32,
    pub timestamp: u64,
}

pub ghost struct BlockEntityModel {
    pub number: u64,
    pub hash: Seq<u8>,
    pub slot: u32,
    pub timestamp: u64,
}

impl View for BlockEntity {
    type V = BlockEntityModel;

    open spec fn view(&self) -> BlockEntityModel {
        BlockEntityModel {
            number: self.number,
            hash: self.hash@,
            slot: self.slot,
            timestamp: self.timestamp,
        }
    }
}

/// The normalized transaction entity: one per blob-carrying transaction.
#[derive(Debug, Clone, PartialEq, Eq)]
pub struct TransactionEntity {
    pub hash: Vec<u8>,
    pub block_number: u64,
}

pub ghost struct TransactionEntityModel {
    pub hash: Seq<u8>,
    pub block_number: u64,
}

impl View for TransactionEntity {
    type V = TransactionEntityModel;

    open spec fn view(&self) -> TransactionEntityModel {
        TransactionEntityModel { hash: self.hash@, block_number: self.block_number }
    }
}

impl DeepView for TransactionEntity {
    type V = TransactionEntityModel;

    open spec fn deep_view(&self) -> TransactionEntityModel {
        self.view()
    }
}

/// The normalized blob entity. `index` is the position of the versioned hash
/// within its owning transaction's blob list.
#[derive(Debug, Clone, PartialEq, Eq)]
pub struct BlobEntity {
    pub versioned_hash: Vec<u8>,
    pub data: Vec<u8>,
    pub index: usize,
    pub tx_hash: Vec<u8>,
}

pub ghost struct BlobEntityModel {
    pub versioned_hash: Seq<u8>,
    pub data: Seq<u8>,
    pub index: usize,
    pub tx_hash: Seq<u8>,
}

impl View for BlobEntity {
    type V = BlobEntityModel;

    open spec fn view(&self) -> BlobEntityModel {
        BlobEntityModel {
            versioned_hash: self.versioned_hash@,
            data: self.data@,
            index: self.index,
            tx_hash: self.tx_hash@,
        }
    }
}

impl DeepView for BlobEntity {
    type V = BlobEntityModel;

    open spec fn deep_view(&self) -> BlobEntityModel {
        self.view()
    }
}

/// The block entity a well-formed execution block yields.
pub open spec fn spec_block_entity(eb: ExecutionBlockModel, slot: u32) -> BlockEntityModel {
    BlockEntityModel {
        number: eb.number->0,
        hash: eb.hash->0,
        slot: slot,
        timestamp: eb.timestamp,
    }
}

/// Builds the block entity. Succeeds exactly when the execution block
/// carries its number and hash.
pub fn build_block(eb: &ExecutionBlockData, slot: u32) -> (r: Result<BlockEntity, PermanentFault>)
    ensures
        r is Ok <==> (eb@.number is Some && eb@.hash is Some),
        r matches Ok(b) ==> b@ == spec_block_entity(eb@, slot),
        r matches Err(f) ==> f@ == PermanentFaultModel::MissingBlockFields,
{
    match (&eb.number, &eb.hash) {
        (Some(number), Some(hash)) => Ok(
            BlockEntity {
                number: *number,
                hash: copy_bytes(hash),
                slot,
                timestamp: eb.timestamp,
            },
        ),
        _ => Err(PermanentFault::MissingBlockFields),
    }
}

/// The transaction entities: the execution block's transactions that appear
/// in the mapping, in block order.
pub open spec fn spec_transactions(
    txs: Seq<crate::data::TransactionModel>,
    m: Seq<TxBlobHashesModel>,
    number: u64,
) -> Seq<TransactionEntityModel>
    decreases txs.len(),
{
    if txs.len() == 0 {
        Seq::empty()
    } else {
        let prefix = spec_transactions(txs.drop_last(), m, number);
        if mapping_contains_key(m, txs.last().hash) {
            prefix.push(TransactionEntityModel { hash: txs.last().hash, block_number: number })
        } else {
            prefix
        }
    }
}

/// Builds the transaction entities: exactly the transactions whose hash
/// is a key of the mapping, preserving execution-block order. Succeeds
/// exactly when the block carries its number.
pub fn build_transactions(eb: &ExecutionBlockData, m: &TxHashMapping) -> (r: Result<
    Vec<TransactionEntity>,
    PermanentFault,
>)
    ensures
        r is Ok <==> eb@.number is Some,
        r matches Ok(v) ==> v.deep_view() == spec_transactions(
            eb@.transactions,
            m@,
            eb@.number->0,
        ),
        r matches Err(f) ==> f@ == PermanentFaultModel::MissingBlockFields,
{
    let number: u64 = match eb.number {
        Some(n) => n,
        None => {
            return Err(PermanentFault::MissingBlockFields);
        },
    };
    let ghost txs = eb@.transactions;
    let mut out: Vec<TransactionEntity> = Vec::new();
    let mut i: usize = 0;
    while i < eb.transactions.len()
        invariant
            i <= eb.transactions.len(),
            txs == eb@.transactions,
            txs.len() == eb.transactions.len(),
            out.deep_view() == spec_transactions(txs.subrange(0, i as int), m@, number),
        decreases eb.transactions.len() - i,
    {
        let tx = &eb.transactions[i];
        assert(tx@ == txs[i as int]);
        proof {
            assert(txs.subrange(0, i + 1 as int).drop_last() =~= txs.subrange(0, i as int));
            assert(txs.subrange(0, i + 1 as int).last() == txs[i as int]);
        }
        if m.contains_key(&tx.hash) {
            let ghost prev = out;
            out.push(TransactionEntity { hash: copy_bytes(&tx.hash), block_number: number });
            proof {
                let target = spec_transactions(txs.subrange(0, i + 1 as int), m@, number);
                assert(out.deep_view().len() == target.len());
                assert forall|k: int| 0 <= k < out.deep_view().len() implies out.deep_view()[k]
                    == target[k] by {
                    assert(out.deep_view()[k] == out@[k].deep_view());
                    if k < prev.len() {
                        assert(out@[k] == prev@[k]);
                        assert(prev.deep_view()[k] == prev@[k].deep_view());
                    }
                }
                assert(out.deep_view() =~= target);
            }
        }
        i += 1;
    }
    assert(txs.subrange(0, txs.len() as int) =~= txs);
    Ok(out)
}

/// Every hash of the list has a sidecar.
pub open spec fn list_covered(hs: Seq<Seq<u8>>, s: Seq<SidecarModel>) -> bool {
    forall|j: int| 0 <= j < hs.len() ==> blob_mapping_contains(s, #[trigger] hs[j])
}

/// Every versioned hash of this entry has a sidecar.
pub open spec fn entry_covered(e: TxBlobHashesModel, s: Seq<SidecarModel>) -> bool {
    list_covered(e.versioned_hashes, s)
}

/// Every versioned hash referenced by the mapping has a sidecar.
pub open spec fn all_covered(m: Seq<TxBlobHashesModel>, s: Seq<SidecarModel>) -> bool {
    forall|i: int| 0 <= i < m.len() ==> entry_covered(#[trigger] m[i], s)
}

/// Position of the first versioned hash in the list with no sidecar.
pub open spec fn first_uncovered_in_list(hs: Seq<Seq<u8>>, s: Seq<SidecarModel>) -> int
    decreases hs.len(),
{
    if hs.len() == 0 {
        0
    } else if !blob_mapping_contains(s, hs[0]) {
        0
    } else {
        1 + first_uncovered_in_list(hs.drop_first(), s)
    }
}

/// The fault reported for the first missing sidecar, walking entries in
/// mapping order and each entry's hashes in list order.
pub open spec fn spec_missing_fault(
    m: Seq<TxBlobHashesModel>,
    s: Seq<SidecarModel>,
) -> PermanentFaultModel
    decreases m.len(),
{
    if m.len() == 0 {
        arbitrary()
    } else if !entry_covered(m[0], s) {
        let j = first_uncovered_in_list(m[0].versioned_hashes, s);
        PermanentFaultModel::SidecarNotFound {
            versioned_hash: m[0].versioned_hashes[j],
            tx_hash: m[0].tx_hash,
            index: j as usize,
        }
    } else {
        spec_missing_fault(m.drop_first(), s)
    }
}

proof fn lemma_first_uncovered_at(hs: Seq<Seq<u8>>, s: Seq<SidecarModel>, j: int)
    requires
        0 <= j < hs.len(),
        forall|k: int| 0 <= k < j ==> blob_mapping_contains(s, #[trigger] hs[k]),
        !blob_mapping_contains(s, hs[j]),
    ensures
        first_uncovered_in_list(hs, s) == j,
    decreases j,
{
    if j > 0 {
        lemma_first_uncovered_at(hs.drop_first(), s, j - 1);
    }
}

proof fn lemma_missing_fault_at(m: Seq<TxBlobHashesModel>, s: Seq<SidecarModel>, i: int, j: int)
    requires
        0 <= i < m.len(),
        forall|k: int| 0 <= k < i ==> entry_covered(#[trigger] m[k], s),
        0 <= j < m[i].versioned_hashes.len(),
        forall|k: int|
            0 <= k < j ==> blob_mapping_contains(s, #[trigger] m[i].versioned_hashes[k]),
        !blob_mapping_contains(s, m[i].versioned_hashes[j]),
    ensures
        spec_missing_fault(m, s) == (PermanentFaultModel::SidecarNotFound {
            versioned_hash: m[i].versioned_hashes[j],
            tx_hash: m[i].tx_hash,
            index: j as usize,
        }),
    decreases i,
{
    if i == 0 {
        assert(!entry_covered(m[0], s));
        lemma_first_uncovered_at(m[0].versioned_hashes, s, j);
    } else {
        assert(entry_covered(m[0], s));
        lemma_missing_fault_at(m.drop_first(), s, i - 1, j);
    }
}

/// When exactly one referenced versioned hash lacks a sidecar, the reported
/// fault names exactly that hash, its transaction and its position.
pub proof fn lemma_missing_fault_unique(
    m: Seq<TxBlobHashesModel>,
    s: Seq<SidecarModel>,
    i: int,
    j: int,
)
    requires
        0 <= i < m.len(),
        0 <= j < m[i].versioned_hashes.len(),
        !blob_mapping_contains(s, m[i].versioned_hashes[j]),
        forall|a: int, b: int|
            0 <= a < m.len() && 0 <= b < m[a].versioned_hashes.len() && !(a == i && b == j)
                ==> blob_mapping_contains(s, #[trigger] m[a].versioned_hashes[b]),
    ensures
        spec_missing_fault(m, s) == (PermanentFaultModel::SidecarNotFound {
            versioned_hash: m[i].versioned_hashes[j],
            tx_hash: m[i].tx_hash,
            index: j as usize,
        }),
{
    assert forall|k: int| 0 <= k < i implies entry_covered(#[trigger] m[k], s) by {
        assert forall|b: int|
            0 <= b < m[k].versioned_hashes.len() implies blob_mapping_contains(
            s,
            #[trigger] m[k].versioned_hashes[b],
        ) by {}
    }
    assert forall|b: int|
        0 <= b < j implies blob_mapping_contains(s, #[trigger] m[i].versioned_hashes[b]) by {}
    lemma_missing_fault_at(m, s, i, j);
}

/// The blob entities of one mapping entry, in blob-list order.
pub open spec fn spec_blobs_of_entry(
    e: TxBlobHashesModel,
    s: Seq<SidecarModel>,
) -> Seq<BlobEntityModel> {
    Seq::new(
        e.versioned_hashes.len(),
        |j: int|
            BlobEntityModel {
                versioned_hash: e.versioned_hashes[j],
                data: lookup_payload(s, e.versioned_hashes[j]),
                index: j as usize,
                tx_hash: e.tx_hash,
            },
    )
}

/// All blob entities, mapping entries in order, each entry's blobs in order.
pub open spec fn spec_blobs(
    m: Seq<TxBlobHashesModel>,
    s: Seq<SidecarModel>,
) -> Seq<BlobEntityModel>
    decreases m.len(),
{
    if m.len() == 0 {
        Seq::empty()
    } else {
        spec_blobs(m.drop_last(), s) + spec_blobs_of_entry(m.last(), s)
    }
}

/// Builds the blob entities: for each transaction hash, for each
/// versioned hash at position `i` of its list, the sidecar payload joined
/// with `(versioned_hash, index = i, tx_hash)`. Succeeds exactly when every
/// referenced versioned hash has a sidecar; otherwise reports the first
/// missing one with its transaction hash and position.
pub fn build_blobs(m: &TxHashMapping, bm: &BlobMapping) -> (r: Result<
    Vec<BlobEntity>,
    PermanentFault,
>)
    requires
        bm.wf(),
    ensures
        r is Ok <==> all_covered(m@, bm@),
        r matches Ok(v) ==> v.deep_view() == spec_blobs(m@, bm@),
        r matches Err(f) ==> f@ == spec_missing_fault(m@, bm@),
{
    let mut out: Vec<BlobEntity> = Vec::new();
    let mut i: usize = 0;
    while i < m.entries.len()
        invariant
            bm.wf(),
            i <= m.entries.len(),
            m@.len() == m.entries.len(),
            forall|k: int| 0 <= k < i ==> entry_covered(#[trigger] m@[k], bm@),
            out.deep_view() == spec_blobs(m@.subrange(0, i as int), bm@),
        decreases m.entries.len() - i,
    {
        let entry = &m.entries[i];
        assert(entry@ == m@[i as int]);
        let mut j: usize = 0;
        while j < entry.versioned_hashes.len()
            invariant
                bm.wf(),
                0 <= i < m.entries.len(),
                m@.len() == m.entries.len(),
                entry == &m.entries[i as int],
                entry@ == m@[i as int],
                j <= entry.versioned_hashes.len(),
                entry@.versioned_hashes.len() == entry.versioned_hashes.len(),
                forall|k: int| 0 <= k < i ==> entry_covered(#[trigger] m@[k], bm@),
                forall|k: int|
                    0 <= k < j ==> blob_mapping_contains(
                        bm@,
                        #[trigger] m@[i as int].versioned_hashes[k],
                    ),
                out.deep_view() == spec_blobs(m@.subrange(0, i as int), bm@) + spec_blobs_of_entry(
                    m@[i as int],
                    bm@,
                ).subrange(0, j as int),
            decreases entry.versioned_hashes.len() - j,
        {
            let vh = &entry.versioned_hashes[j];
            assert(vh@ == m@[i as int].versioned_hashes[j as int]);
            match bm.find(vh) {
                None => {
                    proof {
                        lemma_missing_fault_at(m@, bm@, i as int, j as int);
                        if all_covered(m@, bm@) {
                            assert(entry_covered(m@[i as int], bm@));
                            assert(blob_mapping_contains(bm@, m@[i as int].versioned_hashes[j as int]));
                        }
                    }
                    return Err(
                        PermanentFault::SidecarNotFound {
                            versioned_hash: copy_bytes(vh),
                            tx_hash: copy_bytes(&entry.tx_hash),
                            index: j,
                        },
                    );
                },
                Some(at) => {
                    let ghost prev = out;
                    let blob = BlobEntity {
                        versioned_hash: copy_bytes(vh),
                        data: copy_bytes(&bm.entries[at].data),
                        index: j,
                        tx_hash: copy_bytes(&entry.tx_hash),
                    };
                    proof {
                        let vhm = m@[i as int].versioned_hashes[j as int];
                        let w = choose|x: int|
                            0 <= x < bm@.len() && bm@[x].versioned_hash == vhm;
                        assert(bm@[at as int].versioned_hash == vhm);
                        if w != at {
                            assert(bm@[w].versioned_hash == bm@[at as int].versioned_hash);
                            assert(false);
                        }
                        assert(lookup_payload(bm@, vhm) == bm@[at as int].data);
                        assert(bm.entries[at as int]@ == bm@[at as int]);
                    }
                    out.push(blob);
                    proof {
                        let target = spec_blobs(m@.subrange(0, i as int), bm@)
                            + spec_blobs_of_entry(m@[i as int], bm@).subrange(0, j + 1 as int);
                        assert(out@.len() == prev@.len() + 1);
                        assert(prev.deep_view().len() == prev@.len());
                        assert(spec_blobs_of_entry(m@[i as int], bm@).len() == m@[
                            i as int
                        ].versioned_hashes.len());
                        assert(j + 1 <= m@[i as int].versioned_hashes.len());
                        assert(out.deep_view().len() == target.len());
                        assert forall|k: int| 0 <= k < out.deep_view().len() implies out.deep_view()[k] == target[k] by {
                            assert(out.deep_view()[k] == out@[k].deep_view());
                            if k < prev.len() {
                                assert(out@[k] == prev@[k]);
                                assert(prev.deep_view()[k] == prev@[k].deep_view());
                            } else {
                                assert(out@[k] == blob);
                                assert(target[k] == spec_blobs_of_entry(m@[i as int], bm@)[j as int]);
                            }
                        }
                        assert(out.deep_view() =~= target);
                    }
                },
            }
            j += 1;
        }
        proof {
            assert(entry_covered(m@[i as int], bm@));
            assert(m@.subrange(0, i + 1 as int).drop_last() =~= m@.subrange(0, i as int));
            assert(m@.subrange(0, i + 1 as int).last() == m@[i as int]);
            assert(spec_blobs_of_entry(m@[i as int], bm@).subrange(
                0,
                m@[i as int].versioned_hashes.len() as int,
            ) =~= spec_blobs_of_entry(m@[i as int], bm@));
            assert(out.deep_view() =~= spec_blobs(m@.subrange(0, i + 1 as int), bm@));
        }
        i += 1;
    }
    assert(m@.subrange(0, m@.len() as int) =~= m@);
    Ok(out)
}

} // verus!
