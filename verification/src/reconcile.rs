//! Hash reconciliation: the mapping from transaction hash to its ordered
//! blob versioned hashes, derived from the execution block, and the mapping
//! from versioned hash to blob payload, derived from the beacon sidecars.

use vstd::prelude::*;

use crate::data::{
    wf_hash, bytes_eq, copy_bytes, copy_hash_list, BlobSidecarData, ExecutionBlockData,
    SidecarModel, TransactionModel, HASH_BYTES,
};
use crate::events::{PermanentFault, PermanentFaultModel};

verus! {

/// One entry of the transaction-hash mapping: a blob-carrying transaction and
/// its ordered list of blob versioned hashes.
#[derive(Debug, Clone, PartialEq, Eq)]
pub struct TxBlobHashes {
    pub tx_hash: Vec<u8>,
    pub versioned_hashes: Vec<Vec<u8>>,
}

pub ghost struct TxBlobHashesModel {
    pub tx_hash: Seq<u8>,
    pub versioned_hashes: Seq<Seq<u8>>,
}

impl View for TxBlobHashes {
    type V = TxBlobHashesModel;

    open spec fn view(&self) -> TxBlobHashesModel {
        TxBlobHashesModel {
            tx_hash: self.tx_hash@,
            versioned_hashes: self.versioned_hashes.deep_view(),
        }
    }
}

impl DeepView for TxBlobHashes {
    type V = TxBlobHashesModel;

    open spec fn deep_view(&self) -> TxBlobHashesModel {
        self.view()
    }
}

/// Mapping from transaction hash to ordered blob versioned hashes, in
/// execution-block order.
#[derive(Debug, Clone, PartialEq, Eq)]
pub struct TxHashMapping {
    pub entries: Vec<TxBlobHashes>,
}

impl View for TxHashMapping {
    type V = Seq<TxBlobHashesModel>;

    open spec fn view(&self) -> Seq<TxBlobHashesModel> {
        self.entries.deep_view()
    }
}

/// Whether the mapping holds an entry for key `k`.
pub open spec fn mapping_contains_key(m: Seq<TxBlobHashesModel>, k: Seq<u8>) -> bool {
    exists|i: int| 0 <= i < m.len() && m[i].tx_hash == k
}

/// Every hash in the list is well formed.
pub open spec fn hash_list_wf(hs: Seq<Seq<u8>>) -> bool {
    forall|j: int| 0 <= j < hs.len() ==> wf_hash(#[trigger] hs[j])
}

/// Every blob versioned hash listed by this transaction is well formed.
pub open spec fn tx_blob_hashes_wf(t: TransactionModel) -> bool {
    match t.blob_versioned_hashes {
        Some(hs) => hash_list_wf(hs),
        None => true,
    }
}

/// Every blob versioned hash listed by any transaction is well formed.
pub open spec fn all_blob_hashes_wf(txs: Seq<TransactionModel>) -> bool {
    forall|i: int| 0 <= i < txs.len() ==> tx_blob_hashes_wf(txs[i])
}

/// Hash of the first transaction, in block order, whose blob versioned-hash
/// data is malformed.
pub open spec fn first_malformed_tx(txs: Seq<TransactionModel>) -> Seq<u8>
    decreases txs.len(),
{
    if txs.len() == 0 {
        Seq::empty()
    } else if !tx_blob_hashes_wf(txs[0]) {
        txs[0].hash
    } else {
        first_malformed_tx(txs.drop_first())
    }
}

/// The transaction-hash mapping derived from `txs`: blob-carrying
/// transactions keep their ordered hash lists, others are excluded.
pub open spec fn spec_tx_mapping(txs: Seq<TransactionModel>) -> Seq<TxBlobHashesModel>
    decreases txs.len(),
{
    if txs.len() == 0 {
        Seq::empty()
    } else {
        let prefix = spec_tx_mapping(txs.drop_last());
        match txs.last().blob_versioned_hashes {
            Some(hs) => prefix.push(
                TxBlobHashesModel { tx_hash: txs.last().hash, versioned_hashes: hs },
            ),
            None => prefix,
        }
    }
}

proof fn lemma_first_malformed_at(txs: Seq<TransactionModel>, i: int)
    requires
        0 <= i < txs.len(),
        forall|k: int| 0 <= k < i ==> tx_blob_hashes_wf(#[trigger] txs[k]),
        !tx_blob_hashes_wf(txs[i]),
    ensures
        first_malformed_tx(txs) == txs[i].hash,
    decreases i,
{
    if i == 0 {
    } else {
        assert(tx_blob_hashes_wf(txs[0]));
        lemma_first_malformed_at(txs.drop_first(), i - 1);
    }
}

/// Position of the first hash in `hs` that is not well formed, if any.
fn find_malformed(hs: &Vec<Vec<u8>>) -> (r: Option<usize>)
    ensures
        r is None ==> hash_list_wf(hs.deep_view()),
        r matches Some(j) ==> 0 <= j < hs.deep_view().len() && !wf_hash(hs.deep_view()[j as int]),
{
    let mut j: usize = 0;
    while j < hs.len()
        invariant
            j <= hs.len(),
            forall|k: int| 0 <= k < j ==> wf_hash(hs.deep_view()[k]),
        decreases hs.len() - j,
    {
        if hs[j].len() != HASH_BYTES {
            assert(!wf_hash(hs.deep_view()[j as int]));
            return Some(j);
        }
        assert(wf_hash(hs.deep_view()[j as int]));
        j += 1;
    }
    None
}

/// Derives the transaction-hash mapping from the execution block.
/// Succeeds exactly when every listed blob versioned hash is well formed;
/// otherwise reports the first transaction with malformed blob-hash data.
pub fn build_tx_hash_mapping(eb: &ExecutionBlockData) -> (r: Result<
    TxHashMapping,
    PermanentFault,
>)
    ensures
        r is Ok <==> all_blob_hashes_wf(eb@.transactions),
        r matches Ok(m) ==> m@ == spec_tx_mapping(eb@.transactions),
        r matches Err(f) ==> f@ == (PermanentFaultModel::MalformedBlobHashes {
            tx_hash: first_malformed_tx(eb@.transactions),
        }),
{
    let ghost txs = eb@.transactions;
    let mut entries: Vec<TxBlobHashes> = Vec::new();
    let mut i: usize = 0;
    while i < eb.transactions.len()
        invariant
            i <= eb.transactions.len(),
            txs == eb@.transactions,
            txs.len() == eb.transactions.len(),
            forall|k: int| 0 <= k < i ==> tx_blob_hashes_wf(#[trigger] txs[k]),
            entries.deep_view() == spec_tx_mapping(txs.subrange(0, i as int)),
        decreases eb.transactions.len() - i,
    {
        let tx = &eb.transactions[i];
        assert(tx@ == txs[i as int]);
        match &tx.blob_versioned_hashes {
            None => {
                proof {
                    assert(txs.subrange(0, i + 1 as int).drop_last() =~= txs.subrange(
                        0,
                        i as int,
                    ));
                    assert(txs.subrange(0, i + 1 as int).last() == txs[i as int]);
                }
            },
            Some(hs) => {
                assert(txs[i as int].blob_versioned_hashes == Some(hs.deep_view()));
                if let Some(bad) = find_malformed(hs) {
                    proof {
                        let hsm = hs.deep_view();
                        assert(!wf_hash(hsm[bad as int]));
                        assert(!hash_list_wf(hsm));
                        assert(!tx_blob_hashes_wf(txs[i as int]));
                        lemma_first_malformed_at(txs, i as int);
                    }
                    return Err(
                        PermanentFault::MalformedBlobHashes { tx_hash: copy_bytes(&tx.hash) },
                    );
                }
                let entry = TxBlobHashes {
                    tx_hash: copy_bytes(&tx.hash),
                    versioned_hashes: copy_hash_list(hs),
                };
                proof {
                    assert(tx_blob_hashes_wf(txs[i as int]));
                    assert(txs.subrange(0, i + 1 as int).drop_last() =~= txs.subrange(
                        0,
                        i as int,
                    ));
                    assert(txs.subrange(0, i + 1 as int).last() == txs[i as int]);
                }
                entries.push(entry);
                assert(entries.deep_view() =~= spec_tx_mapping(txs.subrange(0, i + 1 as int)));
            },
        }
        assert(entries.deep_view() =~= spec_tx_mapping(txs.subrange(0, i + 1 as int)));
        i += 1;
    }
    assert(txs.subrange(0, txs.len() as int) =~= txs);
    Ok(TxHashMapping { entries })
}

impl TxHashMapping {
    /// Number of blob-carrying transactions in the mapping.
    pub fn len(&self) -> (n: usize)
        ensures
            n == self@.len(),
    {
        self.entries.len()
    }

    /// Whether the mapping holds an entry for `k`.
    pub fn contains_key(&self, k: &Vec<u8>) -> (r: bool)
        ensures
            r <==> mapping_contains_key(self@, k@),
    {
        let mut i: usize = 0;
        while i < self.entries.len()
            invariant
                i <= self.entries.len(),
                forall|j: int| 0 <= j < i ==> self@[j].tx_hash != k@,
            decreases self.entries.len() - i,
        {
            if bytes_eq(&self.entries[i].tx_hash, k) {
                assert(self@[i as int].tx_hash == k@);
                return true;
            }
            i += 1;
        }
        false
    }
}

/// Whether the sidecar collection binds each versioned hash at most once.
pub open spec fn sidecar_hashes_distinct(s: Seq<SidecarModel>) -> bool {
    forall|i: int, j: int|
        0 <= i < j < s.len() ==> s[i].versioned_hash != s[j].versioned_hash
}

/// Whether the sidecar collection holds an entry for `vh`.
pub open spec fn blob_mapping_contains(s: Seq<SidecarModel>, vh: Seq<u8>) -> bool {
    exists|i: int| 0 <= i < s.len() && s[i].versioned_hash == vh
}

/// Payload bound to `vh`; meaningful when `blob_mapping_contains` holds and
/// the hashes are distinct.
pub open spec fn lookup_payload(s: Seq<SidecarModel>, vh: Seq<u8>) -> Seq<u8> {
    let i = choose|i: int| 0 <= i < s.len() && s[i].versioned_hash == vh;
    s[i].data
}

/// The versioned hash at the first position that repeats an earlier one.
pub open spec fn first_duplicate(s: Seq<SidecarModel>) -> Seq<u8>
    decreases s.len(),
{
    if sidecar_hashes_distinct(s) {
        Seq::empty()
    } else if !sidecar_hashes_distinct(s.drop_last()) {
        first_duplicate(s.drop_last())
    } else {
        s.last().versioned_hash
    }
}

proof fn lemma_first_duplicate_at(s: Seq<SidecarModel>, j: int)
    requires
        0 <= j < s.len(),
        sidecar_hashes_distinct(s.subrange(0, j)),
        exists|i: int| 0 <= i < j && s[i].versioned_hash == s[j].versioned_hash,
    ensures
        first_duplicate(s) == s[j].versioned_hash,
    decreases s.len(),
{
    let i0 = choose|i: int| 0 <= i < j && s[i].versioned_hash == s[j].versioned_hash;
    assert(!sidecar_hashes_distinct(s));
    if j == s.len() - 1 {
        assert(s.drop_last() =~= s.subrange(0, j));
        assert(s.last() == s[j]);
    } else {
        let d = s.drop_last();
        assert(d[i0] == s[i0] && d[j] == s[j]);
        assert(!sidecar_hashes_distinct(d));
        assert(d.subrange(0, j) =~= s.subrange(0, j));
        lemma_first_duplicate_at(d, j);
    }
}

/// Mapping from versioned hash to blob payload, owning the sidecar items.
/// Built only from collections whose versioned hashes are distinct.
#[derive(Debug, Clone, PartialEq, Eq)]
pub struct BlobMapping {
    pub entries: Vec<BlobSidecarData>,
}

impl View for BlobMapping {
    type V = Seq<SidecarModel>;

    open spec fn view(&self) -> Seq<SidecarModel> {
        self.entries.deep_view()
    }
}

impl BlobMapping {
    /// The construction guarantee: no versioned hash is bound twice.
    pub open spec fn wf(&self) -> bool {
        sidecar_hashes_distinct(self@)
    }

    /// Index of the entry for `vh`, if any.
    pub fn find(&self, vh: &Vec<u8>) -> (r: Option<usize>)
        ensures
            r is Some <==> blob_mapping_contains(self@, vh@),
            r matches Some(i) ==> 0 <= i < self@.len() && self@[i as int].versioned_hash == vh@,
    {
        let mut i: usize = 0;
        while i < self.entries.len()
            invariant
                i <= self.entries.len(),
                forall|j: int| 0 <= j < i ==> self@[j].versioned_hash != vh@,
            decreases self.entries.len() - i,
        {
            if bytes_eq(&self.entries[i].versioned_hash, vh) {
                assert(self@[i as int].versioned_hash == vh@);
                return Some(i);
            }
            i += 1;
        }
        None
    }
}

/// Builds the one-to-one mapping from versioned hash to blob payload,
/// taking ownership of the sidecar items. Succeeds exactly when no versioned
/// hash repeats; otherwise reports the first repeated hash.
pub fn build_versioned_hash_mapping(sidecars: Vec<BlobSidecarData>) -> (r: Result<
    BlobMapping,
    PermanentFault,
>)
    ensures
        r is Ok <==> sidecar_hashes_distinct(sidecars.deep_view()),
        r matches Ok(m) ==> m@ == sidecars.deep_view() && m.wf(),
        r matches Err(f) ==> f@ == (PermanentFaultModel::DuplicateVersionedHash {
            versioned_hash: first_duplicate(sidecars.deep_view()),
        }),
{
    let ghost s = sidecars.deep_view();
    let mut j: usize = 1;
    if sidecars.len() == 0 {
        return Ok(BlobMapping { entries: sidecars });
    }
    while j < sidecars.len()
        invariant
            1 <= j <= sidecars.len(),
            s == sidecars.deep_view(),
            s.len() == sidecars.len(),
            sidecar_hashes_distinct(s.subrange(0, j as int)),
        decreases sidecars.len() - j,
    {
        let mut i: usize = 0;
        while i < j
            invariant
                0 <= i <= j < sidecars.len(),
                s == sidecars.deep_view(),
                s.len() == sidecars.len(),
                sidecar_hashes_distinct(s.subrange(0, j as int)),
                forall|k: int| 0 <= k < i ==> s[k].versioned_hash != s[j as int].versioned_hash,
            decreases j - i,
        {
            if bytes_eq(&sidecars[i].versioned_hash, &sidecars[j].versioned_hash) {
                proof {
                    assert(s[i as int].versioned_hash == s[j as int].versioned_hash);
                    lemma_first_duplicate_at(s, j as int);
                }
                return Err(
                    PermanentFault::DuplicateVersionedHash {
                        versioned_hash: copy_bytes(&sidecars[j].versioned_hash),
                    },
                );
            }
            i += 1;
        }
        proof {
            let sub = s.subrange(0, j + 1 as int);
            assert forall|a: int, b: int| 0 <= a < b < sub.len() implies sub[a].versioned_hash
                != sub[b].versioned_hash by {
                assert(sub[a] == s[a] && sub[b] == s[b]);
                if b < j {
                    assert(s.subrange(0, j as int)[a] == s[a]);
                    assert(s.subrange(0, j as int)[b] == s[b]);
                }
            }
        }
        j += 1;
    }
    assert(s.subrange(0, s.len() as int) =~= s);
    Ok(BlobMapping { entries: sidecars })
}

} // verus!
