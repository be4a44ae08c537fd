//! Plain-value model of the upstream data: beacon blocks, execution blocks,
//! transactions and blob sidecars. Hashes travel as raw bytes; a well-formed
//! hash is exactly 32 bytes long.

use vstd::prelude::*;

verus! {

/// Byte length of every hash handled here: transaction hashes, block hashes
/// and blob versioned hashes.
pub const HASH_BYTES: usize = 32;

/// A well-formed hash is exactly `HASH_BYTES` bytes long.
pub open spec fn wf_hash(h: Seq<u8>) -> bool {
    h.len() == HASH_BYTES
}

/// Byte-wise equality of two byte vectors.
pub fn bytes_eq(a: &Vec<u8>, b: &Vec<u8>) -> (r: bool)
    ensures
        r <==> a@ == b@,
{
    if a.len() != b.len() {
        assert(a@ != b@);
        return false;
    }
    let mut i: usize = 0;
    while i < a.len()
        invariant
            i <= a.len(),
            a.len() == b.len(),
            forall|j: int| 0 <= j < i ==> a@[j] == b@[j],
        decreases a.len() - i,
    {
        if a[i] != b[i] {
            return false;
        }
        i += 1;
    }
    assert(a@ =~= b@);
    true
}

/// Copy of a byte vector, element by element.
pub fn copy_bytes(v: &Vec<u8>) -> (r: Vec<u8>)
    ensures
        r@ == v@,
{
    let mut out: Vec<u8> = Vec::new();
    let mut i: usize = 0;
    while i < v.len()
        invariant
            i <= v.len(),
            out@ == v@.subrange(0, i as int),
        decreases v.len() - i,
    {
        out.push(v[i]);
        assert(out@ =~= v@.subrange(0, i + 1 as int));
        i += 1;
    }
    assert(v@.subrange(0, v.len() as int) =~= v@);
    out
}

/// Copy of a list of hashes.
pub fn copy_hash_list(v: &Vec<Vec<u8>>) -> (r: Vec<Vec<u8>>)
    ensures
        r.deep_view() == v.deep_view(),
{
    let mut out: Vec<Vec<u8>> = Vec::new();
    let mut i: usize = 0;
    while i < v.len()
        invariant
            i <= v.len(),
            out.len() == i,
            forall|k: int| 0 <= k < i ==> out.deep_view()[k] == v.deep_view()[k],
        decreases v.len() - i,
    {
        let ghost prev = out;
        let b = copy_bytes(&v[i]);
        out.push(b);
        proof {
            assert forall|k: int| 0 <= k < i + 1 implies out.deep_view()[k] == v.deep_view()[k] by {
                assert(out.deep_view()[k] == out@[k].deep_view());
                if k < i {
                    assert(out@[k] == prev@[k]);
                    assert(prev.deep_view()[k] == prev@[k].deep_view());
                } else {
                    assert(out@[k] == b);
                    assert(b@ == v@[i as int]@);
                    assert(b.deep_view() =~= v@[i as int].deep_view());
                    assert(v.deep_view()[k] == v@[k].deep_view());
                }
            }
        }
        i += 1;
    }
    assert(out.deep_view() =~= v.deep_view());
    out
}

/// The execution payload referenced by a beacon block: only the execution
/// block hash is read by this pipeline.
#[derive(Debug, Clone, PartialEq, Eq)]
pub struct ExecutionPayloadData {
    pub block_hash: Vec<u8>,
}

pub ghost struct ExecutionPayloadModel {
    pub block_hash: Seq<u8>,
}

impl View for ExecutionPayloadData {
    type V = ExecutionPayloadModel;

    open spec fn view(&self) -> ExecutionPayloadModel {
        ExecutionPayloadModel { block_hash: self.block_hash@ }
    }
}

/// A consensus-layer block: an optional execution payload and an optional
/// list of KZG commitments, one per blob the block carries.
#[derive(Debug, Clone, PartialEq, Eq)]
pub struct BeaconBlockData {
    pub execution_payload: Option<ExecutionPayloadData>,
    pub blob_kzg_commitments: Option<Vec<Vec<u8>>>,
}

pub ghost struct BeaconBlockModel {
    pub execution_payload: Option<ExecutionPayloadModel>,
    pub blob_kzg_commitments: Option<Seq<Seq<u8>>>,
}

impl View for BeaconBlockData {
    type V = BeaconBlockModel;

    open spec fn view(&self) -> BeaconBlockModel {
        BeaconBlockModel {
            execution_payload: match self.execution_payload {
                Some(p) => Some(p@),
                None => None,
            },
            blob_kzg_commitments: match self.blob_kzg_commitments {
                Some(cs) => Some(cs.deep_view()),
                None => None,
            },
        }
    }
}

impl BeaconBlockModel {
    /// Whether the block announces at least one blob.
    pub open spec fn has_commitments(self) -> bool {
        match self.blob_kzg_commitments {
            Some(cs) => cs.len() > 0,
            None => false,
        }
    }
}

/// One execution-layer transaction: its hash and, when it is blob-carrying,
/// the ordered list of blob versioned hashes it references.
#[derive(Debug, Clone, PartialEq, Eq)]
pub struct TransactionData {
    pub hash: Vec<u8>,
    pub blob_versioned_hashes: Option<Vec<Vec<u8>>>,
}

pub ghost struct TransactionModel {
    pub hash: Seq<u8>,
    pub blob_versioned_hashes: Option<Seq<Seq<u8>>>,
}

impl View for TransactionData {
    type V = TransactionModel;

    open spec fn view(&self) -> TransactionModel {
        TransactionModel {
            hash: self.hash@,
            blob_versioned_hashes: match self.blob_versioned_hashes {
                Some(hs) => Some(hs.deep_view()),
                None => None,
            },
        }
    }
}

/// An execution-layer block with its ordered transactions. `number` and
/// `hash` are optional because the upstream reports pending blocks without
/// them; entity construction rejects such blocks.
#[derive(Debug, Clone, PartialEq, Eq)]
pub struct ExecutionBlockData {
    pub number: Option<u64>,
    pub hash: Option<Vec<u8>>,
    pub timestamp: u64,
    pub transactions: Vec<TransactionData>,
}

pub ghost struct ExecutionBlockModel {
    pub number: Option<u64>,
    pub hash: Option<Seq<u8>>,
    pub timestamp: u64,
    pub transactions: Seq<TransactionModel>,
}

impl View for ExecutionBlockData {
    type V = ExecutionBlockModel;

    open spec fn view(&self) -> ExecutionBlockModel {
        ExecutionBlockModel {
            number: self.number,
            hash: match self.hash {
                Some(h) => Some(h@),
                None => None,
            },
            timestamp: self.timestamp,
            transactions: self.transactions.deep_view(),
        }
    }
}

impl DeepView for TransactionData {
    type V = TransactionModel;

    open spec fn deep_view(&self) -> TransactionModel {
        self.view()
    }
}

/// One blob sidecar item returned by the beacon endpoint for a slot: the blob
/// payload and the versioned hash that binds it to a commitment.
#[derive(Debug, Clone, PartialEq, Eq)]
pub struct BlobSidecarData {
    pub versioned_hash: Vec<u8>,
    pub data: Vec<u8>,
}

pub ghost struct SidecarModel {
    pub versioned_hash: Seq<u8>,
    pub data: Seq<u8>,
}

impl View for BlobSidecarData {
    type V = SidecarModel;

    open spec fn view(&self) -> SidecarModel {
        SidecarModel { versioned_hash: self.versioned_hash@, data: self.data@ }
    }
}

impl DeepView for BlobSidecarData {
    type V = SidecarModel;

    open spec fn deep_view(&self) -> SidecarModel {
        self.view()
    }
}

} // verus!
