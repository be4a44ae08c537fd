//! Failure taxonomy and structured events. The core never performs I/O or
//! logging itself: it returns event values, and the surrounding program hands
//! them to whatever sink it uses.

use vstd::prelude::*;

verus! {

/// Severity of a structured event.
#[derive(Clone, Copy, PartialEq, Eq, Structural, Debug)]
pub enum Severity {
    DebugLevel,
    InfoLevel,
    WarnLevel,
}

/// HTTP method of a backend call, for event reporting.
#[derive(Clone, Copy, PartialEq, Eq, Structural, Debug)]
pub enum HttpMethod {
    Get,
    Put,
}

/// Why a slot was skipped: a normal, successful outcome with no submission.
#[derive(Clone, Copy, PartialEq, Eq, Structural, Debug)]
pub enum SkipReason {
    NoBeaconBlock,
    NoExecutionPayload,
    NoKzgCommitments,
    NoBlobSidecars,
    EmptyBlobSidecars,
}

/// A recoverable fault: the attempt may be retried with backoff.
#[derive(Debug, Clone, PartialEq, Eq)]
pub enum TransientFault {
    BeaconFetchFailed { detail: String },
    BlobsFetchFailed { detail: String },
    IndexingFailed { detail: String },
}

pub ghost enum TransientFaultModel {
    BeaconFetchFailed { detail: Seq<char> },
    BlobsFetchFailed { detail: Seq<char> },
    IndexingFailed { detail: Seq<char> },
}

impl View for TransientFault {
    type V = TransientFaultModel;

    open spec fn view(&self) -> TransientFaultModel {
        match self {
            TransientFault::BeaconFetchFailed { detail } => TransientFaultModel::BeaconFetchFailed { detail: detail@ },
            TransientFault::BlobsFetchFailed { detail } => TransientFaultModel::BlobsFetchFailed { detail: detail@ },
            TransientFault::IndexingFailed { detail } => TransientFaultModel::IndexingFailed { detail: detail@ },
        }
    }
}

/// An unrecoverable data-integrity fault: never retried.
#[derive(Debug, Clone, PartialEq, Eq)]
pub enum PermanentFault {
    /// The execution block lookup itself failed. The lookup targets a hash the
    /// beacon chain already confirmed, so a failure here is treated as
    /// unrecoverable rather than retried.
    ExecutionFetchFailed { detail: String },
    /// The execution block referenced by the beacon block does not exist.
    ExecutionBlockNotFound { block_hash: Vec<u8> },
    /// A blob-carrying transaction listed a versioned hash that is not
    /// `HASH_BYTES` long.
    MalformedBlobHashes { tx_hash: Vec<u8> },
    /// KZG commitments are present but the execution block holds no
    /// blob-carrying transaction.
    CommitmentsWithoutBlobTransactions,
    /// The sidecar collection holds the same versioned hash twice.
    DuplicateVersionedHash { versioned_hash: Vec<u8> },
    /// The execution block lacks a number or a hash.
    MissingBlockFields,
    /// A versioned hash referenced by a transaction has no sidecar entry.
    SidecarNotFound { versioned_hash: Vec<u8>, tx_hash: Vec<u8>, index: usize },
}

pub ghost enum PermanentFaultModel {
    ExecutionFetchFailed { detail: Seq<char> },
    ExecutionBlockNotFound { block_hash: Seq<u8> },
    MalformedBlobHashes { tx_hash: Seq<u8> },
    CommitmentsWithoutBlobTransactions,
    DuplicateVersionedHash { versioned_hash: Seq<u8> },
    MissingBlockFields,
    SidecarNotFound { versioned_hash: Seq<u8>, tx_hash: Seq<u8>, index: usize },
}

impl View for PermanentFault {
    type V = PermanentFaultModel;

    open spec fn view(&self) -> PermanentFaultModel {
        match self {
            PermanentFault::ExecutionFetchFailed { detail } => PermanentFaultModel::ExecutionFetchFailed { detail: detail@ },
            PermanentFault::ExecutionBlockNotFound { block_hash } => PermanentFaultModel::ExecutionBlockNotFound { block_hash: block_hash@ },
            PermanentFault::MalformedBlobHashes { tx_hash } => PermanentFaultModel::MalformedBlobHashes { tx_hash: tx_hash@ },
            PermanentFault::CommitmentsWithoutBlobTransactions => PermanentFaultModel::CommitmentsWithoutBlobTransactions,
            PermanentFault::DuplicateVersionedHash { versioned_hash } => PermanentFaultModel::DuplicateVersionedHash { versioned_hash: versioned_hash@ },
            PermanentFault::MissingBlockFields => PermanentFaultModel::MissingBlockFields,
            PermanentFault::SidecarNotFound { versioned_hash, tx_hash, index } => PermanentFaultModel::SidecarNotFound {
                versioned_hash: versioned_hash@,
                tx_hash: tx_hash@,
                index: *index,
            },
        }
    }
}

/// Outcome classification of one failed attempt.
#[derive(Debug, Clone, PartialEq, Eq)]
pub enum AttemptFailure {
    Transient(TransientFault),
    Permanent(PermanentFault),
}

pub ghost enum AttemptFailureModel {
    Transient(TransientFaultModel),
    Permanent(PermanentFaultModel),
}

impl View for AttemptFailure {
    type V = AttemptFailureModel;

    open spec fn view(&self) -> AttemptFailureModel {
        match self {
            AttemptFailure::Transient(t) => AttemptFailureModel::Transient(t@),
            AttemptFailure::Permanent(p) => AttemptFailureModel::Permanent(p@),
        }
    }
}

/// What a successfully indexed slot contained, for the success report.
#[derive(Debug, Clone, PartialEq, Eq)]
pub struct IndexedSummary {
    pub slot: u32,
    pub block_hash: Vec<u8>,
    pub tx_hashes: Vec<Vec<u8>>,
    pub blob_versioned_hashes: Vec<Vec<u8>>,
}

pub ghost struct IndexedSummaryModel {
    pub slot: u32,
    pub block_hash: Seq<u8>,
    pub tx_hashes: Seq<Seq<u8>>,
    pub blob_versioned_hashes: Seq<Seq<u8>>,
}

impl View for IndexedSummary {
    type V = IndexedSummaryModel;

    open spec fn view(&self) -> IndexedSummaryModel {
        IndexedSummaryModel {
            slot: self.slot,
            block_hash: self.block_hash@,
            tx_hashes: self.tx_hashes.deep_view(),
            blob_versioned_hashes: self.blob_versioned_hashes.deep_view(),
        }
    }
}

/// A structured event the core asks its caller to emit.
#[derive(Debug, Clone, PartialEq, Eq)]
pub enum EmittedEvent {
    /// Debug event before a backend call is sent.
    RequestDispatched { method: HttpMethod, url: String, body: Option<String> },
    /// Warning: the request could not be sent at all.
    SendFailed { method: HttpMethod, url: String, detail: String },
    /// Warning: the response was not a well-formed envelope; carries the raw
    /// body for diagnostics.
    UnexpectedResponse { method: HttpMethod, url: String, body: String },
    /// Warning: the envelope carried a server-reported error.
    ServerReportedError { method: HttpMethod, url: String, message: String },
    /// Debug: the slot was skipped, with the reason.
    SlotSkipped { slot: u32, reason: SkipReason },
    /// Info: the slot was indexed; the summary of what was submitted.
    SlotIndexed { summary: IndexedSummary },
    /// Warning: a transient fault; the attempt is retried after a wait.
    RetryScheduled { slot: u32, fault: TransientFault, wait_secs: u64 },
}

pub ghost enum EmittedEventModel {
    RequestDispatched { method: HttpMethod, url: Seq<char>, body: Option<Seq<char>> },
    SendFailed { method: HttpMethod, url: Seq<char>, detail: Seq<char> },
    UnexpectedResponse { method: HttpMethod, url: Seq<char>, body: Seq<char> },
    ServerReportedError { method: HttpMethod, url: Seq<char>, message: Seq<char> },
    SlotSkipped { slot: u32, reason: SkipReason },
    SlotIndexed { summary: IndexedSummaryModel },
    RetryScheduled { slot: u32, fault: TransientFaultModel, wait_secs: u64 },
}

impl View for EmittedEvent {
    type V = EmittedEventModel;

    open spec fn view(&self) -> EmittedEventModel {
        match self {
            EmittedEvent::RequestDispatched { method, url, body } => EmittedEventModel::RequestDispatched {
                method: *method,
                url: url@,
                body: match body {
                    Some(b) => Some(b@),
                    None => None,
                },
            },
            EmittedEvent::SendFailed { method, url, detail } => EmittedEventModel::SendFailed {
                method: *method,
                url: url@,
                detail: detail@,
            },
            EmittedEvent::UnexpectedResponse { method, url, body } => EmittedEventModel::UnexpectedResponse {
                method: *method,
                url: url@,
                body: body@,
            },
            EmittedEvent::ServerReportedError { method, url, message } => EmittedEventModel::ServerReportedError {
                method: *method,
                url: url@,
                message: message@,
            },
            EmittedEvent::SlotSkipped { slot, reason } => EmittedEventModel::SlotSkipped {
                slot: *slot,
                reason: *reason,
            },
            EmittedEvent::SlotIndexed { summary } => EmittedEventModel::SlotIndexed { summary: summary@ },
            EmittedEvent::RetryScheduled { slot, fault, wait_secs } => EmittedEventModel::RetryScheduled {
                slot: *slot,
                fault: fault@,
                wait_secs: *wait_secs,
            },
        }
    }
}

impl DeepView for EmittedEvent {
    type V = EmittedEventModel;

    open spec fn deep_view(&self) -> EmittedEventModel {
        self.view()
    }
}

impl EmittedEventModel {
    /// Severity at which each event is reported.
    pub open spec fn severity(self) -> Severity {
        match self {
            EmittedEventModel::RequestDispatched { .. } => Severity::DebugLevel,
            EmittedEventModel::SendFailed { .. } => Severity::WarnLevel,
            EmittedEventModel::UnexpectedResponse { .. } => Severity::WarnLevel,
            EmittedEventModel::ServerReportedError { .. } => Severity::WarnLevel,
            EmittedEventModel::SlotSkipped { .. } => Severity::DebugLevel,
            EmittedEventModel::SlotIndexed { .. } => Severity::InfoLevel,
            EmittedEventModel::RetryScheduled { .. } => Severity::WarnLevel,
        }
    }
}

impl EmittedEvent {
    /// Severity at which this event is reported.
    pub fn severity(&self) -> (s: Severity)
        ensures
            s == self@.severity(),
    {
        match self {
            EmittedEvent::RequestDispatched { .. } => Severity::DebugLevel,
            EmittedEvent::SendFailed { .. } => Severity::WarnLevel,
            EmittedEvent::UnexpectedResponse { .. } => Severity::WarnLevel,
            EmittedEvent::ServerReportedError { .. } => Severity::WarnLevel,
            EmittedEvent::SlotSkipped { .. } => Severity::DebugLevel,
            EmittedEvent::SlotIndexed { .. } => Severity::InfoLevel,
            EmittedEvent::RetryScheduled { .. } => Severity::WarnLevel,
        }
    }
}

} // verus!
