//! Record batches, as far as the engine reads and writes them.

use vstd::prelude::*;

use crate::script::made_of;
use crate::value::copy_opt_bytes;

verus! {

/// What the engine reads of a batch before its records are inflated.
#[derive(Clone, Copy, Debug, PartialEq, Eq, Structural)]
pub struct BatchHeader {
    /// Whether the batch takes part in the check of a producer's sequence.
    pub idempotent: bool,
    pub producer_id: i64,
    pub producer_epoch: i16,
    pub base_sequence: i32,
    pub last_offset_delta: i32,
}

impl DeepView for BatchHeader {
    type V = BatchHeader;

    open spec fn deep_view(&self) -> BatchHeader {
        *self
    }
}

/// A header of a record.
#[derive(Debug)]
pub struct RecordHeader {
    pub key: Option<Vec<u8>>,
    pub value: Option<Vec<u8>>,
}

/// What [`RecordHeader`] stands for.
pub struct RecordHeaderView {
    pub key: Option<Seq<u8>>,
    pub value: Option<Seq<u8>>,
}

impl DeepView for RecordHeader {
    type V = RecordHeaderView;

    open spec fn deep_view(&self) -> RecordHeaderView {
        RecordHeaderView {
            key: self.key.deep_view(),
            value: self.value.deep_view(),
        }
    }
}

/// A record of an inflated batch.
#[derive(Debug)]
pub struct Record {
    /// Milliseconds after the base timestamp of the batch.
    pub timestamp_delta: i64,
    pub key: Option<Vec<u8>>,
    pub value: Option<Vec<u8>>,
    pub headers: Vec<RecordHeader>,
}

/// What [`Record`] stands for.
pub struct RecordView {
    pub timestamp_delta: i64,
    pub key: Option<Seq<u8>>,
    pub value: Option<Seq<u8>>,
    pub headers: Seq<RecordHeaderView>,
}

impl DeepView for Record {
    type V = RecordView;

    open spec fn deep_view(&self) -> RecordView {
        RecordView {
            timestamp_delta: self.timestamp_delta,
            key: self.key.deep_view(),
            value: self.value.deep_view(),
            headers: self.headers.deep_view(),
        }
    }
}

/// A batch with its records.
#[derive(Debug)]
pub struct InflatedBatch {
    /// The attributes as they stand in the batch.
    pub attributes: i16,
    /// Whether the attributes mark a control batch.
    pub control: bool,
    pub base_timestamp: i64,
    pub last_offset_delta: i32,
    pub producer_id: i64,
    pub producer_epoch: i16,
    pub records: Vec<Record>,
}

/// What [`InflatedBatch`] stands for.
pub struct InflatedBatchView {
    pub attributes: i16,
    pub control: bool,
    pub base_timestamp: i64,
    pub last_offset_delta: i32,
    pub producer_id: i64,
    pub producer_epoch: i16,
    pub records: Seq<RecordView>,
}

impl DeepView for InflatedBatch {
    type V = InflatedBatchView;

    open spec fn deep_view(&self) -> InflatedBatchView {
        InflatedBatchView {
            attributes: self.attributes,
            control: self.control,
            base_timestamp: self.base_timestamp,
            last_offset_delta: self.last_offset_delta,
            producer_id: self.producer_id,
            producer_epoch: self.producer_epoch,
            records: self.records.deep_view(),
        }
    }
}

/// The control batch that ends a transaction in a partition: one record, whose key says whether
/// the transaction was committed.
#[derive(Clone, Copy, Debug, PartialEq, Eq, Structural)]
pub struct Marker {
    pub committed: bool,
    pub control: bool,
    pub transaction: bool,
    pub producer_id: i64,
    pub producer_epoch: i16,
    pub base_sequence: i32,
}

impl DeepView for Marker {
    type V = Marker;

    open spec fn deep_view(&self) -> Marker {
        *self
    }
}

/// A batch of one record, as it is read back.
#[derive(Debug)]
pub struct FetchedBatch {
    pub base_offset: i64,
    pub attributes: i16,
    pub producer_id: i64,
    pub producer_epoch: i16,
    /// Milliseconds since the epoch.
    pub base_timestamp: i64,
    pub key: Option<Vec<u8>>,
    pub value: Option<Vec<u8>>,
    pub headers: Vec<RecordHeader>,
}

/// What [`FetchedBatch`] stands for.
pub struct FetchedBatchView {
    pub base_offset: i64,
    pub attributes: i16,
    pub producer_id: i64,
    pub producer_epoch: i16,
    pub base_timestamp: i64,
    pub key: Option<Seq<u8>>,
    pub value: Option<Seq<u8>>,
    pub headers: Seq<RecordHeaderView>,
}

impl DeepView for FetchedBatch {
    type V = FetchedBatchView;

    open spec fn deep_view(&self) -> FetchedBatchView {
        FetchedBatchView {
            base_offset: self.base_offset,
            attributes: self.attributes,
            producer_id: self.producer_id,
            producer_epoch: self.producer_epoch,
            base_timestamp: self.base_timestamp,
            key: self.key.deep_view(),
            value: self.value.deep_view(),
            headers: self.headers.deep_view(),
        }
    }
}

/// The same header.
spec fn same_header() -> spec_fn(RecordHeaderView) -> RecordHeaderView {
    |header: RecordHeaderView| header
}

impl FetchedBatch {
    /// A copy.
    pub fn copy(&self) -> (copy: FetchedBatch)
        ensures
            copy.deep_view() == self.deep_view(),
    {
        let make = |header: &RecordHeader| -> (copy: RecordHeader)
            ensures
                copy.deep_view() == header.deep_view(),
        {
            RecordHeader { key: copy_opt_bytes(&header.key), value: copy_opt_bytes(&header.value) }
        };
        let headers = made_of(&self.headers, make, Ghost(same_header()));
        assert(headers.deep_view() =~= self.headers.deep_view());
        FetchedBatch {
            base_offset: self.base_offset,
            attributes: self.attributes,
            producer_id: self.producer_id,
            producer_epoch: self.producer_epoch,
            base_timestamp: self.base_timestamp,
            key: copy_opt_bytes(&self.key),
            value: copy_opt_bytes(&self.value),
            headers,
        }
    }
}

} // verus!
