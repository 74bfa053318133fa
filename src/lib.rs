//! Data-refresh and stream-ingestion core of a routing-data pipeline: a TTL
//! cache of externally sourced values with a refresh queue, the retry and
//! backoff policy, the stream-ingestion unit's lifecycle decisions, and the
//! storage-tier selection of a RIB unit.

pub mod external_data;
pub mod kafka_in;
pub mod retry;
pub mod storage;
pub mod table;
