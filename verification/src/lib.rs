//! A verified core for driving an incremental proof over a Rank-1 Constraint
//! System: the field-element codec, the validated model and its builder, the
//! step partitioner, the step-circuit adapter, and the sequential driver.
pub mod adapter;
pub mod codec;
pub mod driver;
pub mod model;
pub mod partition;
