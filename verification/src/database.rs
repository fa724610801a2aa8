//! A database-agnostic client model: configuration, datapoints, connection
//! pooling, pooled protocol connections and operation results.

pub mod config;
pub mod datapoint;
pub mod connector;
pub mod results;
pub mod protocol;
