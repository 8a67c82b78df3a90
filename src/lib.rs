//! Access layer over an embedded analytical database engine: the handle
//! ownership rules, the result walker and the columnar value decoder.
pub mod appender;
pub mod bytes;
pub mod config;
pub mod connection;
pub mod decimal;
pub mod decode;
pub mod error;
pub mod hugeint;
pub mod result;
pub mod row;
pub mod statement;
pub mod temporal;
pub mod text;
pub mod value;
pub mod walker;
