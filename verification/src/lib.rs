//! Configuration of a directory checksumming tool: the recursion depth
//! policy and the validated option record built from raw argument values.

pub mod algorithm;
pub mod decimal;
pub mod depth;
pub mod error;
pub mod options;
