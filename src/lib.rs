//! Verified core of a gRPC interoperability test client: payload
//! construction, the catalog of test cases, the evaluation of call outcomes
//! into assertions, and the planning of a run.
pub mod payload;
pub mod call;
pub mod assertion;
pub mod messages;
pub mod scenario;
pub mod stream;
pub mod status;
pub mod testcase;
pub mod run;
pub mod requests;
pub mod endpoint;
