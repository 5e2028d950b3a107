//! Compare-and-swap transactions for a key-value backend: conditions on
//! stored values, a success branch and a failure branch, built in stages and
//! merged into one request.

pub mod compare;
pub mod request;
pub mod txn;

pub use compare::{Compare, CompareOp, CompareView};
pub use request::{TxnOp, TxnOpResponse, TxnOpView, TxnRequest, TxnRequestView, TxnResponse};
pub use txn::{Txn, TxnBuildError, TxnView};
