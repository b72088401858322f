//! Promises: work for other accounts that is described first and handed to the execution engine
//! later.
//!
//! A [`Promise`] wraps a batch of actions for one account, or the join of two promises. Actions
//! are added to a batch one by one; `then` makes one promise wait for another, `and` joins two.
//! Nothing reaches the engine before a promise is finalized by
//! [`Promise::construct_recursively`], or named as the first operand of `then` or as an operand
//! of `and`. The engine then learns of each batch and join once, predecessors and operands
//! first, and answers with the index under which it knows them from then on. A promise marked
//! by `as_return` names its index as the result of the current call once, at the first
//! finalization after it was marked. Finalizing again requests nothing.
//!
//! The engine is whatever implements [`Engine`]. The contracts speak of the requests that it has
//! served, its trace, and state for every function which requests it adds. [`Recorder`] is an
//! engine that keeps the requests and carries nothing out.
//!
//! A promise has no destructor: whoever owns one finalizes it when it goes out of use. A
//! promise that holds indices is to be used with the engine that handed them out; the contracts
//! demand it as `wf`. The module [`laws`] states what holds across several calls.

pub mod action;
pub mod engine;
pub mod joint;
pub mod laws;
pub mod promise;
pub mod recorder;
pub mod single;
pub mod types;

pub use action::PromiseAction;
pub use engine::{ActionView, Call, Engine};
pub use joint::PromiseJoint;
pub use promise::{Promise, PromiseAnd, PromiseOrValue, PromiseView, SubtypeView};
pub use recorder::{RecordedCall, Recorder};
pub use single::{PromiseSingle, SingleView};
pub use types::{AccountId, Balance, Gas, GasWeight, PromiseIndex, PublicKey};
