use vstd::prelude::*;

use crate::error::PaymentError;

verus! {

#[verifier::external_type_specification]
#[verifier::external_body]
pub struct ExRuntime(tokio::runtime::Runtime);

/// Relies on tokio::runtime::Runtime::new, which builds a multi-threaded
/// runtime or reports why it could not.
#[verifier::external_body]
fn new_runtime() -> (r: Option<tokio::runtime::Runtime>) {
    tokio::runtime::Runtime::new().ok()
}

/// Relies on tokio::runtime::Runtime::block_on: runs `future` on the runtime
/// and blocks the calling thread until it completes (it panics when called
/// from inside an async context).
#[verifier::external_body]
fn run_on<F: std::future::Future>(runtime: &tokio::runtime::Runtime, future: F) -> F::Output {
    runtime.block_on(future)
}

/// The background execution context that every synchronous entry point
/// hands its work to.
pub struct ExecutionContext {
    runtime: tokio::runtime::Runtime,
}

impl ExecutionContext {
    /// Starts the worker threads; fails with `Generic` when the runtime cannot
    /// be built.
    pub fn new() -> (r: Result<ExecutionContext, PaymentError>)
        ensures
            r is Err ==> r->Err_0 is Generic,
    {
        match new_runtime() {
            Some(runtime) => Ok(ExecutionContext { runtime }),
            None => Err(PaymentError::Generic { err: "Could not start the runtime".to_owned() }),
        }
    }
}

/// Runs `future` on the shared context and returns its output unchanged,
/// blocking the calling thread until then. It is for synchronous callers
/// only: called from inside an async context, tokio panics.
pub fn block_on<F: std::future::Future>(context: &ExecutionContext, future: F) -> F::Output {
    run_on(&context.runtime, future)
}

} // verus!
