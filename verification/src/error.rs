//! Typed errors and the Error Channel: the table that correlates a live
//! connection handle with the most recent diagnostic message the transport's
//! asynchronous error callback recorded for it, consumed synchronously right
//! after a failed operation.

use std::collections::HashMap;

use vstd::prelude::*;

verus! {

broadcast use vstd::std_specs::hash::group_hash_axioms;

/// A failed native operation: the integer status code the transport returned
/// (0 stands for "no handle produced" on connect) and the diagnostic text
/// recovered from the Error Channel, when one was recorded.
#[derive(Debug)]
pub struct InternalError(pub i32, pub Option<String>);

/// Any error a session operation can return.
#[derive(Debug)]
pub enum CwiidError {
    /// A native operation failed; carries its status code and diagnostic.
    Internal(InternalError),
    /// The Error Channel's lock was poisoned, so the diagnostic table cannot
    /// be trusted; surfaced distinctly, never silently swallowed.
    Mutex,
}

impl From<InternalError> for CwiidError {
    fn from(err: InternalError) -> (r: Self) {
        Self::Internal(err)
    }
}

impl vstd::std_specs::convert::FromSpecImpl<InternalError> for CwiidError {
    open spec fn obeys_from_spec() -> bool {
        true
    }

    open spec fn from_spec(err: InternalError) -> Self {
        Self::Internal(err)
    }
}

/// The pending-diagnostic table: at most one message per handle at a time; a
/// later record for the same handle overwrites the earlier one, and a consume
/// removes what it returns.
pub struct ErrorChannel {
    table: HashMap<u64, String>,
}

impl View for ErrorChannel {
    type V = Map<u64, String>;

    closed spec fn view(&self) -> Map<u64, String> {
        self.table@
    }
}

impl ErrorChannel {
    /// An empty table: no handle has a pending diagnostic.
    pub fn new() -> (c: Self)
        ensures
            c@ == Map::<u64, String>::empty(),
    {
        Self { table: HashMap::new() }
    }

    /// Store the latest diagnostic for `handle`, overwriting any pending one.
    /// Invoked on behalf of the transport's error callback.
    pub fn record(&mut self, handle: u64, message: String)
        ensures
            final(self)@ == old(self)@.insert(handle, message),
    {
        self.table.insert(handle, message);
    }

    /// Remove and return the pending diagnostic for `handle`, if one was
    /// recorded since the last consume. Invoked right after an operation
    /// reports failure on that handle.
    pub fn consume(&mut self, handle: u64) -> (r: Option<String>)
        ensures
            final(self)@ == old(self)@.remove(handle),
            r matches Some(m) ==> old(self)@.contains_key(handle) && m == old(self)@[handle],
            r is None ==> !old(self)@.contains_key(handle),
    {
        self.table.remove(&handle)
    }
}

/// Turn a native status code into a typed result: 0 is success; any other
/// code fails with that code and the diagnostic pending for `handle`, which
/// is consumed by the lookup.
pub fn convert_error(channel: &mut ErrorChannel, handle: u64, code: i32) -> (r: Result<
    (),
    CwiidError,
>)
    ensures
        code == 0 ==> r is Ok && final(channel)@ == old(channel)@,
        code != 0 ==> {
            &&& final(channel)@ == old(channel)@.remove(handle)
            &&& r matches Err(CwiidError::Internal(InternalError(c, m))) && c == code && (m
                matches Some(msg) ==> old(channel)@.contains_key(handle) && msg == old(
                channel,
            )@[handle]) && (m is None ==> !old(channel)@.contains_key(handle))
        },
{
    if code == 0 {
        Ok(())
    } else {
        let message = channel.consume(handle);
        Err(CwiidError::Internal(InternalError(code, message)))
    }
}

/// Law: a diagnostic recorded for a handle is exactly what the next consume
/// of that handle returns, and a second consume with no record in between
/// finds nothing: the table after the first consume no longer holds the
/// handle.
pub proof fn lemma_record_then_consume(table: Map<u64, String>, handle: u64, message: String)
    ensures
        table.insert(handle, message).contains_key(handle),
        table.insert(handle, message)[handle] == message,
        !table.insert(handle, message).remove(handle).contains_key(handle),
{
}

/// Law: of two diagnostics recorded for the same handle with no consume in
/// between, only the later one remains; a consume returns it, and handles
/// other than the recorded one are untouched.
pub proof fn lemma_record_overwrites(
    table: Map<u64, String>,
    handle: u64,
    first: String,
    second: String,
)
    ensures
        table.insert(handle, first).insert(handle, second)[handle] == second,
        table.insert(handle, first).insert(handle, second).contains_key(handle),
        forall|h: u64|
            h != handle ==> table.insert(handle, first).insert(handle, second).contains_key(h)
                == table.contains_key(h),
{
}

} // verus!
