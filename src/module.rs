//! Modules, and the engine that runs their code.
use vstd::prelude::*;

use crate::handle::RawHandle;
use crate::report::{failure_text, text_of};

verus! {

/// A module: functions and globals in one context. Its creator disposes of
/// it, unless an execution engine has taken it over.
#[derive(Debug)]
pub struct Module {
    raw: RawHandle,
}

impl View for Module {
    type V = RawHandle;

    /// The foreign module that this value stands for.
    closed spec fn view(&self) -> RawHandle {
        self.raw
    }
}

impl Module {
    /// Takes the foreign module at `raw`.
    pub fn from_raw(raw: RawHandle) -> (r: Module)
        ensures
            r@ == raw,
    {
        Module { raw }
    }

    /// The identity of the foreign module.
    pub fn as_raw(&self) -> (r: RawHandle)
        ensures
            r == self@,
    {
        self.raw
    }
}

/// An engine that compiles a module's functions to machine code in memory.
/// It owns the module it was created for.
#[derive(Debug)]
pub struct ExecutionEngine {
    raw: RawHandle,
}

impl View for ExecutionEngine {
    type V = RawHandle;

    /// The foreign engine that this value stands for.
    closed spec fn view(&self) -> RawHandle {
        self.raw
    }
}

impl ExecutionEngine {
    /// The outcome of creating an engine for a module, from what the foreign
    /// call reported: `status` zero for success, the engine it wrote, and the
    /// diagnostic it may have set.
    ///
    /// On success the engine owns the module; on failure the module stays
    /// with its creator.
    pub fn from_creation(status: i32, engine: RawHandle, message: Option<String>) -> (r: Result<
        ExecutionEngine,
        String,
    >)
        ensures
            r is Ok <==> status == 0,
            r is Ok ==> r->Ok_0@ == engine,
            r is Err ==> r->Err_0@ == text_of(message),
    {
        if status == 0 {
            Ok(ExecutionEngine { raw: engine })
        } else {
            Err(failure_text(message))
        }
    }

    /// The identity of the foreign engine.
    pub fn as_raw(&self) -> (r: RawHandle)
        ensures
            r == self@,
    {
        self.raw
    }

    /// The address of a compiled function, from what the foreign lookup
    /// returned: zero where the engine has no such function.
    pub fn function_at(addr: u64) -> (r: Option<u64>)
        ensures
            r is None <==> addr == 0,
            r is Some ==> r->Some_0 == addr,
    {
        if addr == 0 {
            None
        } else {
            Some(addr)
        }
    }
}

} // verus!
