//! The ownership context and the values built inside it.
use std::marker::PhantomData;
use vstd::prelude::*;

use crate::handle::RawHandle;

verus! {

/// An execution state of the foreign library: the owner of every type and
/// value created in it.
///
/// This is the context's identity. Whoever created the foreign context
/// disposes of it exactly once, after every view borrowed from it is gone.
#[derive(Debug)]
pub struct Context {
    raw: RawHandle,
}

impl Context {
    /// The identity of the foreign context.
    pub fn as_raw(&self) -> (r: RawHandle)
        ensures
            r == self@,
    {
        self.raw
    }

    /// Takes the context that the foreign library created at `raw`.
    pub fn from_raw(raw: RawHandle) -> (r: Context)
        ensures
            r@ == raw,
    {
        Context { raw }
    }
}

impl View for Context {
    type V = RawHandle;

    /// The identity of the foreign context.
    closed spec fn view(&self) -> RawHandle {
        self.raw
    }
}

/// A view of a constant value owned by a context.
#[derive(Clone, Copy, Debug)]
pub struct Constant<'ctx> {
    raw: RawHandle,
    ctx: PhantomData<&'ctx Context>,
}

impl<'ctx> View for Constant<'ctx> {
    type V = RawHandle;

    /// The foreign value that this view names.
    closed spec fn view(&self) -> RawHandle {
        self.raw
    }
}

impl<'ctx> Constant<'ctx> {
    /// Views the foreign value at `raw` as a constant.
    ///
    /// The caller must already know that the value is a constant, as it does
    /// of the result of a foreign constructor of constants.
    pub fn from_raw(raw: RawHandle) -> (r: Constant<'ctx>)
        ensures
            r@ == raw,
    {
        Constant { raw, ctx: PhantomData }
    }

    /// The identity of the foreign value.
    pub fn as_raw(&self) -> (r: RawHandle)
        ensures
            r == self@,
    {
        self.raw
    }
}

} // verus!
