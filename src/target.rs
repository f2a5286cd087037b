//! Targets, target machines and their options.
use vstd::prelude::*;

use crate::handle::RawHandle;
use crate::report::{failure_text, text_of};

verus! {

/// How hard code generation optimises.
#[derive(Clone, Copy, Debug, PartialEq, Eq, Structural)]
pub enum CodeGenOptLevel {
    NoOpt,
    Less,
    Default,
    Aggressive,
}

impl CodeGenOptLevel {
    /// The value of this level in the foreign library's binary interface.
    pub open spec fn tag_spec(self) -> u32 {
        match self {
            CodeGenOptLevel::NoOpt => 0,
            CodeGenOptLevel::Less => 1,
            CodeGenOptLevel::Default => 2,
            CodeGenOptLevel::Aggressive => 3,
        }
    }

    /// The value of this level in the foreign library's binary interface.
    pub fn tag(self) -> (r: u32)
        ensures
            r == self.tag_spec(),
    {
        match self {
            CodeGenOptLevel::NoOpt => 0,
            CodeGenOptLevel::Less => 1,
            CodeGenOptLevel::Default => 2,
            CodeGenOptLevel::Aggressive => 3,
        }
    }
}

/// How generated code is relocated.
#[derive(Clone, Copy, Debug, PartialEq, Eq, Structural)]
pub enum RelocMode {
    Default,
    Static,
    PIC,
    DynamicNoPic,
}

impl RelocMode {
    /// The value of this option in the foreign library's binary interface.
    pub open spec fn tag_spec(self) -> u32 {
        match self {
            RelocMode::Default => 0,
            RelocMode::Static => 1,
            RelocMode::PIC => 2,
            RelocMode::DynamicNoPic => 3,
        }
    }

    /// The value of this option in the foreign library's binary interface.
    pub fn tag(self) -> (r: u32)
        ensures
            r == self.tag_spec(),
    {
        match self {
            RelocMode::Default => 0,
            RelocMode::Static => 1,
            RelocMode::PIC => 2,
            RelocMode::DynamicNoPic => 3,
        }
    }
}

/// The code model that code generation assumes.
#[derive(Clone, Copy, Debug, PartialEq, Eq, Structural)]
pub enum CodeModel {
    Default,
    JITDefault,
    Small,
    Kernel,
    Medium,
    Large,
}

impl CodeModel {
    /// The value of this option in the foreign library's binary interface.
    pub open spec fn tag_spec(self) -> u32 {
        match self {
            CodeModel::Default => 0,
            CodeModel::JITDefault => 1,
            CodeModel::Small => 3,
            CodeModel::Kernel => 4,
            CodeModel::Medium => 5,
            CodeModel::Large => 6,
        }
    }

    /// The value of this option in the foreign library's binary interface.
    pub fn tag(self) -> (r: u32)
        ensures
            r == self.tag_spec(),
    {
        match self {
            CodeModel::Default => 0,
            CodeModel::JITDefault => 1,
            CodeModel::Small => 3,
            CodeModel::Kernel => 4,
            CodeModel::Medium => 5,
            CodeModel::Large => 6,
        }
    }
}

/// What code generation writes out.
#[derive(Clone, Copy, Debug, PartialEq, Eq, Structural)]
pub enum CodeGenFileType {
    AssemblyFile,
    ObjectFile,
}

impl CodeGenFileType {
    /// The value of this option in the foreign library's binary interface.
    pub open spec fn tag_spec(self) -> u32 {
        match self {
            CodeGenFileType::AssemblyFile => 0,
            CodeGenFileType::ObjectFile => 1,
        }
    }

    /// The value of this option in the foreign library's binary interface.
    pub fn tag(self) -> (r: u32)
        ensures
            r == self.tag_spec(),
    {
        match self {
            CodeGenFileType::AssemblyFile => 0,
            CodeGenFileType::ObjectFile => 1,
        }
    }
}

/// A target that the foreign library can generate code for.
#[derive(Debug)]
pub struct Target {
    raw: RawHandle,
}

impl View for Target {
    type V = RawHandle;

    /// The foreign object that this value stands for.
    closed spec fn view(&self) -> RawHandle {
        self.raw
    }
}

impl Target {
    /// Takes the foreign object at `raw`.
    pub fn from_raw(raw: RawHandle) -> (r: Target)
        ensures
            r@ == raw,
    {
        Target { raw }
    }

    /// The identity of the foreign object.
    pub fn as_raw(&self) -> (r: RawHandle)
        ensures
            r == self@,
    {
        self.raw
    }

    /// The outcome of a lookup of a target by name, from what the foreign
    /// lookup returned: null where it knows no such target.
    pub fn from_lookup(found: RawHandle) -> (r: Option<Target>)
        ensures
            r is None <==> found.addr == 0,
            r is Some ==> r->Some_0@ == found,
    {
        if found.is_null() {
            None
        } else {
            Some(Target { raw: found })
        }
    }

    /// The outcome of a lookup of a target by triple, from what the foreign
    /// lookup returned: the target found, null where it found none, and the
    /// diagnostic it may have set.
    pub fn from_triple_lookup(found: RawHandle, message: Option<String>) -> (r: Result<
        Target,
        String,
    >)
        ensures
            r is Ok <==> found.addr != 0,
            r is Ok ==> r->Ok_0@ == found,
            r is Err ==> r->Err_0@ == text_of(message),
    {
        if found.is_null() {
            Err(failure_text(message))
        } else {
            Ok(Target { raw: found })
        }
    }
}

/// A target machine: a target with a triple, a CPU, features and code
/// generation options. Its creator disposes of it.
#[derive(Debug)]
pub struct TargetMachine {
    raw: RawHandle,
}

impl View for TargetMachine {
    type V = RawHandle;

    /// The foreign object that this value stands for.
    closed spec fn view(&self) -> RawHandle {
        self.raw
    }
}

impl TargetMachine {
    /// Takes the foreign object at `raw`.
    pub fn from_raw(raw: RawHandle) -> (r: TargetMachine)
        ensures
            r@ == raw,
    {
        TargetMachine { raw }
    }

    /// The identity of the foreign object.
    pub fn as_raw(&self) -> (r: RawHandle)
        ensures
            r == self@,
    {
        self.raw
    }
}

/// The data layout of a target machine. Its creator disposes of it.
#[derive(Debug)]
pub struct TargetData {
    raw: RawHandle,
}

impl View for TargetData {
    type V = RawHandle;

    /// The foreign object that this value stands for.
    closed spec fn view(&self) -> RawHandle {
        self.raw
    }
}

impl TargetData {
    /// Takes the foreign object at `raw`.
    pub fn from_raw(raw: RawHandle) -> (r: TargetData)
        ensures
            r@ == raw,
    {
        TargetData { raw }
    }

    /// The identity of the foreign object.
    pub fn as_raw(&self) -> (r: RawHandle)
        ensures
            r == self@,
    {
        self.raw
    }
}

} // verus!
