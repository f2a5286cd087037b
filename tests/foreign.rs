use llvm_views::report::{failure_text, status_of};
use llvm_views::{
    CodeGenFileType, CodeGenOptLevel, CodeModel, Constant, Context, ExecutionEngine,
    IntPredicate, Module, RawHandle, RelocMode, Target, TargetData, TargetMachine,
};

#[test]
fn predicate_values() {
    assert_eq!(IntPredicate::Eq.tag(), 32);
    assert_eq!(IntPredicate::Ne.tag(), 33);
    assert_eq!(IntPredicate::Ugt.tag(), 34);
    assert_eq!(IntPredicate::Uge.tag(), 35);
    assert_eq!(IntPredicate::Ult.tag(), 36);
    assert_eq!(IntPredicate::Ule.tag(), 37);
    assert_eq!(IntPredicate::Sgt.tag(), 38);
    assert_eq!(IntPredicate::Sge.tag(), 39);
    assert_eq!(IntPredicate::Slt.tag(), 40);
    assert_eq!(IntPredicate::Sle.tag(), 41);
}

#[test]
fn code_generation_option_values() {
    assert_eq!(CodeGenOptLevel::NoOpt.tag(), 0);
    assert_eq!(CodeGenOptLevel::Less.tag(), 1);
    assert_eq!(CodeGenOptLevel::Default.tag(), 2);
    assert_eq!(CodeGenOptLevel::Aggressive.tag(), 3);
    assert_eq!(RelocMode::Default.tag(), 0);
    assert_eq!(RelocMode::Static.tag(), 1);
    assert_eq!(RelocMode::PIC.tag(), 2);
    assert_eq!(RelocMode::DynamicNoPic.tag(), 3);
    assert_eq!(CodeModel::Default.tag(), 0);
    assert_eq!(CodeModel::JITDefault.tag(), 1);
    assert_eq!(CodeModel::Small.tag(), 3);
    assert_eq!(CodeModel::Kernel.tag(), 4);
    assert_eq!(CodeModel::Medium.tag(), 5);
    assert_eq!(CodeModel::Large.tag(), 6);
    assert_eq!(CodeGenFileType::AssemblyFile.tag(), 0);
    assert_eq!(CodeGenFileType::ObjectFile.tag(), 1);
}

#[test]
fn target_lookup_by_name() {
    assert!(Target::from_lookup(RawHandle::null()).is_none());
    let t = Target::from_lookup(RawHandle { addr: 0x10 }).unwrap();
    assert_eq!(t.as_raw(), RawHandle { addr: 0x10 });
}

#[test]
fn target_lookup_by_triple() {
    let t = Target::from_triple_lookup(RawHandle { addr: 0x20 }, None).unwrap();
    assert_eq!(t.as_raw().addr, 0x20);
    let e = Target::from_triple_lookup(RawHandle::null(), Some("No available targets".to_string()));
    assert_eq!(e.unwrap_err(), "No available targets");
    let silent = Target::from_triple_lookup(RawHandle::null(), None);
    assert_eq!(silent.unwrap_err(), "");
}

#[test]
fn engine_creation_outcome() {
    let ok = ExecutionEngine::from_creation(0, RawHandle { addr: 0x30 }, None).unwrap();
    assert_eq!(ok.as_raw().addr, 0x30);
    let err = ExecutionEngine::from_creation(1, RawHandle::null(), Some("JIT has not been linked in".to_string()));
    assert_eq!(err.unwrap_err(), "JIT has not been linked in");
}

#[test]
fn function_addresses() {
    assert_eq!(ExecutionEngine::function_at(0), None);
    assert_eq!(ExecutionEngine::function_at(0x7f00_1234), Some(0x7f00_1234));
}

#[test]
fn operation_status() {
    assert_eq!(status_of(None), Ok(()));
    assert_eq!(status_of(Some("cannot open file".to_string())), Err("cannot open file".to_string()));
    assert_eq!(failure_text(None), "");
    assert_eq!(failure_text(Some("bad".to_string())), "bad");
}

#[test]
fn owned_objects_keep_their_identity() {
    let h = RawHandle { addr: 0x40 };
    assert_eq!(Context::from_raw(h).as_raw(), h);
    assert_eq!(Module::from_raw(h).as_raw(), h);
    assert_eq!(TargetMachine::from_raw(h).as_raw(), h);
    assert_eq!(TargetData::from_raw(h).as_raw(), h);
    assert_eq!(Constant::from_raw(h).as_raw(), h);
}
