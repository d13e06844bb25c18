use rust_saber::error::HookError;
use rust_saber::gate::InitGate;
use rust_saber::installer::{
    patch_error, register_error, EngineStatus, HookInstall, InstallAction, InstalledTargets, InstallEvent, InstallPhase,
};
use rust_saber::slot::{trampoline_call, HookSlot};

fn install_with(h: &mut HookInstall, slot: &mut HookSlot, targets: &mut InstalledTargets, base: Result<u64, HookError>, orig: u64) -> InstallAction {
    assert_eq!(h.step(slot, targets, InstallEvent::Begin), InstallAction::RunInit);
    assert_eq!(h.step(slot, targets, InstallEvent::Initialized), InstallAction::LocateModule);
    let a = h.step(slot, targets, InstallEvent::BaseLocated { base });
    match a {
        InstallAction::Register { .. } => {}
        other => return other,
    }
    let a = h.step(slot, targets, InstallEvent::Registered { status: EngineStatus::Success, orig });
    match a {
        InstallAction::Patch { .. } => {}
        other => return other,
    }
    h.step(slot, targets, InstallEvent::Patched { status: EngineStatus::Success })
}

#[test]
fn init_runs_once_for_many_callers() {
    let mut gate = InitGate::new();
    assert!(!gate.is_initialized());
    assert!(gate.enter());
    assert!(gate.is_initialized());
    for _ in 0..10 {
        assert!(!gate.enter());
        assert!(gate.is_initialized());
    }
}

#[test]
fn slot_read_before_install_fails() {
    let slot = HookSlot::new();
    assert!(!slot.is_set());
    assert_eq!(slot.read(), Err(HookError::OriginalNotCaptured));
    assert_eq!(trampoline_call(&slot, (42, "x")), Err(HookError::OriginalNotCaptured));
}

#[test]
fn slot_is_written_once() {
    let mut slot = HookSlot::new();
    assert_eq!(slot.store(0xAAAA), Ok(()));
    assert_eq!(slot.store(0xBBBB), Err(HookError::AlreadyHooked));
    assert_eq!(slot.read(), Ok(0xAAAA));
}

#[test]
fn end_to_end_install_and_call_through() {
    let mut h = HookInstall::new(0x1234, 0x5000);
    let mut slot = HookSlot::new();
    let mut targets = InstalledTargets::new();
    assert_eq!(h.step(&mut slot, &mut targets, InstallEvent::Begin), InstallAction::RunInit);
    assert_eq!(h.step(&mut slot, &mut targets, InstallEvent::Initialized), InstallAction::LocateModule);
    assert_eq!(
        h.step(&mut slot, &mut targets, InstallEvent::BaseLocated { base: Ok(0x7000_0000) }),
        InstallAction::Register { target: 0x7000_1234, replacement: 0x5000 }
    );
    assert!(!slot.is_set());
    assert_eq!(
        h.step(&mut slot, &mut targets, InstallEvent::Registered { status: EngineStatus::Success, orig: 0xAAAA }),
        InstallAction::Patch { target: 0x7000_1234 }
    );
    assert_eq!(
        h.step(&mut slot, &mut targets, InstallEvent::Patched { status: EngineStatus::Success }),
        InstallAction::Done { orig: 0xAAAA }
    );
    assert_eq!(h.phase(), InstallPhase::Installed { orig: 0xAAAA });
    assert_eq!(slot.read(), Ok(0xAAAA));
    assert_eq!(trampoline_call(&slot, (42, "x")), Ok((0xAAAA, (42, "x"))));
}

#[test]
fn module_not_found_writes_no_slot() {
    let mut h = HookInstall::new(0x1234, 0x5000);
    let mut slot = HookSlot::new();
    let mut targets = InstalledTargets::new();
    let a = install_with(&mut h, &mut slot, &mut targets, Err(HookError::ModuleNotFound), 0xAAAA);
    assert_eq!(a, InstallAction::Fail { error: HookError::ModuleNotFound });
    assert_eq!(h.phase(), InstallPhase::Failed { error: HookError::ModuleNotFound });
    assert!(!slot.is_set());
    assert_eq!(slot.read(), Err(HookError::OriginalNotCaptured));
    // Failure is terminal: later events change nothing.
    assert_eq!(h.step(&mut slot, &mut targets, InstallEvent::Patched { status: EngineStatus::Success }), InstallAction::Ignore);
    assert!(!slot.is_set());
}

#[test]
fn two_hooks_install_independently() {
    let mut a = HookInstall::new(0x1234, 0x5000);
    let mut b = HookInstall::new(0x5678, 0x6000);
    let mut slot_a = HookSlot::new();
    let mut targets = InstalledTargets::new();
    let mut slot_b = HookSlot::new();
    assert_eq!(install_with(&mut a, &mut slot_a, &mut targets, Ok(0x7000_0000), 0xAAAA), InstallAction::Done { orig: 0xAAAA });
    assert_eq!(install_with(&mut b, &mut slot_b, &mut targets, Ok(0x7000_0000), 0xBBBB), InstallAction::Done { orig: 0xBBBB });
    assert_eq!(slot_a.read(), Ok(0xAAAA));
    assert_eq!(slot_b.read(), Ok(0xBBBB));
}

#[test]
fn failing_hook_leaves_other_intact() {
    let mut a = HookInstall::new(0x1234, 0x5000);
    let mut b = HookInstall::new(0x5678, 0x6000);
    let mut slot_a = HookSlot::new();
    let mut targets = InstalledTargets::new();
    let mut slot_b = HookSlot::new();
    assert_eq!(install_with(&mut a, &mut slot_a, &mut targets, Ok(0x7000_0000), 0xAAAA), InstallAction::Done { orig: 0xAAAA });
    b.step(&mut slot_b, &mut targets, InstallEvent::Begin);
    b.step(&mut slot_b, &mut targets, InstallEvent::Initialized);
    b.step(&mut slot_b, &mut targets, InstallEvent::BaseLocated { base: Ok(0x7000_0000) });
    assert_eq!(
        b.step(&mut slot_b, &mut targets, InstallEvent::Registered { status: EngineStatus::ErrorNotExecutable, orig: 0 }),
        InstallAction::Fail { error: HookError::NotExecutable }
    );
    assert_eq!(slot_a.read(), Ok(0xAAAA));
    assert_eq!(slot_b.read(), Err(HookError::OriginalNotCaptured));
}

#[test]
fn offset_overflow_fails_install() {
    let mut h = HookInstall::new(2, 0x5000);
    let mut slot = HookSlot::new();
    let mut targets = InstalledTargets::new();
    let a = install_with(&mut h, &mut slot, &mut targets, Ok(0xFFFF_FFFE), 0xAAAA);
    assert_eq!(a, InstallAction::Fail { error: HookError::OffsetOverflow });
    assert!(!slot.is_set());
}

#[test]
fn null_original_is_a_registration_failure() {
    let mut h = HookInstall::new(0x10, 0x5000);
    let mut slot = HookSlot::new();
    let mut targets = InstalledTargets::new();
    let a = install_with(&mut h, &mut slot, &mut targets, Ok(0x1000), 0);
    assert_eq!(a, InstallAction::Fail { error: HookError::RegistrationFailed });
    assert!(!slot.is_set());
}

#[test]
fn patch_failure_fails_install() {
    let mut h = HookInstall::new(0x10, 0x5000);
    let mut slot = HookSlot::new();
    let mut targets = InstalledTargets::new();
    h.step(&mut slot, &mut targets, InstallEvent::Begin);
    h.step(&mut slot, &mut targets, InstallEvent::Initialized);
    h.step(&mut slot, &mut targets, InstallEvent::BaseLocated { base: Ok(0x1000) });
    h.step(&mut slot, &mut targets, InstallEvent::Registered { status: EngineStatus::Success, orig: 0xAAAA });
    assert_eq!(
        h.step(&mut slot, &mut targets, InstallEvent::Patched { status: EngineStatus::ErrorUnknown }),
        InstallAction::Fail { error: HookError::PatchFailed }
    );
    assert!(!slot.is_set());
}

#[test]
fn slot_already_written_fails_install() {
    let mut h = HookInstall::new(0x10, 0x5000);
    let mut slot = HookSlot::new();
    let mut targets = InstalledTargets::new();
    slot.store(0x1).unwrap();
    assert_eq!(h.step(&mut slot, &mut targets, InstallEvent::Begin), InstallAction::Fail { error: HookError::AlreadyHooked });
    assert_eq!(h.phase(), InstallPhase::Failed { error: HookError::AlreadyHooked });
    assert_eq!(slot.read(), Ok(0x1));
}

#[test]
fn reinstalling_installed_hook_never_calls_engine() {
    let mut first = HookInstall::new(0x1234, 0x5000);
    let mut slot = HookSlot::new();
    let mut targets = InstalledTargets::new();
    assert_eq!(install_with(&mut first, &mut slot, &mut targets, Ok(0x7000_0000), 0xAAAA), InstallAction::Done { orig: 0xAAAA });
    let mut second = HookInstall::new(0x1234, 0x6000);
    let events = [
        InstallEvent::Begin,
        InstallEvent::Initialized,
        InstallEvent::BaseLocated { base: Ok(0x7000_0000) },
        InstallEvent::Registered { status: EngineStatus::Success, orig: 0xBBBB },
        InstallEvent::Patched { status: EngineStatus::Success },
    ];
    let mut actions = Vec::new();
    for ev in events {
        actions.push(second.step(&mut slot, &mut targets, ev));
    }
    assert_eq!(actions[0], InstallAction::Fail { error: HookError::AlreadyHooked });
    for a in &actions {
        assert!(!matches!(a, InstallAction::Register { .. } | InstallAction::Patch { .. } | InstallAction::Done { .. }));
    }
    assert_eq!(second.phase(), InstallPhase::Failed { error: HookError::AlreadyHooked });
    assert_eq!(slot.read(), Ok(0xAAAA));
}

#[test]
fn slot_written_while_locating_stops_before_engine() {
    let mut h = HookInstall::new(0x1234, 0x5000);
    let mut slot = HookSlot::new();
    let mut targets = InstalledTargets::new();
    assert_eq!(h.step(&mut slot, &mut targets, InstallEvent::Begin), InstallAction::RunInit);
    assert_eq!(h.step(&mut slot, &mut targets, InstallEvent::Initialized), InstallAction::LocateModule);
    slot.store(0xAAAA).unwrap();
    assert_eq!(
        h.step(&mut slot, &mut targets, InstallEvent::BaseLocated { base: Ok(0x7000_0000) }),
        InstallAction::Fail { error: HookError::AlreadyHooked }
    );
    assert_eq!(slot.read(), Ok(0xAAAA));
}

#[test]
fn engine_status_mapping() {
    assert_eq!(register_error(EngineStatus::ErrorNotExecutable), HookError::NotExecutable);
    assert_eq!(register_error(EngineStatus::ErrorAlreadyRegistered), HookError::AlreadyHooked);
    assert_eq!(register_error(EngineStatus::ErrorAlreadyHooked), HookError::AlreadyHooked);
    assert_eq!(register_error(EngineStatus::ErrorSoNotFound), HookError::RegistrationFailed);
    assert_eq!(patch_error(EngineStatus::ErrorNotExecutable), HookError::NotExecutable);
    assert_eq!(patch_error(EngineStatus::ErrorAlreadyHooked), HookError::AlreadyHooked);
    assert_eq!(patch_error(EngineStatus::ErrorNotRegistered), HookError::PatchFailed);
}

#[test]
fn events_out_of_order_are_ignored() {
    let mut h = HookInstall::new(0x10, 0x5000);
    let mut slot = HookSlot::new();
    let mut targets = InstalledTargets::new();
    assert_eq!(h.step(&mut slot, &mut targets, InstallEvent::Initialized), InstallAction::Ignore);
    assert_eq!(h.phase(), InstallPhase::Start);
}

#[test]
fn second_hook_at_claimed_target_never_calls_engine() {
    let mut targets = InstalledTargets::new();
    let mut a = HookInstall::new(0x1234, 0x5000);
    let mut slot_a = HookSlot::new();
    assert_eq!(install_with(&mut a, &mut slot_a, &mut targets, Ok(0x7000_0000), 0xAAAA), InstallAction::Done { orig: 0xAAAA });
    assert!(targets.is_claimed(0x7000_1234));
    let mut b = HookInstall::new(0x1234, 0x6000);
    let mut slot_b = HookSlot::new();
    assert_eq!(b.step(&mut slot_b, &mut targets, InstallEvent::Begin), InstallAction::RunInit);
    assert_eq!(b.step(&mut slot_b, &mut targets, InstallEvent::Initialized), InstallAction::LocateModule);
    assert_eq!(
        b.step(&mut slot_b, &mut targets, InstallEvent::BaseLocated { base: Ok(0x7000_0000) }),
        InstallAction::Fail { error: HookError::AlreadyHooked }
    );
    assert_eq!(
        b.step(&mut slot_b, &mut targets, InstallEvent::Registered { status: EngineStatus::Success, orig: 0xBBBB }),
        InstallAction::Ignore
    );
    assert_eq!(slot_a.read(), Ok(0xAAAA));
    assert_eq!(slot_b.read(), Err(HookError::OriginalNotCaptured));
}

#[test]
fn failed_install_keeps_target_claimed() {
    let mut targets = InstalledTargets::new();
    let mut a = HookInstall::new(0x10, 0x5000);
    let mut slot_a = HookSlot::new();
    a.step(&mut slot_a, &mut targets, InstallEvent::Begin);
    a.step(&mut slot_a, &mut targets, InstallEvent::Initialized);
    assert_eq!(
        a.step(&mut slot_a, &mut targets, InstallEvent::BaseLocated { base: Ok(0x1000) }),
        InstallAction::Register { target: 0x1010, replacement: 0x5000 }
    );
    assert_eq!(
        a.step(&mut slot_a, &mut targets, InstallEvent::Registered { status: EngineStatus::ErrorUnknown, orig: 0 }),
        InstallAction::Fail { error: HookError::RegistrationFailed }
    );
    let mut b = HookInstall::new(0x10, 0x6000);
    let mut slot_b = HookSlot::new();
    let r = install_with(&mut b, &mut slot_b, &mut targets, Ok(0x1000), 0xBBBB);
    assert_eq!(r, InstallAction::Fail { error: HookError::AlreadyHooked });
}

#[test]
fn claimed_targets_record() {
    let mut targets = InstalledTargets::new();
    assert!(!targets.is_claimed(7));
    assert!(targets.claim(7));
    assert!(targets.is_claimed(7));
    assert!(!targets.claim(7));
    assert!(targets.claim(8));
    assert!(targets.is_claimed(8) && targets.is_claimed(7) && !targets.is_claimed(9));
}
