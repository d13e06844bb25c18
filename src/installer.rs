use vstd::prelude::*;

use crate::address::{absolute, engine_target};
use crate::error::HookError;
use crate::slot::HookSlot;

verus! {

/// A status code of the native hooking engine.
#[derive(Debug, Clone, Copy, PartialEq, Eq, Structural)]
pub enum EngineStatus {
    ErrorUnknown,
    Success,
    ErrorNotInitialized,
    ErrorNotExecutable,
    ErrorNotRegistered,
    ErrorNotHooked,
    ErrorAlreadyRegistered,
    ErrorAlreadyHooked,
    ErrorSoNotFound,
    ErrorFunctionNotFound,
}

/// The error for a failed registration with the engine.
pub open spec fn register_failure(s: EngineStatus) -> HookError {
    match s {
        EngineStatus::ErrorNotExecutable => HookError::NotExecutable,
        EngineStatus::ErrorAlreadyRegistered => HookError::AlreadyHooked,
        EngineStatus::ErrorAlreadyHooked => HookError::AlreadyHooked,
        _ => HookError::RegistrationFailed,
    }
}

/// The error for a failed patch of the target by the engine.
pub open spec fn patch_failure(s: EngineStatus) -> HookError {
    match s {
        EngineStatus::ErrorNotExecutable => HookError::NotExecutable,
        EngineStatus::ErrorAlreadyHooked => HookError::AlreadyHooked,
        _ => HookError::PatchFailed,
    }
}

/// Maps a failed registration status to the library's error.
pub fn register_error(s: EngineStatus) -> (e: HookError)
    ensures
        e == register_failure(s),
{
    match s {
        EngineStatus::ErrorNotExecutable => HookError::NotExecutable,
        EngineStatus::ErrorAlreadyRegistered => HookError::AlreadyHooked,
        EngineStatus::ErrorAlreadyHooked => HookError::AlreadyHooked,
        _ => HookError::RegistrationFailed,
    }
}

/// Maps a failed patch status to the library's error.
pub fn patch_error(s: EngineStatus) -> (e: HookError)
    ensures
        e == patch_failure(s),
{
    match s {
        EngineStatus::ErrorNotExecutable => HookError::NotExecutable,
        EngineStatus::ErrorAlreadyHooked => HookError::AlreadyHooked,
        _ => HookError::PatchFailed,
    }
}

/// Where the installation of one hook stands.
#[derive(Debug, Clone, Copy, PartialEq, Eq, Structural)]
pub enum InstallPhase {
    Start,
    Initializing,
    Locating,
    Registering { target: u32 },
    Patching { target: u32, orig: u64 },
    Installed { orig: u64 },
    Failed { error: HookError },
}

/// What the caller reports back after performing an action.
#[derive(Debug, Clone, Copy)]
pub enum InstallEvent {
    /// Installation is requested.
    Begin,
    /// The process-wide initialization has completed.
    Initialized,
    /// The module's base address, or why it could not be found.
    BaseLocated { base: Result<u64, HookError> },
    /// The engine's answer to the registration, and the original it gave.
    Registered { status: EngineStatus, orig: u64 },
    /// The engine's answer to the patch.
    Patched { status: EngineStatus },
}

/// What the caller is to do next.
#[derive(Debug, Clone, Copy, PartialEq, Eq, Structural)]
pub enum InstallAction {
    /// Pass the process-wide one-time initialization gate.
    RunInit,
    /// Find the target module's base address.
    LocateModule,
    /// Register `replacement` for `target` with the engine.
    Register { target: u32, replacement: u32 },
    /// Have the engine patch `target`.
    Patch { target: u32 },
    /// The hook is installed; `orig` calls the original function.
    Done { orig: u64 },
    /// Installation has failed for good.
    Fail { error: HookError },
    /// The event does not belong to the current phase: nothing changes.
    Ignore,
}

/// The process-wide record of target addresses that some hook has claimed for
/// the engine. A target is claimed once, when a hook is about to register at
/// it, and stays claimed for the rest of the process, whether or not that
/// installation goes through: the engine is asked at most once per address.
pub struct InstalledTargets {
    targets: Vec<u32>,
}

impl InstalledTargets {
    /// The claimed targets.
    pub closed spec fn claimed(&self) -> Set<u32> {
        Set::new(|t: u32| self.targets@.contains(t))
    }

    /// No target is recorded twice.
    pub closed spec fn wf(&self) -> bool {
        self.targets@.no_duplicates()
    }

    /// A record with no target claimed.
    pub fn new() -> (r: InstalledTargets)
        ensures
            r.wf(),
            r.claimed() == Set::<u32>::empty(),
    {
        let r = InstalledTargets { targets: Vec::new() };
        assert(r.claimed() =~= Set::<u32>::empty());
        r
    }

    /// Whether `target` has been claimed.
    pub fn is_claimed(&self, target: u32) -> (r: bool)
        ensures
            r == self.claimed().contains(target),
    {
        let mut i: usize = 0;
        while i < self.targets.len()
            invariant
                i <= self.targets@.len(),
                forall|j: int| 0 <= j < i ==> self.targets@[j] != target,
            decreases self.targets@.len() - i,
        {
            if self.targets[i] == target {
                assert(self.targets@.contains(target));
                return true;
            }
            i = i + 1;
        }
        false
    }

    /// Claims `target`: `true` when it was free and is now claimed, `false`
    /// when it was claimed already, in which case the record is unchanged.
    pub fn claim(&mut self, target: u32) -> (fresh: bool)
        requires
            old(self).wf(),
        ensures
            final(self).wf(),
            fresh == !old(self).claimed().contains(target),
            final(self).claimed() == old(self).claimed().insert(target),
    {
        if self.is_claimed(target) {
            assert(self.claimed() =~= self.claimed().insert(target));
            false
        } else {
            let ghost before = self.targets@;
            self.targets.push(target);
            assert(self.targets@ =~= before.push(target));
            assert forall|t: u32| #[trigger] self.targets@.contains(t) == (before.contains(t) || t
                == target) by {
                if self.targets@.contains(t) {
                    let k = choose|k: int| 0 <= k < self.targets@.len() && self.targets@[k] == t;
                    if k < before.len() {
                        assert(before[k] == t);
                    }
                }
                if before.contains(t) {
                    let k = choose|k: int| 0 <= k < before.len() && before[k] == t;
                    assert(self.targets@[k] == t);
                }
                if t == target {
                    assert(self.targets@[before.len() as int] == t);
                }
            }
            assert(self.claimed() =~= old(self).claimed().insert(target));
            assert forall|a: int, b: int|
                0 <= a < b < self.targets@.len() implies self.targets@[a] != self.targets@[b] by {
                if b == before.len() {
                    assert(before.contains(before[a]));
                }
            }
            true
        }
    }
}

/// One step of a hook's installation: the next phase, the slot's contents,
/// the claimed targets and the action, from the current phase, slot and
/// claimed targets, the hook's offset and replacement address, and the event
/// reported. Nothing is registered for a hook whose slot is written, nor at a
/// target that some hook has claimed already.
pub open spec fn next(
    phase: InstallPhase,
    slot: Option<u64>,
    claimed: Set<u32>,
    offset: u32,
    replacement: u32,
    ev: InstallEvent,
) -> (InstallPhase, Option<u64>, Set<u32>, InstallAction) {
    let already = (
        InstallPhase::Failed { error: HookError::AlreadyHooked },
        slot,
        claimed,
        InstallAction::Fail { error: HookError::AlreadyHooked },
    );
    match (phase, ev) {
        (InstallPhase::Start, InstallEvent::Begin) => if slot is Some {
            already
        } else {
            (InstallPhase::Initializing, slot, claimed, InstallAction::RunInit)
        },
        (InstallPhase::Initializing, InstallEvent::Initialized) => (
            InstallPhase::Locating,
            slot,
            claimed,
            InstallAction::LocateModule,
        ),
        (InstallPhase::Locating, InstallEvent::BaseLocated { base }) => if slot is Some {
            already
        } else {
            match base {
                Err(e) => (
                    InstallPhase::Failed { error: e },
                    slot,
                    claimed,
                    InstallAction::Fail { error: e },
                ),
                Ok(b) => if absolute(b, offset) > u32::MAX {
                    (
                        InstallPhase::Failed { error: HookError::OffsetOverflow },
                        slot,
                        claimed,
                        InstallAction::Fail { error: HookError::OffsetOverflow },
                    )
                } else if claimed.contains(absolute(b, offset) as u32) {
                    already
                } else {
                    let target = absolute(b, offset) as u32;
                    (
                        InstallPhase::Registering { target },
                        slot,
                        claimed.insert(target),
                        InstallAction::Register { target, replacement },
                    )
                },
            }
        },
        (InstallPhase::Registering { target }, InstallEvent::Registered { status, orig }) => {
            if status != EngineStatus::Success {
                let e = register_failure(status);
                (InstallPhase::Failed { error: e }, slot, claimed, InstallAction::Fail { error: e })
            } else if orig == 0 {
                (
                    InstallPhase::Failed { error: HookError::RegistrationFailed },
                    slot,
                    claimed,
                    InstallAction::Fail { error: HookError::RegistrationFailed },
                )
            } else {
                (
                    InstallPhase::Patching { target, orig },
                    slot,
                    claimed,
                    InstallAction::Patch { target },
                )
            }
        },
        (InstallPhase::Patching { target, orig }, InstallEvent::Patched { status }) => {
            if status != EngineStatus::Success {
                let e = patch_failure(status);
                (InstallPhase::Failed { error: e }, slot, claimed, InstallAction::Fail { error: e })
            } else if slot is Some {
                already
            } else {
                (InstallPhase::Installed { orig }, Some(orig), claimed, InstallAction::Done { orig })
            }
        },
        _ => (phase, slot, claimed, InstallAction::Ignore),
    }
}

/// The installation of one hook at `offset` into the target module, with the
/// trampoline at `replacement`.
pub struct HookInstall {
    offset: u32,
    replacement: u32,
    phase: InstallPhase,
}

impl HookInstall {
    pub closed spec fn spec_offset(&self) -> u32 {
        self.offset
    }

    pub closed spec fn spec_replacement(&self) -> u32 {
        self.replacement
    }

    pub closed spec fn spec_phase(&self) -> InstallPhase {
        self.phase
    }

    /// An installation that has not begun.
    pub fn new(offset: u32, replacement: u32) -> (h: HookInstall)
        ensures
            h.spec_offset() == offset,
            h.spec_replacement() == replacement,
            h.spec_phase() == InstallPhase::Start,
    {
        HookInstall { offset, replacement, phase: InstallPhase::Start }
    }

    /// The current phase.
    pub fn phase(&self) -> (p: InstallPhase)
        ensures
            p == self.spec_phase(),
    {
        self.phase
    }

    fn fail(&mut self, e: HookError) -> (a: InstallAction)
        ensures
            final(self).spec_offset() == old(self).spec_offset(),
            final(self).spec_replacement() == old(self).spec_replacement(),
            final(self).spec_phase() == (InstallPhase::Failed { error: e }),
            a == (InstallAction::Fail { error: e }),
    {
        self.phase = InstallPhase::Failed { error: e };
        InstallAction::Fail { error: e }
    }

    /// Takes one step on `ev`, claiming the target in `claimed` before asking
    /// for registration, and writing `slot` when the hook is installed.
    pub fn step(&mut self, slot: &mut HookSlot, claimed: &mut InstalledTargets, ev: InstallEvent) -> (a:
        InstallAction)
        requires
            old(claimed).wf(),
        ensures
            final(claimed).wf(),
            final(self).spec_offset() == old(self).spec_offset(),
            final(self).spec_replacement() == old(self).spec_replacement(),
            (final(self).spec_phase(), final(slot).captured(), final(claimed).claimed(), a) == next(
                old(self).spec_phase(),
                old(slot).captured(),
                old(claimed).claimed(),
                old(self).spec_offset(),
                old(self).spec_replacement(),
                ev,
            ),
    {
        match (self.phase, ev) {
            (InstallPhase::Start, InstallEvent::Begin) => {
                if slot.is_set() {
                    self.fail(HookError::AlreadyHooked)
                } else {
                    self.phase = InstallPhase::Initializing;
                    InstallAction::RunInit
                }
            },
            (InstallPhase::Initializing, InstallEvent::Initialized) => {
                self.phase = InstallPhase::Locating;
                InstallAction::LocateModule
            },
            (InstallPhase::Locating, InstallEvent::BaseLocated { base }) => {
                if slot.is_set() {
                    return self.fail(HookError::AlreadyHooked);
                }
                let r = match base {
                    Err(e) => Err(e),
                    Ok(b) => engine_target(b, self.offset),
                };
                match r {
                    Err(e) => self.fail(e),
                    Ok(target) => {
                        if claimed.claim(target) {
                            self.phase = InstallPhase::Registering { target };
                            InstallAction::Register { target, replacement: self.replacement }
                        } else {
                            self.fail(HookError::AlreadyHooked)
                        }
                    },
                }
            },
            (InstallPhase::Registering { target }, InstallEvent::Registered { status, orig }) => {
                if status != EngineStatus::Success {
                    let e = register_error(status);
                    self.fail(e)
                } else if orig == 0 {
                    self.fail(HookError::RegistrationFailed)
                } else {
                    self.phase = InstallPhase::Patching { target, orig };
                    InstallAction::Patch { target }
                }
            },
            (InstallPhase::Patching { target, orig }, InstallEvent::Patched { status }) => {
                if status != EngineStatus::Success {
                    let e = patch_error(status);
                    self.fail(e)
                } else {
                    match slot.store(orig) {
                        Ok(()) => {
                            self.phase = InstallPhase::Installed { orig };
                            InstallAction::Done { orig }
                        },
                        Err(e) => self.fail(e),
                    }
                }
            },
            _ => InstallAction::Ignore,
        }
    }
}

} // verus!

verus! {

/// The phase, slot and claimed targets after the events `evs`, in order.
pub open spec fn run(
    phase: InstallPhase,
    slot: Option<u64>,
    claimed: Set<u32>,
    offset: u32,
    replacement: u32,
    evs: Seq<InstallEvent>,
) -> (InstallPhase, Option<u64>, Set<u32>)
    decreases evs.len(),
{
    if evs.len() == 0 {
        (phase, slot, claimed)
    } else {
        let (p, s, c, _a) = next(phase, slot, claimed, offset, replacement, evs[0]);
        run(p, s, c, offset, replacement, evs.drop_first())
    }
}

/// The events of an installation that goes through: the module is found at
/// `base`, and the engine registers the hook, hands back `orig` and patches.
pub open spec fn success_events(base: u64, orig: u64) -> Seq<InstallEvent> {
    seq![
        InstallEvent::Begin,
        InstallEvent::Initialized,
        InstallEvent::BaseLocated { base: Ok(base) },
        InstallEvent::Registered { status: EngineStatus::Success, orig },
        InstallEvent::Patched { status: EngineStatus::Success },
    ]
}

/// The slot holds an original exactly when the phase says it was installed.
pub open spec fn slot_agrees(phase: InstallPhase, slot: Option<u64>) -> bool {
    match phase {
        InstallPhase::Installed { orig } => slot == Some(orig),
        _ => slot is None,
    }
}

/// An installation that goes through, at a target no hook has claimed yet,
/// registers the trampoline at the module's base plus the hook's offset, ends
/// installed with the engine's original in its own slot, and leaves the target
/// claimed. Each hook's run reads only its own offset, replacement, slot and
/// events, and the shared record of claimed targets, so hooks at distinct
/// targets are installed independently of each other.
pub proof fn law_install_succeeds(
    offset: u32,
    replacement: u32,
    claimed: Set<u32>,
    base: u64,
    orig: u64,
)
    requires
        absolute(base, offset) <= u32::MAX,
        !claimed.contains(absolute(base, offset) as u32),
        orig != 0,
    ensures
        next(
            InstallPhase::Locating,
            None,
            claimed,
            offset,
            replacement,
            InstallEvent::BaseLocated { base: Ok(base) },
        ).3 == (InstallAction::Register { target: absolute(base, offset) as u32, replacement }),
        run(InstallPhase::Start, None, claimed, offset, replacement, success_events(base, orig))
            == (InstallPhase::Installed { orig }, Some(orig), claimed.insert(
            absolute(base, offset) as u32,
        )),
{
    let evs = success_events(base, orig);
    let target = absolute(base, offset) as u32;
    let c2 = claimed.insert(target);
    let done = (InstallPhase::Installed { orig }, Some(orig), c2);
    assert(evs.drop_first() =~= evs.subrange(1, 5));
    assert(evs.subrange(1, 5).drop_first() =~= evs.subrange(2, 5));
    assert(evs.subrange(2, 5).drop_first() =~= evs.subrange(3, 5));
    assert(evs.subrange(3, 5).drop_first() =~= evs.subrange(4, 5));
    assert(evs.subrange(4, 5).drop_first() =~= Seq::<InstallEvent>::empty());
    assert(run(InstallPhase::Installed { orig }, Some(orig), c2, offset, replacement, Seq::empty())
        == done);
    assert(run(InstallPhase::Patching { target, orig }, None, c2, offset, replacement, evs.subrange(4, 5))
        == done);
    assert(run(InstallPhase::Registering { target }, None, c2, offset, replacement, evs.subrange(3, 5))
        == done);
    assert(run(InstallPhase::Locating, None, claimed, offset, replacement, evs.subrange(2, 5)) == done);
    assert(run(InstallPhase::Initializing, None, claimed, offset, replacement, evs.subrange(1, 5))
        == done);
}

/// The engine is asked to register at a target only by the step that claims
/// it: a `Register` action names a target that was free and is claimed after
/// the step. Claimed targets are never released, so across all hooks sharing
/// one record the engine is asked at most once per address; a hook whose
/// target is claimed already fails with `AlreadyHooked` without a `Register`.
pub proof fn law_register_claims_target(
    phase: InstallPhase,
    slot: Option<u64>,
    claimed: Set<u32>,
    offset: u32,
    replacement: u32,
    ev: InstallEvent,
)
    ensures
        claimed.subset_of(next(phase, slot, claimed, offset, replacement, ev).2),
        match next(phase, slot, claimed, offset, replacement, ev).3 {
            InstallAction::Register { target, .. } => !claimed.contains(target) && next(
                phase,
                slot,
                claimed,
                offset,
                replacement,
                ev,
            ).2.contains(target),
            _ => true,
        },
        (phase is Locating && slot is None && ev is BaseLocated && ev->base is Ok && absolute(
            ev->base->Ok_0,
            offset,
        ) <= u32::MAX && claimed.contains(absolute(ev->base->Ok_0, offset) as u32)) ==> next(
            phase,
            slot,
            claimed,
            offset,
            replacement,
            ev,
        ).3 == (InstallAction::Fail { error: HookError::AlreadyHooked }),
{
}

/// The engine is never asked to register or patch for a hook whose slot
/// already holds an original: every step from such a slot either fails with
/// `AlreadyHooked`, is ignored, or ends a phase without an engine action.
pub proof fn law_no_engine_call_once_installed(
    phase: InstallPhase,
    slot: Option<u64>,
    claimed: Set<u32>,
    offset: u32,
    replacement: u32,
    ev: InstallEvent,
)
    requires
        slot is Some,
        !(phase is Registering),
        !(phase is Patching),
    ensures
        !(next(phase, slot, claimed, offset, replacement, ev).3 is Register),
        !(next(phase, slot, claimed, offset, replacement, ev).3 is Patch),
        !(next(phase, slot, claimed, offset, replacement, ev).0 is Registering),
        !(next(phase, slot, claimed, offset, replacement, ev).0 is Patching),
{
}

/// Installing a hook whose slot already holds `orig` never gets as far as the
/// engine, whatever the events: the run never enters the registering or
/// patching phase (so, by `law_no_engine_call_once_installed`, no step of it
/// asks for `Register` or `Patch`), and the slot keeps `orig`.
pub proof fn law_installed_hook_not_reinstalled(
    phase: InstallPhase,
    orig: u64,
    claimed: Set<u32>,
    offset: u32,
    replacement: u32,
    evs: Seq<InstallEvent>,
)
    requires
        !(phase is Registering),
        !(phase is Patching),
    ensures
        !(run(phase, Some(orig), claimed, offset, replacement, evs).0 is Registering),
        !(run(phase, Some(orig), claimed, offset, replacement, evs).0 is Patching),
        run(phase, Some(orig), claimed, offset, replacement, evs).1 == Some(orig),
    decreases evs.len(),
{
    if evs.len() > 0 {
        let (p, s, c, _a) = next(phase, Some(orig), claimed, offset, replacement, evs[0]);
        assert(s == Some(orig));
        law_installed_hook_not_reinstalled(p, orig, c, offset, replacement, evs.drop_first());
    }
}

/// Whatever the events, a hook's slot is written only by a completed
/// installation, and then holds the original that installation captured: a
/// failed installation (the module not found, an overflow, a claimed target,
/// an engine error) never writes it.
pub proof fn law_slot_written_only_when_installed(
    claimed: Set<u32>,
    offset: u32,
    replacement: u32,
    evs: Seq<InstallEvent>,
)
    ensures
        slot_agrees(
            run(InstallPhase::Start, None, claimed, offset, replacement, evs).0,
            run(InstallPhase::Start, None, claimed, offset, replacement, evs).1,
        ),
{
    lemma_run_keeps_agreement(InstallPhase::Start, None, claimed, offset, replacement, evs);
}

proof fn lemma_run_keeps_agreement(
    phase: InstallPhase,
    slot: Option<u64>,
    claimed: Set<u32>,
    offset: u32,
    replacement: u32,
    evs: Seq<InstallEvent>,
)
    requires
        slot_agrees(phase, slot),
    ensures
        slot_agrees(
            run(phase, slot, claimed, offset, replacement, evs).0,
            run(phase, slot, claimed, offset, replacement, evs).1,
        ),
    decreases evs.len(),
{
    if evs.len() > 0 {
        let (p, s, c, _a) = next(phase, slot, claimed, offset, replacement, evs[0]);
        assert(slot_agrees(p, s));
        lemma_run_keeps_agreement(p, s, c, offset, replacement, evs.drop_first());
    }
}

} // verus!
