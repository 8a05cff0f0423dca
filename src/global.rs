//! The registry behind a spin lock, shareable between cores.
use vstd::prelude::*;
use spin::mutex::{Mutex, MutexGuard};
use spin::relax::Spin;
use crate::context::FlantermContext;
use crate::registry::{init_global_flanterm, with_global_flanterm, GlobalFlantermState};

verus! {

#[verifier::external_type_specification]
#[verifier::external_body]
#[verifier::reject_recursive_types(T)]
#[verifier::reject_recursive_types(R)]
pub struct ExSpinMutex<T: ?Sized, R>(Mutex<T, R>);

#[verifier::external_type_specification]
#[verifier::external_body]
pub struct ExSpin(Spin);

#[verifier::external_type_specification]
#[verifier::external_body]
#[verifier::reject_recursive_types(T)]
pub struct ExSpinMutexGuard<'a, T: 'a + ?Sized>(MutexGuard<'a, T>);

/// Relies on spin::mutex::Mutex::new: a free lock around `state`.
#[verifier::external_body]
fn new_lock(state: GlobalFlantermState) -> Mutex<GlobalFlantermState> {
    Mutex::new(state)
}

/// Relies on spin::mutex::Mutex::lock: busy-waits until the lock is held; the
/// guard releases it when dropped.
#[verifier::external_body]
fn acquire<'a>(lock: &'a Mutex<GlobalFlantermState>) -> MutexGuard<'a, GlobalFlantermState> {
    lock.lock()
}

/// Relies on DerefMut of spin::mutex::MutexGuard: exclusive access to the
/// locked state while the guard lives.
#[verifier::external_body]
fn guarded<'a, 'b>(guard: &'b mut MutexGuard<'a, GlobalFlantermState>) -> &'b mut GlobalFlantermState {
    &mut **guard
}

/// The process-wide registry: at most one handle, behind a spin lock. Every
/// access runs entirely inside the critical section, so calls from different
/// cores never interleave their engine calls.
pub struct FlantermRegistry {
    state: Mutex<GlobalFlantermState>,
}

impl FlantermRegistry {
    /// A registry with nothing installed.
    pub fn new() -> Self {
        FlantermRegistry { state: new_lock(GlobalFlantermState::new()) }
    }

    /// Installs `ctx` under the lock, handing back the handle it replaces.
    pub fn install(&self, ctx: FlantermContext) -> Option<FlantermContext> {
        let mut guard = acquire(&self.state);
        let previous = init_global_flanterm(guarded(&mut guard), ctx);
        previous
    }

    /// Runs `f` on the installed handle while holding the lock and returns
    /// exactly what `f` returned; `None`, without running `f`, when nothing is
    /// installed. What is installed depends on other cores, so whether a handle
    /// is found is not stated here. `f` must not use the registry.
    pub fn with_instance<F, R>(&self, f: F) -> (r: Option<R>) where
        F: FnOnce(&mut FlantermContext) -> R,
        requires
            forall|c: &mut FlantermContext| f.requires((c,)),
        ensures
            r is Some ==> exists|c: &mut FlantermContext, v: R|
                r == Some(v) && #[trigger] f.ensures((c,), v),
    {
        let mut guard = acquire(&self.state);
        let r = with_global_flanterm(guarded(&mut guard), f);
        r
    }
}

} // verus!
