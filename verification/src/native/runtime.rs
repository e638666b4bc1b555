//! The guard of the foreign call subsystem, which is initialized once for
//! the process and shared by every session that is alive.

use vstd::prelude::*;
use crate::error::{Error, ErrorView};

verus! {

/// The process-wide state of the subsystem: whether it was initialized, and
/// how many guards are alive.
///
/// The host keeps one value of this type for the process and hands it to
/// [`ComRuntime::new`] and [`ComRuntime::release`] under mutual exclusion.
#[derive(Debug)]
pub struct RuntimeState {
    initialized: bool,
    guards: u64,
}

/// A guard: while one is alive, the subsystem is not torn down.
#[derive(Debug)]
pub struct ComRuntime {
    _guard: (),
}

impl DeepView for ComRuntime {
    type V = ComRuntime;

    open spec fn deep_view(&self) -> ComRuntime {
        *self
    }
}

impl RuntimeState {
    /// Whether the subsystem was initialized.
    pub closed spec fn initialized(self) -> bool {
        self.initialized
    }

    /// The number of guards that are alive.
    pub closed spec fn guards(self) -> nat {
        self.guards as nat
    }

    /// The state in which both operations keep it: guards are alive only
    /// after the subsystem was initialized.
    pub open spec fn wf(self) -> bool {
        self.guards() > 0 ==> self.initialized()
    }

    /// The state of a process that has not touched the subsystem.
    pub fn new() -> (state: RuntimeState)
        ensures
            !state.initialized(),
            state.guards() == 0,
            state.wf(),
    {
        RuntimeState { initialized: false, guards: 0 }
    }

    /// Whether the next guard has to initialize the subsystem first.
    pub fn needs_init(&self) -> (needed: bool)
        ensures
            needed == !self.initialized(),
    {
        !self.initialized
    }

    /// The number of guards that are alive.
    pub fn live_guards(&self) -> (count: u64)
        ensures
            count == self.guards(),
    {
        self.guards
    }
}

impl ComRuntime {
    /// Acquires a guard.
    ///
    /// `status` is the status with which the host's attempt to initialize
    /// the subsystem ended; it is read only if [`RuntimeState::needs_init`]
    /// says that the attempt was due. A negative status is a failure: no
    /// guard is made and the state stays as it was. Otherwise the subsystem
    /// counts as initialized from now on, and one more guard is alive.
    pub fn new(state: &mut RuntimeState, status: i32) -> (result: Result<ComRuntime, Error>)
        requires
            old(state).wf(),
            old(state).guards() < u64::MAX,
        ensures
            final(state).wf(),
            match result {
                Ok(_) => (old(state).initialized() || status >= 0) && final(state).initialized()
                    && final(state).guards() == old(state).guards() + 1,
                Err(e) => !old(state).initialized() && status < 0 && e@
                    == ErrorView::ComRuntimeInitFailed(status) && *final(state) == *old(state),
            },
    {
        match Self::init(state, status) {
            Err(e) => Err(e),
            Ok(_) => {
                state.initialized = true;
                state.guards = state.guards + 1;
                Ok(ComRuntime { _guard: () })
            },
        }
    }

    /// Decides whether the subsystem is ready for one more guard.
    fn init(state: &RuntimeState, status: i32) -> (result: Result<(), Error>)
        ensures
            match result {
                Ok(_) => state.initialized() || status >= 0,
                Err(e) => !state.initialized() && status < 0 && e@
                    == ErrorView::ComRuntimeInitFailed(status),
            },
    {
        if state.initialized {
            return Ok(());
        }
        if status < 0 {
            return Err(Error::ComRuntimeInitFailed(status));
        }
        Ok(())
    }

    /// Gives the guard up, and says whether the host has to tear the
    /// subsystem down now: that is so when the last guard is given up.
    pub fn release(self, state: &mut RuntimeState) -> (teardown: bool)
        requires
            old(state).wf(),
        ensures
            final(state).wf(),
            final(state).initialized() == old(state).initialized(),
            final(state).guards() == if old(state).guards() > 0 {
                old(state).guards() - 1
            } else {
                0
            },
            teardown == (old(state).guards() == 1),
    {
        if state.guards == 0 {
            return false;
        }
        state.guards = state.guards - 1;
        state.guards == 0
    }
}

} // verus!
