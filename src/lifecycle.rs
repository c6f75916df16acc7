use vstd::prelude::*;

verus! {

/// The states of the process-wide tracer provider.
#[derive(PartialEq, Eq, Structural, Clone, Copy, Debug)]
pub enum LifecycleState {
    Uninitialized,
    Active,
    ShuttingDown,
    Terminated,
}

/// What the caller must do after asking for shutdown.
#[derive(PartialEq, Eq, Structural, Clone, Copy, Debug)]
pub enum ShutdownAction {
    /// Flush buffered spans and release the provider, then report completion.
    FlushAndRelease,
    /// Nothing is left to do.
    Nothing,
}

#[derive(PartialEq, Eq, Structural, Clone, Copy, Debug)]
pub enum LifecycleError {
    /// The exporter could not be built; the process cannot run untraced.
    ExporterUnavailable,
    /// A provider was already installed once.
    AlreadyInstalled,
}

/// Owner of the tracer provider's lifecycle: installed once, shut down once.
pub struct TracerLifecycle {
    pub state: LifecycleState,
}

pub open spec fn install_spec(s: LifecycleState, exporter_built: bool) -> (LifecycleState, Result<(), LifecycleError>) {
    if s != LifecycleState::Uninitialized {
        (s, Err(LifecycleError::AlreadyInstalled))
    } else if exporter_built {
        (LifecycleState::Active, Ok(()))
    } else {
        (s, Err(LifecycleError::ExporterUnavailable))
    }
}

pub open spec fn shutdown_spec(s: LifecycleState) -> (LifecycleState, ShutdownAction) {
    match s {
        LifecycleState::Active => (LifecycleState::ShuttingDown, ShutdownAction::FlushAndRelease),
        LifecycleState::Uninitialized => (LifecycleState::Terminated, ShutdownAction::Nothing),
        _ => (s, ShutdownAction::Nothing),
    }
}

pub open spec fn complete_spec(s: LifecycleState) -> LifecycleState {
    if s == LifecycleState::ShuttingDown {
        LifecycleState::Terminated
    } else {
        s
    }
}

impl TracerLifecycle {
    pub fn new() -> (r: TracerLifecycle)
        ensures
            r.state == LifecycleState::Uninitialized,
    {
        TracerLifecycle { state: LifecycleState::Uninitialized }
    }

    /// Records the outcome of building the exporter at startup.
    pub fn install(&mut self, exporter_built: bool) -> (r: Result<(), LifecycleError>)
        ensures
            (final(self).state, r) == install_spec(old(self).state, exporter_built),
    {
        if self.state != LifecycleState::Uninitialized {
            Err(LifecycleError::AlreadyInstalled)
        } else if exporter_built {
            self.state = LifecycleState::Active;
            Ok(())
        } else {
            Err(LifecycleError::ExporterUnavailable)
        }
    }

    /// Whether batches can be traced now.
    pub fn is_active(&self) -> (r: bool)
        ensures
            r == (self.state == LifecycleState::Active),
    {
        self.state == LifecycleState::Active
    }

    /// Asks for shutdown. Never fails, in any state, whether or not spans were
    /// ever recorded; only an active provider needs flushing.
    pub fn shutdown(&mut self) -> (r: ShutdownAction)
        ensures
            (final(self).state, r) == shutdown_spec(old(self).state),
    {
        match self.state {
            LifecycleState::Active => {
                self.state = LifecycleState::ShuttingDown;
                ShutdownAction::FlushAndRelease
            },
            LifecycleState::Uninitialized => {
                self.state = LifecycleState::Terminated;
                ShutdownAction::Nothing
            },
            _ => ShutdownAction::Nothing,
        }
    }

    /// Reports that flushing and release have finished.
    pub fn shutdown_complete(&mut self)
        ensures
            final(self).state == complete_spec(old(self).state),
    {
        if self.state == LifecycleState::ShuttingDown {
            self.state = LifecycleState::Terminated;
        }
    }
}

/// Shutting down is idempotent: once shutdown has been asked for and completed, a
/// second request changes nothing and asks for no more work, and a provider is
/// flushed at most once.
pub proof fn lemma_shutdown_idempotent(s: LifecycleState)
    ensures
        ({
            let t = complete_spec(shutdown_spec(s).0);
            &&& t == LifecycleState::Terminated
            &&& shutdown_spec(t) == (t, ShutdownAction::Nothing)
            &&& complete_spec(shutdown_spec(t).0) == t
        }),
{
}

/// A provider is installed at most once: after any install attempt has succeeded,
/// every further attempt is refused and leaves the state unchanged.
pub proof fn lemma_install_once(s: LifecycleState, first: bool, second: bool)
    requires
        install_spec(s, first).1 is Ok,
    ensures
        install_spec(install_spec(s, first).0, second) == (
            LifecycleState::Active,
            Err::<(), LifecycleError>(LifecycleError::AlreadyInstalled),
        ),
{
}

} // verus!
