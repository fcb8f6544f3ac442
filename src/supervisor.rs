use vstd::prelude::*;

verus! {

/// Where the supervisor of the two polling loops stands. `Retired` is reached
/// only when every generation has been handed out: no loop acts any more.
#[derive(PartialEq, Eq, Structural, Clone, Copy, Debug)]
pub enum SupervisorPhase {
    Idle,
    Starting,
    Running,
    Restarting,
    Retired,
}

/// What the caller must do on a ready or reconnected signal: cancel the loops
/// it started before, if asked, and, if `spawn` holds, start new ones that
/// carry `generation`.
#[derive(PartialEq, Eq, Structural, Clone, Copy, Debug)]
pub struct RestartOrder {
    pub cancel_previous: bool,
    pub spawn: bool,
    pub generation: u64,
}

/// Owns the lifecycle of the polling loops. Each start hands out a new
/// generation; only loops of the current generation may touch shared state,
/// so at most one instance of each loop acts at a time.
#[derive(PartialEq, Eq, Structural, Clone, Copy, Debug)]
pub struct WatcherSupervisor {
    pub phase: SupervisorPhase,
    pub generation: u64,
}

impl WatcherSupervisor {
    /// Whether a loop of generation `g` may act.
    pub open spec fn admits(&self, g: u64) -> bool {
        self.phase != SupervisorPhase::Idle && self.phase != SupervisorPhase::Retired && g
            == self.generation
    }

    /// The supervisor after a ready or reconnected signal.
    pub open spec fn restarted(self) -> WatcherSupervisor {
        if self.phase == SupervisorPhase::Retired || self.generation == u64::MAX {
            WatcherSupervisor { phase: SupervisorPhase::Retired, generation: self.generation }
        } else if self.phase == SupervisorPhase::Idle {
            WatcherSupervisor { phase: SupervisorPhase::Starting, generation: (self.generation + 1) as u64 }
        } else {
            WatcherSupervisor { phase: SupervisorPhase::Restarting, generation: (self.generation + 1) as u64 }
        }
    }

    /// The supervisor once the loops it ordered were spawned.
    pub open spec fn spawned(self) -> WatcherSupervisor {
        if self.phase == SupervisorPhase::Idle || self.phase == SupervisorPhase::Retired {
            self
        } else {
            WatcherSupervisor { phase: SupervisorPhase::Running, generation: self.generation }
        }
    }

    /// No loop started yet.
    pub fn new() -> (r: WatcherSupervisor)
        ensures
            r.phase == SupervisorPhase::Idle,
            r.generation == 0,
    {
        WatcherSupervisor { phase: SupervisorPhase::Idle, generation: 0 }
    }

    /// Whether a loop of generation `g` may act.
    pub fn is_current(&self, g: u64) -> (r: bool)
        ensures
            r == self.admits(g),
    {
        self.phase != SupervisorPhase::Idle && self.phase != SupervisorPhase::Retired && g
            == self.generation
    }

    /// Handles a ready or reconnected signal: a first start from `Idle`, a
    /// restart otherwise, with a new generation either way. When no new
    /// generation is left, every loop is retired and none is started.
    pub fn on_ready(&mut self) -> (r: RestartOrder)
        ensures
            *final(self) == old(self).restarted(),
            r.cancel_previous == (old(self).phase != SupervisorPhase::Idle),
            r.spawn == (final(self).phase != SupervisorPhase::Retired),
            r.generation == final(self).generation,
    {
        let cancel_previous = self.phase != SupervisorPhase::Idle;
        if self.phase == SupervisorPhase::Retired || self.generation == u64::MAX {
            self.phase = SupervisorPhase::Retired;
            return RestartOrder { cancel_previous, spawn: false, generation: self.generation };
        }
        self.phase =
            if cancel_previous {
                SupervisorPhase::Restarting
            } else {
                SupervisorPhase::Starting
            };
        self.generation = self.generation + 1;
        RestartOrder { cancel_previous, spawn: true, generation: self.generation }
    }

    /// Records that the loops were spawned; whichever of them started, the
    /// supervisor runs on.
    pub fn on_spawned(&mut self)
        ensures
            *final(self) == old(self).spawned(),
    {
        if self.phase != SupervisorPhase::Idle && self.phase != SupervisorPhase::Retired {
            self.phase = SupervisorPhase::Running;
        }
    }
}

/// After a restart, no loop of an earlier generation is admitted again,
/// neither while the new loops start nor once they run; and since no step
/// lowers the generation, no later restart admits it either.
pub proof fn restart_retires_earlier_generations(before: WatcherSupervisor, g: u64)
    requires
        g <= before.generation,
    ensures
        !before.restarted().admits(g),
        !before.restarted().spawned().admits(g),
        before.restarted().generation >= before.generation,
        before.spawned().generation == before.generation,
{
}

} // verus!
