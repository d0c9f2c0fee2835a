use vstd::prelude::*;

verus! {

/// An engine subsystem, over the scene state `S`.
pub trait SubSystem<S> {
    /// Runs once after all subsystems are built, before the first tick.
    fn prepare(&mut self, scenery: &mut S);

    /// Runs once per simulation step; `false` asks the engine to stop.
    fn tick(&mut self, scenery: &mut S) -> bool;
}

/// A subsystem together with a record of the calls made on it: how often it was
/// prepared and ticked, and what its last tick returned. Only `prepare` and `tick`,
/// which make those calls, change the record.
pub struct Driven<P> {
    system: P,
    prepares: Ghost<nat>,
    ticks: Ghost<nat>,
    wants_to_run: Ghost<bool>,
}

impl<P> Driven<P> {
    pub closed spec fn spec_system(&self) -> P {
        self.system
    }

    /// How many times the subsystem has been prepared.
    pub closed spec fn prepares(&self) -> nat {
        self.prepares@
    }

    /// How many times the subsystem has been ticked.
    pub closed spec fn ticks(&self) -> nat {
        self.ticks@
    }

    /// What the last tick returned (`true` before the first).
    pub closed spec fn wants_to_run(&self) -> bool {
        self.wants_to_run@
    }

    pub fn new(system: P) -> (r: Self)
        ensures
            r.spec_system() == system,
            r.prepares() == 0,
            r.ticks() == 0,
            r.wants_to_run(),
    {
        Driven { system, prepares: Ghost(0), ticks: Ghost(0), wants_to_run: Ghost(true) }
    }

    pub fn system(&self) -> (r: &P)
        ensures
            *r == self.spec_system(),
    {
        &self.system
    }

    /// Prepares the subsystem once.
    pub fn prepare<S>(&mut self, scenery: &mut S) where P: SubSystem<S>
        ensures
            final(self).prepares() == old(self).prepares() + 1,
            final(self).ticks() == old(self).ticks(),
            final(self).wants_to_run() == old(self).wants_to_run(),
    {
        self.system.prepare(scenery);
        self.prepares = Ghost(self.prepares@ + 1);
    }

    /// Ticks the subsystem once and returns what it returned.
    pub fn tick<S>(&mut self, scenery: &mut S) -> (r: bool) where P: SubSystem<S>
        ensures
            final(self).ticks() == old(self).ticks() + 1,
            final(self).prepares() == old(self).prepares(),
            final(self).wants_to_run() == r,
    {
        let r = self.system.tick(scenery);
        self.ticks = Ghost(self.ticks@ + 1);
        self.wants_to_run = Ghost(r);
        r
    }
}

} // verus!
