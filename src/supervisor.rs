use vstd::prelude::*;
use crate::subsystem::{Driven, SubSystem};

verus! {

#[derive(Clone, Copy, Debug, PartialEq, Eq, Structural)]
pub enum SystemId {
    Platform,
    Memory,
    Graphics,
}

/// One tick the supervisor made, and the value it returned.
#[derive(Clone, Copy, Debug, PartialEq, Eq, Structural)]
pub enum SystemEvent {
    Ticked(SystemId, bool),
}

pub open spec fn is_tick_of(e: SystemEvent, id: SystemId) -> bool {
    match e {
        SystemEvent::Ticked(i, _) => i == id,
    }
}

pub open spec fn tick_result(e: SystemEvent) -> bool {
    match e {
        SystemEvent::Ticked(_, b) => b,
    }
}

/// Index in a history of the first event of round `j`, for rounds starting at `base`.
pub open spec fn round_start(base: int, j: int) -> int {
    base + 3 * j
}

/// The three events from `start` are one tick of each subsystem, in dependency order.
pub open spec fn is_tick_round(h: Seq<SystemEvent>, start: int) -> bool {
    &&& 0 <= start
    &&& start + 3 <= h.len()
    &&& is_tick_of(h[start], SystemId::Platform)
    &&& is_tick_of(h[start + 1], SystemId::Memory)
    &&& is_tick_of(h[start + 2], SystemId::Graphics)
}

/// Every subsystem of the round starting at `start` asked to keep running.
pub open spec fn round_continues(h: Seq<SystemEvent>, start: int) -> bool {
    tick_result(h[start]) && tick_result(h[start + 1]) && tick_result(h[start + 2])
}

/// `after` extends `before` by `cycles + 1` tick rounds: every round but the last
/// continued, and the last stopped unless the cycle counter was exhausted.
pub open spec fn ran(before: Seq<SystemEvent>, after: Seq<SystemEvent>, cycles: nat) -> bool {
    let base = before.len() as int;
    &&& after.len() == base + 3 * (cycles + 1)
    &&& after.subrange(0, base) == before
    &&& forall|j: int| 0 <= j <= cycles ==> is_tick_round(after, #[trigger] round_start(base, j))
    &&& forall|j: int| 0 <= j < cycles ==> round_continues(after, #[trigger] round_start(base, j))
    &&& cycles < u64::MAX ==> !round_continues(after, round_start(base, cycles as int))
}

/// Owns the platform, memory and graphics subsystems and drives them in that order.
pub struct SystemSupervisor<P, M, G> {
    pub platform: Driven<P>,
    pub memory: Driven<M>,
    pub graphics: Driven<G>,
    history: Ghost<Seq<SystemEvent>>,
}

impl<P, M, G> SystemSupervisor<P, M, G> {
    /// Every tick made on the subsystems so far, oldest first, with its result.
    pub closed spec fn history(&self) -> Seq<SystemEvent> {
        self.history@
    }

    pub closed spec fn spec_platform(&self) -> Driven<P> {
        self.platform
    }

    pub closed spec fn spec_memory(&self) -> Driven<M> {
        self.memory
    }

    pub closed spec fn spec_graphics(&self) -> Driven<G> {
        self.graphics
    }

    /// Builds the subsystems in dependency order: platform, then memory, then graphics,
    /// which is handed the platform (it needs the window).
    pub fn initialize<C, FP, FM, FG>(
        cfg: &C,
        make_platform: FP,
        make_memory: FM,
        make_graphics: FG,
    ) -> (r: Self) where FP: FnOnce(&C) -> P, FM: FnOnce(&C) -> M, FG: FnOnce(&C, &P) -> G
        requires
            make_platform.requires((cfg,)),
            make_memory.requires((cfg,)),
            forall|p: &P| make_graphics.requires((cfg, p)),
        ensures
            make_platform.ensures((cfg,), r.spec_platform().spec_system()),
            make_memory.ensures((cfg,), r.spec_memory().spec_system()),
            make_graphics.ensures(
                (cfg, &r.spec_platform().spec_system()),
                r.spec_graphics().spec_system(),
            ),
            r.spec_platform().prepares() == 0 && r.spec_platform().ticks() == 0,
            r.spec_memory().prepares() == 0 && r.spec_memory().ticks() == 0,
            r.spec_graphics().prepares() == 0 && r.spec_graphics().ticks() == 0,
            r.history() == Seq::<SystemEvent>::empty(),
    {
        let platform = make_platform(cfg);
        let memory = make_memory(cfg);
        let graphics = make_graphics(cfg, &platform);
        SystemSupervisor {
            platform: Driven::new(platform),
            memory: Driven::new(memory),
            graphics: Driven::new(graphics),
            history: Ghost(Seq::empty()),
        }
    }

    /// Prepares platform, memory and graphics, in that order, each exactly once.
    pub fn prepare_all<S>(&mut self, scenery: &mut S) where
        P: SubSystem<S>,
        M: SubSystem<S>,
        G: SubSystem<S>,

        ensures
            final(self).spec_platform().prepares() == old(self).spec_platform().prepares() + 1,
            final(self).spec_memory().prepares() == old(self).spec_memory().prepares() + 1,
            final(self).spec_graphics().prepares() == old(self).spec_graphics().prepares() + 1,
            final(self).spec_platform().ticks() == old(self).spec_platform().ticks(),
            final(self).spec_memory().ticks() == old(self).spec_memory().ticks(),
            final(self).spec_graphics().ticks() == old(self).spec_graphics().ticks(),
            final(self).history() == old(self).history(),
    {
        self.platform.prepare(scenery);
        self.memory.prepare(scenery);
        self.graphics.prepare(scenery);
    }

    /// Ticks platform, memory and graphics, in that order and each of them exactly once
    /// whatever the earlier ones returned, and returns whether all three asked to keep
    /// running.
    pub fn tick_all<S>(&mut self, scenery: &mut S) -> (r: bool) where
        P: SubSystem<S>,
        M: SubSystem<S>,
        G: SubSystem<S>,

        ensures
            final(self).spec_platform().ticks() == old(self).spec_platform().ticks() + 1,
            final(self).spec_memory().ticks() == old(self).spec_memory().ticks() + 1,
            final(self).spec_graphics().ticks() == old(self).spec_graphics().ticks() + 1,
            final(self).spec_platform().prepares() == old(self).spec_platform().prepares(),
            final(self).spec_memory().prepares() == old(self).spec_memory().prepares(),
            final(self).spec_graphics().prepares() == old(self).spec_graphics().prepares(),
            final(self).history() == old(self).history() + seq![
                SystemEvent::Ticked(SystemId::Platform, final(self).spec_platform().wants_to_run()),
                SystemEvent::Ticked(SystemId::Memory, final(self).spec_memory().wants_to_run()),
                SystemEvent::Ticked(SystemId::Graphics, final(self).spec_graphics().wants_to_run()),
            ],
            r == (final(self).spec_platform().wants_to_run() && final(self).spec_memory().wants_to_run()
                && final(self).spec_graphics().wants_to_run()),
    {
        let p = self.platform.tick(scenery);
        let m = self.memory.tick(scenery);
        let g = self.graphics.tick(scenery);
        let ghost h = self.history@ + seq![
            SystemEvent::Ticked(SystemId::Platform, p),
            SystemEvent::Ticked(SystemId::Memory, m),
            SystemEvent::Ticked(SystemId::Graphics, g),
        ];
        self.history = Ghost(h);
        p && m && g
    }

    /// Ticks every subsystem until one asks to stop, and returns the number of steps
    /// after which all of them asked to continue (one fewer than the steps executed).
    pub fn run<S>(&mut self, scenery: &mut S) -> (cycles: u64) where
        P: SubSystem<S>,
        M: SubSystem<S>,
        G: SubSystem<S>,

        ensures
            ran(old(self).history(), final(self).history(), cycles as nat),
            final(self).spec_platform().ticks() == old(self).spec_platform().ticks() + cycles + 1,
            final(self).spec_memory().ticks() == old(self).spec_memory().ticks() + cycles + 1,
            final(self).spec_graphics().ticks() == old(self).spec_graphics().ticks() + cycles + 1,
    {
        let ghost h0 = self.history@;
        let ghost base = h0.len() as int;
        let ghost t0 = (
            self.platform.ticks(),
            self.memory.ticks(),
            self.graphics.ticks(),
        );
        let mut cycles: u64 = 0;
        let mut go = self.tick_all(scenery);
        proof {
            assert(self.history@.subrange(0, base) =~= h0);
        }
        while go && cycles < u64::MAX
            invariant
                base == h0.len(),
                self.history().len() == base + 3 * (cycles + 1),
                self.history().subrange(0, base) == h0,
                forall|j: int|
                    0 <= j <= cycles ==> is_tick_round(self.history(), #[trigger] round_start(base, j)),
                forall|j: int|
                    0 <= j < cycles ==> round_continues(self.history(), #[trigger] round_start(base, j)),
                go == round_continues(self.history(), round_start(base, cycles as int)),
                self.platform.ticks() == t0.0 + cycles + 1,
                self.memory.ticks() == t0.1 + cycles + 1,
                self.graphics.ticks() == t0.2 + cycles + 1,
            decreases u64::MAX - cycles,
        {
            let ghost h1 = self.history@;
            cycles = cycles + 1;
            go = self.tick_all(scenery);
            proof {
                let h2 = self.history@;
                assert(h2.subrange(0, h1.len() as int) =~= h1);
                lemma_prefix_agrees(h1, h2);
                lemma_prefix_agrees(h0, h1);
                assert(h2.subrange(0, base) =~= h0);
                assert forall|j: int| 0 <= j <= cycles implies is_tick_round(
                    h2,
                    #[trigger] round_start(base, j),
                ) by {
                    if j < cycles {
                        assert(is_tick_round(h1, round_start(base, j)));
                        assert(h2[round_start(base, j)] == h1[round_start(base, j)]);
                        assert(h2[round_start(base, j) + 1] == h1[round_start(base, j) + 1]);
                        assert(h2[round_start(base, j) + 2] == h1[round_start(base, j) + 2]);
                    }
                }
                assert forall|j: int| 0 <= j < cycles implies round_continues(
                    h2,
                    #[trigger] round_start(base, j),
                ) by {
                    if j < cycles - 1 {
                        assert(round_continues(h1, round_start(base, j)));
                    }
                    assert(is_tick_round(h1, round_start(base, j)));
                    assert(h2[round_start(base, j)] == h1[round_start(base, j)]);
                    assert(h2[round_start(base, j) + 1] == h1[round_start(base, j) + 1]);
                    assert(h2[round_start(base, j) + 2] == h1[round_start(base, j) + 2]);
                }
            }
        }
        cycles
    }
}

proof fn lemma_prefix_agrees(a: Seq<SystemEvent>, b: Seq<SystemEvent>)
    requires
        a.len() <= b.len(),
        b.subrange(0, a.len() as int) == a,
    ensures
        forall|i: int| 0 <= i < a.len() ==> #[trigger] b[i] == a[i],
{
    assert forall|i: int| 0 <= i < a.len() implies #[trigger] b[i] == a[i] by {
        assert(b.subrange(0, a.len() as int)[i] == b[i]);
    }
}

/// When the platform reports a close request on step `t` (counting from one) of a run,
/// the run ends with exactly `t` steps executed, and memory and graphics still ticked on
/// that step.
pub proof fn stop_request_ends_run(before: Seq<SystemEvent>, after: Seq<SystemEvent>, cycles: nat, t: nat)
    requires
        ran(before, after, cycles),
        1 <= t <= cycles + 1,
        !tick_result(after[round_start(before.len() as int, t - 1)]),
    ensures
        cycles + 1 == t,
        is_tick_of(after[round_start(before.len() as int, t - 1)], SystemId::Platform),
        is_tick_of(after[round_start(before.len() as int, t - 1) + 1], SystemId::Memory),
        is_tick_of(after[round_start(before.len() as int, t - 1) + 2], SystemId::Graphics),
        after.len() == before.len() + 3 * t,
{
    let base = before.len() as int;
    assert(is_tick_round(after, round_start(base, t - 1)));
    if t - 1 < cycles {
        assert(round_continues(after, round_start(base, t - 1)));
    }
}

} // verus!
