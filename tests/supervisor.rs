use ronin::subsystem::SubSystem;
use ronin::supervisor::SystemSupervisor;
use std::cell::RefCell;

struct Probe {
    name: &'static str,
    stop_on: Option<u32>,
    ticks: u32,
    prepared: bool,
}

impl Probe {
    fn new(name: &'static str, stop_on: Option<u32>) -> Self {
        Probe { name, stop_on, ticks: 0, prepared: false }
    }
}

impl SubSystem<Vec<String>> for Probe {
    fn prepare(&mut self, log: &mut Vec<String>) {
        self.prepared = true;
        log.push(format!("prepare {}", self.name));
    }

    fn tick(&mut self, log: &mut Vec<String>) -> bool {
        self.ticks += 1;
        log.push(format!("tick {}", self.name));
        self.stop_on != Some(self.ticks)
    }
}

/// Stop steps of the platform and the graphics probes.
type Stops = (Option<u32>, Option<u32>);

fn supervisor(stops: Stops) -> SystemSupervisor<Probe, Probe, Probe> {
    let order: RefCell<Vec<&'static str>> = RefCell::new(Vec::new());
    let s = SystemSupervisor::initialize(
        &stops,
        |stops: &Stops| {
            order.borrow_mut().push("platform");
            Probe::new("platform", stops.0)
        },
        |_: &Stops| {
            order.borrow_mut().push("memory");
            Probe::new("memory", None)
        },
        |stops: &Stops, p: &Probe| {
            assert_eq!(p.name, "platform");
            order.borrow_mut().push("graphics");
            Probe::new("graphics", stops.1)
        },
    );
    assert_eq!(*order.borrow(), vec!["platform", "memory", "graphics"]);
    s
}

#[test]
fn close_request_on_third_tick_stops_after_three_ticks() {
    let mut s = supervisor((Some(3), None));
    let mut log = Vec::new();
    s.prepare_all(&mut log);
    let cycles = s.run(&mut log);
    assert_eq!(cycles, 2);
    assert_eq!(s.platform.system().ticks, 3);
    assert_eq!(s.memory.system().ticks, 3);
    assert_eq!(s.graphics.system().ticks, 3);
}

#[test]
fn tick_all_runs_every_subsystem_in_order() {
    let mut s = supervisor((Some(1), None));
    let mut log = Vec::new();
    let go = s.tick_all(&mut log);
    assert!(!go);
    assert_eq!(log, vec!["tick platform", "tick memory", "tick graphics"]);
    assert!(s.tick_all(&mut log));
}

#[test]
fn prepare_all_prepares_in_dependency_order() {
    let mut s = supervisor((None, None));
    let mut log = Vec::new();
    s.prepare_all(&mut log);
    assert_eq!(log, vec!["prepare platform", "prepare memory", "prepare graphics"]);
    assert!(s.platform.system().prepared && s.memory.system().prepared && s.graphics.system().prepared);
    assert_eq!(s.platform.system().ticks, 0);
}

#[test]
fn any_subsystem_can_stop_the_run() {
    let mut s = supervisor((None, Some(5)));
    let mut log = Vec::new();
    assert_eq!(s.run(&mut log), 4);
    assert_eq!(s.platform.system().ticks, 5);
}
