use unshelve_monitor::config::MonitorConfig;
use unshelve_monitor::reconcile::{
    after_action, after_lookup, after_probe, begin_cycle, LookupError, Outcome, ResourceState,
    Step,
};
use unshelve_monitor::status::ServerStatus;

fn config() -> MonitorConfig {
    MonitorConfig {
        server_identifier: "web-1".to_string(),
        ping_target: "10.0.0.5".to_string(),
        normal_interval_secs: 300,
        recovering_interval_secs: 60,
        ping_timeout_secs: 3,
    }
}

/// Collaborators that answer from fixed values and count what they are asked.
struct Fake {
    reachable: bool,
    status: Option<&'static str>,
    lookup_error: LookupError,
    accepted: bool,
    probes: usize,
    fetches: usize,
    actions: Vec<String>,
    log: Vec<String>,
}

impl Fake {
    fn new(reachable: bool, status: Option<&'static str>, accepted: bool) -> Fake {
        Fake {
            reachable,
            status,
            lookup_error: LookupError::Transport,
            accepted,
            probes: 0,
            fetches: 0,
            actions: Vec::new(),
            log: Vec::new(),
        }
    }

    fn lookup(&self) -> Result<ResourceState, LookupError> {
        match self.status {
            Some(text) => Ok(ResourceState {
                id: "id-42".to_string(),
                name: "web-1".to_string(),
                status: ServerStatus::from_text(text),
            }),
            None => Err(self.lookup_error),
        }
    }

    /// Runs one cycle the way the monitor's driver does; returns the pause.
    fn run_cycle(&mut self, cfg: &MonitorConfig) -> (u64, Outcome) {
        let mut step = begin_cycle(cfg);
        loop {
            step = match step {
                Step::Probe { target, timeout_secs } => {
                    assert_eq!(target, "10.0.0.5");
                    assert_eq!(timeout_secs, 3);
                    self.probes += 1;
                    after_probe(cfg, self.reachable)
                }
                Step::FetchServer { identifier } => {
                    assert_eq!(identifier, "web-1");
                    self.fetches += 1;
                    let lookup = self.lookup();
                    if lookup.is_err() {
                        self.log.push(format!("lookup of {} failed", identifier));
                    }
                    after_lookup(cfg, &lookup)
                }
                Step::Unshelve { server_id } => {
                    self.actions.push(server_id.clone());
                    if !self.accepted {
                        self.log.push(format!("unshelve of {} failed", server_id));
                    }
                    after_action(cfg, self.accepted)
                }
                Step::Sleep { secs, outcome } => return (secs, outcome),
            }
        }
    }
}

#[test]
fn scenario_reachable_target() {
    let cfg = config();
    let mut fake = Fake::new(true, Some("SHELVED_OFFLOADED"), true);
    let (secs, outcome) = fake.run_cycle(&cfg);
    assert_eq!(secs, 300);
    assert_eq!(outcome, Outcome::Reachable);
    assert_eq!(fake.probes, 1);
    assert_eq!(fake.fetches, 0);
    assert!(fake.actions.is_empty());
}

#[test]
fn scenario_shelved_and_unshelve_accepted() {
    let cfg = config();
    let mut fake = Fake::new(false, Some("SHELVED_OFFLOADED"), true);
    let (secs, outcome) = fake.run_cycle(&cfg);
    assert_eq!(secs, 60);
    assert_eq!(outcome, Outcome::UnshelveRequested);
    assert_eq!(fake.fetches, 1);
    assert_eq!(fake.actions, vec!["id-42".to_string()]);
}

#[test]
fn scenario_active_needs_no_action() {
    let cfg = config();
    let mut fake = Fake::new(false, Some("ACTIVE"), true);
    let (secs, outcome) = fake.run_cycle(&cfg);
    assert_eq!(secs, 300);
    assert_eq!(outcome, Outcome::NoActionNeeded);
    assert_eq!(fake.fetches, 1);
    assert!(fake.actions.is_empty());
}

#[test]
fn scenario_lookup_transport_error() {
    let cfg = config();
    let mut fake = Fake::new(false, None, true);
    let (secs, outcome) = fake.run_cycle(&cfg);
    assert_eq!(secs, 300);
    assert_eq!(outcome, Outcome::LookupFailed);
    assert!(fake.actions.is_empty());
    assert_eq!(fake.log.len(), 1);
}

#[test]
fn scenario_unshelve_refused() {
    let cfg = config();
    let mut fake = Fake::new(false, Some("SHELVED_OFFLOADED"), false);
    let (secs, outcome) = fake.run_cycle(&cfg);
    assert_eq!(secs, 300);
    assert_eq!(outcome, Outcome::UnshelveFailed);
    assert_eq!(fake.actions.len(), 1);
    assert_eq!(fake.log.len(), 1);
    // The loop goes on: the next cycle runs normally.
    let (secs, _) = fake.run_cycle(&cfg);
    assert_eq!(secs, 300);
    assert_eq!(fake.actions.len(), 2);
}

#[test]
fn reachable_target_never_reaches_cloud_whatever_the_server() {
    let cfg = config();
    for status in [Some("SHELVED_OFFLOADED"), Some("ACTIVE"), Some("ERROR"), None] {
        let mut fake = Fake::new(true, status, false);
        assert_eq!(fake.run_cycle(&cfg), (300, Outcome::Reachable));
        assert_eq!(fake.fetches, 0);
        assert!(fake.actions.is_empty());
    }
}

#[test]
fn other_statuses_are_left_alone() {
    let cfg = config();
    for status in ["SHELVED", "SHUTOFF", "BUILD", "ERROR", "UNSHELVING", "shelved_offloaded", ""] {
        let mut fake = Fake::new(false, Some(status), true);
        assert_eq!(fake.run_cycle(&cfg), (300, Outcome::NoActionNeeded));
        assert!(fake.actions.is_empty());
    }
}

#[test]
fn lookup_not_found_is_left_alone() {
    let cfg = config();
    let mut fake = Fake::new(false, None, true);
    fake.lookup_error = LookupError::NotFound;
    assert_eq!(fake.run_cycle(&cfg), (300, Outcome::LookupFailed));
    assert!(fake.actions.is_empty());
}

#[test]
fn active_server_is_never_unshelved_over_many_cycles() {
    let cfg = config();
    let mut fake = Fake::new(false, Some("ACTIVE"), true);
    for round in 0..20 {
        fake.reachable = round % 3 == 0;
        let (secs, _) = fake.run_cycle(&cfg);
        assert_eq!(secs, 300);
    }
    assert!(fake.actions.is_empty());
    assert_eq!(fake.probes, 20);
}

#[test]
fn cadence_returns_to_normal_after_recovery() {
    let cfg = config();
    let mut fake = Fake::new(false, Some("SHELVED_OFFLOADED"), true);
    assert_eq!(fake.run_cycle(&cfg).0, 60);
    fake.status = Some("ACTIVE");
    assert_eq!(fake.run_cycle(&cfg).0, 300);
    fake.reachable = true;
    assert_eq!(fake.run_cycle(&cfg).0, 300);
}
