//! The reconciliation cycle as a state machine.
//!
//! A cycle probes the target; only when the probe fails is the server looked
//! up; only when the server is found shelved and offloaded is it unshelved.
//! Each function below takes what the previous request brought back and
//! answers with the next request, until a `Sleep` ends the cycle. The driver
//! performs the requests, so every decision here is free of I/O and timers.

use vstd::prelude::*;
use crate::config::MonitorConfig;
use crate::status::ServerStatus;

verus! {

/// A snapshot of the server, fetched afresh in every cycle that needs one.
pub struct ResourceState {
    pub id: String,
    pub name: String,
    pub status: ServerStatus,
}

/// Why the server could not be looked up.
#[derive(Clone, Copy, Debug, PartialEq, Eq, Structural)]
pub enum LookupError {
    NotFound,
    Transport,
}

/// How a cycle ended, for the driver's progress line.
#[derive(Clone, Copy, Debug, PartialEq, Eq, Structural)]
pub enum Outcome {
    /// The probe was answered; the cloud was not asked.
    Reachable,
    /// The server could not be looked up; nothing was changed.
    LookupFailed,
    /// The server is in a state that unshelving does not apply to.
    NoActionNeeded,
    /// The unshelve request was accepted.
    UnshelveRequested,
    /// The unshelve request was refused; the next cycle looks again.
    UnshelveFailed,
}

/// The next thing the driver is to do.
pub enum Step {
    /// Probe `target`, waiting at most `timeout_secs`.
    Probe { target: String, timeout_secs: u64 },
    /// Fetch the server's current state.
    FetchServer { identifier: String },
    /// Ask the cloud to unshelve the server with this id.
    Unshelve { server_id: String },
    /// The cycle is over: pause this long before the next one.
    Sleep { secs: u64, outcome: Outcome },
}

pub enum StepView {
    Probe { target: Seq<char>, timeout_secs: u64 },
    FetchServer { identifier: Seq<char> },
    Unshelve { server_id: Seq<char> },
    Sleep { secs: u64, outcome: Outcome },
}

impl View for Step {
    type V = StepView;

    open spec fn view(&self) -> StepView {
        match self {
            Step::Probe { target, timeout_secs } => StepView::Probe {
                target: target@,
                timeout_secs: *timeout_secs,
            },
            Step::FetchServer { identifier } => StepView::FetchServer { identifier: identifier@ },
            Step::Unshelve { server_id } => StepView::Unshelve { server_id: server_id@ },
            Step::Sleep { secs, outcome } => StepView::Sleep { secs: *secs, outcome: *outcome },
        }
    }
}

/// The request that opens every cycle.
pub open spec fn first_step(cfg: MonitorConfig) -> StepView {
    StepView::Probe { target: cfg.ping_target@, timeout_secs: cfg.ping_timeout_secs }
}

/// A healthy probe ends the cycle at the normal pace; a failed one asks for
/// the server's state.
pub open spec fn step_after_probe(cfg: MonitorConfig, reachable: bool) -> StepView {
    if reachable {
        StepView::Sleep { secs: cfg.normal_interval_secs, outcome: Outcome::Reachable }
    } else {
        StepView::FetchServer { identifier: cfg.server_identifier@ }
    }
}

/// Only a server seen shelved and offloaded is unshelved; a failed lookup
/// never leads to a change.
pub open spec fn step_after_lookup(
    cfg: MonitorConfig,
    lookup: Result<ResourceState, LookupError>,
) -> StepView {
    match lookup {
        Err(_) => StepView::Sleep { secs: cfg.normal_interval_secs, outcome: Outcome::LookupFailed },
        Ok(server) => if server.status is ShelvedOffloaded {
            StepView::Unshelve { server_id: server.id@ }
        } else {
            StepView::Sleep { secs: cfg.normal_interval_secs, outcome: Outcome::NoActionNeeded }
        },
    }
}

/// An accepted unshelve shortens the next pause; a refused one does not, and
/// is not retried within the cycle.
pub open spec fn step_after_action(cfg: MonitorConfig, accepted: bool) -> StepView {
    if accepted {
        StepView::Sleep { secs: cfg.recovering_interval_secs, outcome: Outcome::UnshelveRequested }
    } else {
        StepView::Sleep { secs: cfg.normal_interval_secs, outcome: Outcome::UnshelveFailed }
    }
}

/// The requests of one whole cycle, given what the probe, the lookup and the
/// unshelve request answer (an answer that is never asked for is ignored).
pub open spec fn cycle_steps(
    cfg: MonitorConfig,
    reachable: bool,
    lookup: Result<ResourceState, LookupError>,
    accepted: bool,
) -> Seq<StepView> {
    let probe = first_step(cfg);
    let second = step_after_probe(cfg, reachable);
    if second is Sleep {
        seq![probe, second]
    } else {
        let third = step_after_lookup(cfg, lookup);
        if third is Sleep {
            seq![probe, second, third]
        } else {
            seq![probe, second, third, step_after_action(cfg, accepted)]
        }
    }
}

/// The requests of consecutive cycles, each given as the answers
/// `(reachable, lookup, accepted)` that it receives.
pub open spec fn run_steps(
    cfg: MonitorConfig,
    cycles: Seq<(bool, Result<ResourceState, LookupError>, bool)>,
) -> Seq<StepView>
    decreases cycles.len(),
{
    if cycles.len() == 0 {
        Seq::empty()
    } else {
        let last = cycles.last();
        run_steps(cfg, cycles.drop_last()) + cycle_steps(cfg, last.0, last.1, last.2)
    }
}

/// The lookup found the server, and found it active.
pub open spec fn finds_active(lookup: Result<ResourceState, LookupError>) -> bool {
    lookup matches Ok(server) && server.status is Active
}

pub open spec fn is_cloud_call(step: StepView) -> bool {
    step is FetchServer || step is Unshelve
}

/// A cycle whose probe is answered asks the cloud nothing, and ends with the
/// normal pause.
pub proof fn lemma_reachable_cycle_skips_cloud(
    cfg: MonitorConfig,
    lookup: Result<ResourceState, LookupError>,
    accepted: bool,
)
    ensures
        ({
            let steps = cycle_steps(cfg, true, lookup, accepted);
            &&& forall|i: int| 0 <= i < steps.len() ==> !is_cloud_call(#[trigger] steps[i])
            &&& steps.last() == StepView::Sleep {
                secs: cfg.normal_interval_secs,
                outcome: Outcome::Reachable,
            }
        }),
{
}

/// A cycle whose probe fails, that finds the server shelved and offloaded and
/// has its unshelve request accepted, unshelves that server and ends with the
/// recovering pause.
pub proof fn lemma_accepted_unshelve_polls_sooner(cfg: MonitorConfig, server: ResourceState)
    requires
        server.status is ShelvedOffloaded,
    ensures
        ({
            let steps = cycle_steps(cfg, false, Ok(server), true);
            &&& steps.contains(StepView::Unshelve { server_id: server.id@ })
            &&& steps.last() == StepView::Sleep {
                secs: cfg.recovering_interval_secs,
                outcome: Outcome::UnshelveRequested,
            }
        }),
{
    let steps = cycle_steps(cfg, false, Ok(server), true);
    assert(steps[2] == StepView::Unshelve { server_id: server.id@ });
}

/// A cycle whose probe fails and that finds the server in any state but
/// shelved and offloaded never unshelves, and ends with the normal pause.
pub proof fn lemma_other_status_is_left_alone(
    cfg: MonitorConfig,
    server: ResourceState,
    accepted: bool,
)
    requires
        !(server.status is ShelvedOffloaded),
    ensures
        ({
            let steps = cycle_steps(cfg, false, Ok(server), accepted);
            &&& forall|i: int| 0 <= i < steps.len() ==> !(#[trigger] steps[i] is Unshelve)
            &&& steps.last() == StepView::Sleep {
                secs: cfg.normal_interval_secs,
                outcome: Outcome::NoActionNeeded,
            }
        }),
{
}

/// A cycle whose server lookup fails never unshelves, and ends with the normal
/// pause.
pub proof fn lemma_failed_lookup_is_left_alone(
    cfg: MonitorConfig,
    reachable: bool,
    error: LookupError,
    accepted: bool,
)
    ensures
        ({
            let steps = cycle_steps(cfg, reachable, Err(error), accepted);
            &&& forall|i: int| 0 <= i < steps.len() ==> !(#[trigger] steps[i] is Unshelve)
            &&& steps.last() is Sleep
            &&& steps.last()->Sleep_secs == cfg.normal_interval_secs
        }),
{
}

/// Every cycle ends with a pause, and that pause is the recovering one exactly
/// when an unshelve request was accepted in the cycle, the normal one
/// otherwise.
pub proof fn lemma_cycle_ends_with_cadence(
    cfg: MonitorConfig,
    reachable: bool,
    lookup: Result<ResourceState, LookupError>,
    accepted: bool,
)
    ensures
        ({
            let steps = cycle_steps(cfg, reachable, lookup, accepted);
            let last = steps.last();
            &&& last is Sleep
            &&& forall|i: int| 0 <= i < steps.len() - 1 ==> !(#[trigger] steps[i] is Sleep)
            &&& last->Sleep_secs == if last->Sleep_outcome == Outcome::UnshelveRequested {
                cfg.recovering_interval_secs
            } else {
                cfg.normal_interval_secs
            }
        }),
{
}

/// However many cycles run, a server that every lookup finds active is never
/// asked to unshelve: the status check stands before the request.
pub proof fn lemma_active_server_never_unshelved(
    cfg: MonitorConfig,
    cycles: Seq<(bool, Result<ResourceState, LookupError>, bool)>,
)
    requires
        forall|k: int|
            0 <= k < cycles.len() ==> finds_active((#[trigger] cycles[k]).1),
    ensures
        forall|i: int|
            0 <= i < run_steps(cfg, cycles).len() ==> !(#[trigger] run_steps(cfg, cycles)[i] is Unshelve),
    decreases cycles.len(),
{
    if cycles.len() > 0 {
        let init = cycles.drop_last();
        assert forall|k: int| 0 <= k < init.len() implies finds_active((#[trigger] init[k]).1) by {
            assert(init[k] == cycles[k]);
        }
        lemma_active_server_never_unshelved(cfg, init);
        let last = cycles.last();
        assert(cycles[cycles.len() - 1] == last);
        let tail = cycle_steps(cfg, last.0, last.1, last.2);
        let all = run_steps(cfg, cycles);
        assert(all == run_steps(cfg, init) + tail);
        assert forall|i: int| 0 <= i < all.len() implies !(#[trigger] all[i] is Unshelve) by {
            if i >= run_steps(cfg, init).len() {
                assert(all[i] == tail[i - run_steps(cfg, init).len()]);
            } else {
                assert(all[i] == run_steps(cfg, init)[i]);
            }
        }
    }
}

/// Opens a cycle with a probe of the configured target.
pub fn begin_cycle(cfg: &MonitorConfig) -> (r: Step)
    ensures
        r@ == first_step(*cfg),
{
    Step::Probe { target: cfg.ping_target.clone(), timeout_secs: cfg.ping_timeout_secs }
}

/// Decides what follows a probe that was (or was not) answered.
pub fn after_probe(cfg: &MonitorConfig, reachable: bool) -> (r: Step)
    ensures
        r@ == step_after_probe(*cfg, reachable),
{
    if reachable {
        Step::Sleep { secs: cfg.normal_interval_secs, outcome: Outcome::Reachable }
    } else {
        Step::FetchServer { identifier: cfg.server_identifier.clone() }
    }
}

/// Decides what follows the server lookup.
pub fn after_lookup(cfg: &MonitorConfig, lookup: &Result<ResourceState, LookupError>) -> (r: Step)
    ensures
        r@ == step_after_lookup(*cfg, *lookup),
{
    match lookup {
        Err(_) => Step::Sleep { secs: cfg.normal_interval_secs, outcome: Outcome::LookupFailed },
        Ok(server) => {
            if server.status.is_shelved_offloaded() {
                Step::Unshelve { server_id: server.id.clone() }
            } else {
                Step::Sleep { secs: cfg.normal_interval_secs, outcome: Outcome::NoActionNeeded }
            }
        },
    }
}

/// Ends the cycle once the unshelve request was accepted or refused.
pub fn after_action(cfg: &MonitorConfig, accepted: bool) -> (r: Step)
    ensures
        r@ == step_after_action(*cfg, accepted),
{
    if accepted {
        Step::Sleep { secs: cfg.recovering_interval_secs, outcome: Outcome::UnshelveRequested }
    } else {
        Step::Sleep { secs: cfg.normal_interval_secs, outcome: Outcome::UnshelveFailed }
    }
}

} // verus!
