//! Bringing up the embedded core in the background: install it, write its
//! configuration, start it, then ask its API until it answers. Each step's
//! work is the caller's; this module decides what comes next.
use vstd::prelude::*;

use crate::clash::RefreshData;
use crate::text::owned;

verus! {

/// How many times the API is asked before giving up (twenty seconds).
pub const MAX_PROBES: u8 = 40;

/// How long to wait before installing and between probes.
pub const PROBE_INTERVAL_MS: u64 = 500;

/// Where the launch stands.
#[derive(Debug, Clone, Copy, PartialEq, Eq, Structural)]
pub enum LaunchPhase {
    /// Nothing done yet.
    Start,
    /// Waiting before the install.
    Settling,
    /// Installing the core binary.
    Installing,
    /// Writing the core's configuration.
    Configuring,
    /// Starting the core process.
    Spawning,
    /// Asking the API: `tries` questions went unanswered so far, and one is
    /// out when `asked`.
    Probing { tries: u8, asked: bool },
    /// The API answered.
    Ready,
    /// The launch ended without an answer.
    Stopped,
}

/// What the caller reports.
#[derive(Debug, Clone, Copy, PartialEq, Eq, Structural)]
pub enum LaunchEvent {
    /// The launch begins.
    Begin,
    /// The wait asked for is over.
    Waited,
    /// The core binary and its directory are (or are not) in place.
    Installed(bool),
    /// The configuration was written (a failure is only logged).
    Configured(bool),
    /// The core process started (or did not).
    Spawned(bool),
    /// The API answered with success (or not, or not at all).
    Probed(bool),
}

/// What the caller does next.
#[derive(Debug, Clone, Copy, PartialEq, Eq, Structural)]
pub enum LaunchStep {
    /// Wait this many milliseconds, then report `Waited`.
    Wait(u64),
    /// Install the core, then report `Installed`.
    Install,
    /// Write the configuration, then report `Configured`.
    Configure,
    /// Start the core, then report `Spawned`.
    Spawn,
    /// Ask the API for its version, then report `Probed`.
    Probe,
    /// Hand `pending_signal()` to the refresh channel; the launch is done.
    Announce,
    /// The launch is over without an answer (a failed step, or no answer
    /// after `MAX_PROBES` questions).
    GiveUp,
    /// The event does not apply in this phase: nothing to do.
    Idle,
}

/// The next phase and step after `event` in `phase`.
pub open spec fn launch_next(phase: LaunchPhase, event: LaunchEvent) -> (LaunchPhase, LaunchStep) {
    match (phase, event) {
        (LaunchPhase::Start, LaunchEvent::Begin) => (LaunchPhase::Settling, LaunchStep::Wait(500)),
        (LaunchPhase::Settling, LaunchEvent::Waited) => (LaunchPhase::Installing, LaunchStep::Install),
        (LaunchPhase::Installing, LaunchEvent::Installed(ok)) => if ok {
            (LaunchPhase::Configuring, LaunchStep::Configure)
        } else {
            (LaunchPhase::Stopped, LaunchStep::GiveUp)
        },
        (LaunchPhase::Configuring, LaunchEvent::Configured(_)) => (
            LaunchPhase::Spawning,
            LaunchStep::Spawn,
        ),
        (LaunchPhase::Spawning, LaunchEvent::Spawned(ok)) => if ok {
            (LaunchPhase::Probing { tries: 0, asked: false }, LaunchStep::Wait(500))
        } else {
            (LaunchPhase::Stopped, LaunchStep::GiveUp)
        },
        (LaunchPhase::Probing { tries, asked: false }, LaunchEvent::Waited) => (
            LaunchPhase::Probing { tries, asked: true },
            LaunchStep::Probe,
        ),
        (LaunchPhase::Probing { tries, asked: true }, LaunchEvent::Probed(ok)) => if ok {
            (LaunchPhase::Ready, LaunchStep::Announce)
        } else if tries + 1 < 40 {
            (LaunchPhase::Probing { tries: (tries + 1) as u8, asked: false }, LaunchStep::Wait(500))
        } else {
            (LaunchPhase::Stopped, LaunchStep::GiveUp)
        },
        _ => (phase, LaunchStep::Idle),
    }
}

/// A phase the launch can be in: a probing launch has asked fewer than
/// `MAX_PROBES` times.
pub open spec fn phase_ok(phase: LaunchPhase) -> bool {
    phase matches LaunchPhase::Probing { tries, .. } ==> tries < 40
}

/// One step of the launch (see `launch_next`).
pub fn launch_step(phase: LaunchPhase, event: LaunchEvent) -> (r: (LaunchPhase, LaunchStep))
    ensures
        r == launch_next(phase, event),
{
    match (phase, event) {
        (LaunchPhase::Start, LaunchEvent::Begin) => (
            LaunchPhase::Settling,
            LaunchStep::Wait(PROBE_INTERVAL_MS),
        ),
        (LaunchPhase::Settling, LaunchEvent::Waited) => (LaunchPhase::Installing, LaunchStep::Install),
        (LaunchPhase::Installing, LaunchEvent::Installed(ok)) => if ok {
            (LaunchPhase::Configuring, LaunchStep::Configure)
        } else {
            (LaunchPhase::Stopped, LaunchStep::GiveUp)
        },
        (LaunchPhase::Configuring, LaunchEvent::Configured(_)) => (
            LaunchPhase::Spawning,
            LaunchStep::Spawn,
        ),
        (LaunchPhase::Spawning, LaunchEvent::Spawned(ok)) => if ok {
            (LaunchPhase::Probing { tries: 0, asked: false }, LaunchStep::Wait(PROBE_INTERVAL_MS))
        } else {
            (LaunchPhase::Stopped, LaunchStep::GiveUp)
        },
        (LaunchPhase::Probing { tries, asked: false }, LaunchEvent::Waited) => (
            LaunchPhase::Probing { tries, asked: true },
            LaunchStep::Probe,
        ),
        (LaunchPhase::Probing { tries, asked: true }, LaunchEvent::Probed(ok)) => if ok {
            (LaunchPhase::Ready, LaunchStep::Announce)
        } else if tries < MAX_PROBES - 1 {
            (
                LaunchPhase::Probing { tries: tries + 1, asked: false },
                LaunchStep::Wait(PROBE_INTERVAL_MS),
            )
        } else {
            (LaunchPhase::Stopped, LaunchStep::GiveUp)
        },
        _ => (phase, LaunchStep::Idle),
    }
}

/// The signal sent once the API answers: otherwise empty, reachable, and
/// the version `pending` (the refresh loop brings the real data).
pub fn pending_signal() -> (r: RefreshData)
    ensures
        r.core_version@ == "pending"@,
        r.api_reachable,
        r.proxy_groups@.dom().len() == 0,
        r.memory == 0,
        r.mode@.len() == 0,
        r.upload_speed == 0,
        r.download_speed == 0,
        r.active_conn_count == 0,
        r.connections@.len() == 0,
        r.logs@.len() == 0,
        r.rules@.len() == 0,
        !r.tun_enabled,
{
    let mut r = RefreshData::default();
    r.core_version = owned("pending");
    r.api_reachable = true;
    r
}

/// The phases a run of events leads through from `phase`, and the steps
/// it yields.
pub open spec fn launch_run(phase: LaunchPhase, events: Seq<LaunchEvent>) -> (LaunchPhase, Seq<LaunchStep>)
    decreases events.len(),
{
    if events.len() == 0 {
        (phase, Seq::empty())
    } else {
        let (p, steps) = launch_run(phase, events.drop_last());
        let (q, s) = launch_next(p, events.last());
        (q, steps.push(s))
    }
}

/// The number of `Probe` steps in `steps`.
pub open spec fn probe_count(steps: Seq<LaunchStep>) -> nat
    decreases steps.len(),
{
    if steps.len() == 0 {
        0
    } else {
        probe_count(steps.drop_last()) + if steps.last() == LaunchStep::Probe {
            1nat
        } else {
            0
        }
    }
}

/// Every phase reached is one the launch can be in.
pub proof fn law_phase_ok_kept(phase: LaunchPhase, event: LaunchEvent)
    requires
        phase_ok(phase),
    ensures
        phase_ok(launch_next(phase, event).0),
{
}

/// The launch announces only on a successful answer from the API, and only
/// while probing.
pub proof fn law_announce_only_on_answer(phase: LaunchPhase, event: LaunchEvent)
    ensures
        launch_next(phase, event).1 == LaunchStep::Announce ==> (phase is Probing && event
            == LaunchEvent::Probed(true)),
{
}

/// How many probes a phase has asked: the unanswered tries and the one
/// out; none before probing.
pub open spec fn probes_asked(phase: LaunchPhase) -> nat {
    match phase {
        LaunchPhase::Probing { tries, asked } => tries as nat + if asked {
            1nat
        } else {
            0
        },
        _ => 0,
    }
}

/// Along a run the probes asked match the phase, and never exceed
/// `MAX_PROBES`.
proof fn lemma_run_probes(events: Seq<LaunchEvent>)
    ensures
        ({
            let (p, steps) = launch_run(LaunchPhase::Start, events);
            &&& phase_ok(p)
            &&& probe_count(steps) <= 40
            &&& (p is Probing ==> probe_count(steps) == probes_asked(p))
            &&& (!(p is Probing) && p != LaunchPhase::Ready && p != LaunchPhase::Stopped
                ==> probe_count(steps) == 0)
        }),
    decreases events.len(),
{
    if events.len() > 0 {
        lemma_run_probes(events.drop_last());
        let (p, steps) = launch_run(LaunchPhase::Start, events.drop_last());
        let (q, st) = launch_next(p, events.last());
        assert(launch_run(LaunchPhase::Start, events) == (q, steps.push(st)));
        assert(steps.push(st).drop_last() =~= steps);
        assert(probe_count(steps.push(st)) == probe_count(steps) + if st == LaunchStep::Probe {
            1nat
        } else {
            0
        });
    }
}

/// However the caller's reports go, a launch asks the API at most
/// `MAX_PROBES` times.
pub proof fn law_at_most_forty_probes(events: Seq<LaunchEvent>)
    ensures
        probe_count(launch_run(LaunchPhase::Start, events).1) <= 40,
{
    lemma_run_probes(events);
}

} // verus!
