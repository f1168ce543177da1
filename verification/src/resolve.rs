//! Choosing the URL that the web view loads in a development build.
//!
//! The search alternates outside work (reading the port file and the
//! environment, probing ports, pausing) with decisions. The decisions live
//! here as a state machine: [`advance`] takes the current [`Phase`] and the
//! [`Event`] that the last [`Command`] produced, and returns the next phase,
//! the notices and pauses to carry out, and the next command. The search tries
//! the port named in `.utah-vite-port` (40 probes, 100 ms apart), then the port
//! in `UTAH_VITE_PORT` (120 probes, 250 ms apart), then scans 5173..=5200 (120
//! scans, 250 ms apart), and falls back to port 5173. A scan answer naming a
//! port outside 5173..=5200 does not answer the scan: the scan is asked again.

use vstd::prelude::*;
use crate::probe::{SCAN_FIRST_PORT, SCAN_LAST_PORT};
use crate::text::{decimal, parse_trimmed_u16, parse_u16_text, push_decimal, trimmed};

verus! {

/// How many times the port from the port file is probed.
pub const PORT_FILE_ATTEMPTS: u32 = 40;

/// Pause after a failed probe of the port-file port, in milliseconds.
pub const PORT_FILE_PAUSE_MS: u64 = 100;

/// How many times the port from `UTAH_VITE_PORT` is probed.
pub const ENV_PORT_ATTEMPTS: u32 = 120;

/// How many times the whole port range is scanned.
pub const SCAN_ATTEMPTS: u32 = 120;

/// Pause after a failed probe of the environment port or a failed scan, in milliseconds.
pub const PAUSE_MS: u64 = 250;

/// The port loaded when no dev server was found.
pub const FALLBACK_PORT: u16 = 5173;

/// A progress line of the search.
#[derive(Clone, Copy, Debug, PartialEq, Eq)]
pub enum Notice {
    /// The port-file port answered as Vite on this attempt.
    UsingPortFile { port: u16, attempt: u32 },
    /// The first probe of the port-file port failed; waiting for it.
    WaitingForPortFile { port: u16 },
    /// The environment port answered as Vite on this attempt.
    UsingEnvPort { port: u16, attempt: u32 },
    /// The first probe of the environment port failed; waiting for it.
    WaitingForEnvPort { port: u16 },
    /// The environment port never answered as Vite; the scan follows (error stream).
    EnvPortSilent { port: u16 },
    /// A scan found Vite on this port.
    TargetLocked { port: u16, scan: u32 },
    /// The first scan found nothing; waiting for Vite.
    WaitingForScan,
    /// Still no Vite after about this many seconds.
    StillWaiting { seconds: u32 },
    /// No Vite found at all; the fallback port is loaded (error stream).
    NotDetected,
}

/// One thing to carry out before the next command.
#[derive(Clone, Copy, Debug, PartialEq, Eq)]
pub enum Effect {
    /// Report a notice.
    Say(Notice),
    /// Sleep this many milliseconds.
    Pause(u64),
}

/// The outside work that the search asks for next.
#[derive(Clone, Copy, Debug, PartialEq, Eq)]
pub enum Command {
    /// Read `.utah-vite-port`; answer with [`Event::PortFileText`].
    ReadPortFile,
    /// Read `UTAH_VITE_PORT`; answer with [`Event::EnvPortText`].
    ReadEnvPort,
    /// Probe this port; answer with [`Event::ProbeAnswer`].
    Probe(u16),
    /// Scan the port range; answer with [`Event::ScanAnswer`].
    ScanRange,
    /// The search is over: load the dev server on this port.
    Load(u16),
}

/// What the last command produced.
#[derive(Debug)]
pub enum Event {
    /// The contents of the port file, if it could be read.
    PortFileText(Option<String>),
    /// The value of `UTAH_VITE_PORT`, if it is set.
    EnvPortText(Option<String>),
    /// Whether the probed port answered as Vite.
    ProbeAnswer(bool),
    /// The port that the scan found, if any; it must lie in 5173..=5200.
    ScanAnswer(Option<u16>),
}

/// Where the search stands.
#[derive(Clone, Copy, Debug, PartialEq, Eq)]
pub enum Phase {
    /// Waiting for the port file.
    ReadingPortFile,
    /// Probing the port-file port; `attempt` counts from 1.
    ProbingPortFile { port: u16, attempt: u32 },
    /// Waiting for the environment variable.
    ReadingEnvPort,
    /// Probing the environment port; `attempt` counts from 1.
    ProbingEnvPort { port: u16, attempt: u32 },
    /// Scanning the port range; `attempt` counts from 1.
    Scanning { attempt: u32 },
    /// Finished: this port is loaded.
    Done { port: u16 },
}

/// The result of one decision.
#[derive(Debug)]
pub struct Step {
    pub phase: Phase,
    pub effects: Vec<Effect>,
    pub command: Command,
}

/// The port that a text names, read as `text.trim().parse::<u16>()`.
pub open spec fn text_port(text: Option<String>) -> Option<u16> {
    match text {
        Some(s) => parse_u16_text(trimmed(s@)),
        None => None,
    }
}

/// The command that a phase waits on.
pub open spec fn pending(phase: Phase) -> Command {
    match phase {
        Phase::ReadingPortFile => Command::ReadPortFile,
        Phase::ProbingPortFile { port, .. } => Command::Probe(port),
        Phase::ReadingEnvPort => Command::ReadEnvPort,
        Phase::ProbingEnvPort { port, .. } => Command::Probe(port),
        Phase::Scanning { .. } => Command::ScanRange,
        Phase::Done { port } => Command::Load(port),
    }
}

/// Whether `event` answers the command that `phase` waits on.
pub open spec fn answers(phase: Phase, event: Event) -> bool {
    match (phase, event) {
        (Phase::ReadingPortFile, Event::PortFileText(_)) => true,
        (Phase::ProbingPortFile { .. }, Event::ProbeAnswer(_)) => true,
        (Phase::ReadingEnvPort, Event::EnvPortText(_)) => true,
        (Phase::ProbingEnvPort { .. }, Event::ProbeAnswer(_)) => true,
        (Phase::Scanning { .. }, Event::ScanAnswer(found)) => match found {
            Some(port) => in_scan_range(port),
            None => true,
        },
        _ => false,
    }
}

/// Whether `port` lies in the scanned range 5173..=5200.
pub open spec fn in_scan_range(port: u16) -> bool {
    SCAN_FIRST_PORT <= port <= SCAN_LAST_PORT
}

/// The attempt counters stay within their budgets.
pub open spec fn phase_wf(phase: Phase) -> bool {
    match phase {
        Phase::ProbingPortFile { attempt, .. } => 1 <= attempt <= PORT_FILE_ATTEMPTS,
        Phase::ProbingEnvPort { attempt, .. } => 1 <= attempt <= ENV_PORT_ATTEMPTS,
        Phase::Scanning { attempt } => 1 <= attempt <= SCAN_ATTEMPTS,
        _ => true,
    }
}

/// The phase after `event` in `phase`.
pub open spec fn next_phase(phase: Phase, event: Event) -> Phase {
    match (phase, event) {
        (Phase::ReadingPortFile, Event::PortFileText(text)) => match text_port(text) {
            Some(port) => Phase::ProbingPortFile { port, attempt: 1 },
            None => Phase::ReadingEnvPort,
        },
        (Phase::ProbingPortFile { port, attempt }, Event::ProbeAnswer(found)) => if found {
            Phase::Done { port }
        } else if attempt < PORT_FILE_ATTEMPTS {
            Phase::ProbingPortFile { port, attempt: (attempt + 1) as u32 }
        } else {
            Phase::ReadingEnvPort
        },
        (Phase::ReadingEnvPort, Event::EnvPortText(text)) => match text_port(text) {
            Some(port) => Phase::ProbingEnvPort { port, attempt: 1 },
            None => Phase::Scanning { attempt: 1 },
        },
        (Phase::ProbingEnvPort { port, attempt }, Event::ProbeAnswer(found)) => if found {
            Phase::Done { port }
        } else if attempt < ENV_PORT_ATTEMPTS {
            Phase::ProbingEnvPort { port, attempt: (attempt + 1) as u32 }
        } else {
            Phase::Scanning { attempt: 1 }
        },
        (Phase::Scanning { attempt }, Event::ScanAnswer(found)) => match found {
            Some(port) => if in_scan_range(port) {
                Phase::Done { port }
            } else {
                phase
            },
            None => if attempt < SCAN_ATTEMPTS {
                Phase::Scanning { attempt: (attempt + 1) as u32 }
            } else {
                Phase::Done { port: FALLBACK_PORT }
            },
        },
        _ => phase,
    }
}

/// The notices and pauses to carry out after `event` in `phase`.
pub open spec fn next_effects(phase: Phase, event: Event) -> Seq<Effect> {
    match (phase, event) {
        (Phase::ProbingPortFile { port, attempt }, Event::ProbeAnswer(found)) => if found {
            seq![Effect::Say(Notice::UsingPortFile { port, attempt })]
        } else if attempt == 1 {
            seq![
                Effect::Say(Notice::WaitingForPortFile { port }),
                Effect::Pause(PORT_FILE_PAUSE_MS),
            ]
        } else {
            seq![Effect::Pause(PORT_FILE_PAUSE_MS)]
        },
        (Phase::ProbingEnvPort { port, attempt }, Event::ProbeAnswer(found)) => if found {
            seq![Effect::Say(Notice::UsingEnvPort { port, attempt })]
        } else {
            let waiting = if attempt == 1 {
                seq![Effect::Say(Notice::WaitingForEnvPort { port }), Effect::Pause(PAUSE_MS)]
            } else {
                seq![Effect::Pause(PAUSE_MS)]
            };
            if attempt < ENV_PORT_ATTEMPTS {
                waiting
            } else {
                waiting.push(Effect::Say(Notice::EnvPortSilent { port }))
            }
        },
        (Phase::Scanning { attempt }, Event::ScanAnswer(found)) => match found {
            Some(port) => if in_scan_range(port) {
                seq![Effect::Say(Notice::TargetLocked { port, scan: attempt })]
            } else {
                seq![]
            },
            None => {
                let waiting = if attempt == 1 {
                    seq![Effect::Say(Notice::WaitingForScan), Effect::Pause(PAUSE_MS)]
                } else if attempt % 8 == 0 {
                    seq![
                        Effect::Say(Notice::StillWaiting { seconds: (attempt / 4) as u32 }),
                        Effect::Pause(PAUSE_MS),
                    ]
                } else {
                    seq![Effect::Pause(PAUSE_MS)]
                };
                if attempt < SCAN_ATTEMPTS {
                    waiting
                } else {
                    waiting.push(Effect::Say(Notice::NotDetected))
                }
            },
        },
        _ => seq![],
    }
}

/// The first step of the search: read the port file.
pub fn start() -> (step: Step)
    ensures
        step.phase == Phase::ReadingPortFile,
        step.effects@ == Seq::<Effect>::empty(),
        step.command == Command::ReadPortFile,
{
    Step { phase: Phase::ReadingPortFile, effects: Vec::new(), command: Command::ReadPortFile }
}

/// The command that `phase` waits on.
pub fn pending_command(phase: Phase) -> (command: Command)
    ensures
        command == pending(phase),
{
    match phase {
        Phase::ReadingPortFile => Command::ReadPortFile,
        Phase::ProbingPortFile { port, .. } => Command::Probe(port),
        Phase::ReadingEnvPort => Command::ReadEnvPort,
        Phase::ProbingEnvPort { port, .. } => Command::Probe(port),
        Phase::Scanning { .. } => Command::ScanRange,
        Phase::Done { port } => Command::Load(port),
    }
}

/// Reads a port from an optional text, as `text.trim().parse::<u16>().ok()` does.
pub fn port_of_text(text: &Option<String>) -> (port: Option<u16>)
    ensures
        port == text_port(*text),
{
    match text {
        Some(s) => parse_trimmed_u16(s.as_str()),
        None => None,
    }
}

/// Decides what follows `event` in `phase`. An event that does not answer the
/// phase's command changes nothing: the same command is asked again.
pub fn advance(phase: Phase, event: Event) -> (step: Step)
    ensures
        step.phase == next_phase(phase, event),
        step.effects@ == next_effects(phase, event),
        step.command == pending(step.phase),
{
    let mut effects: Vec<Effect> = Vec::new();
    let next = match (phase, &event) {
        (Phase::ReadingPortFile, Event::PortFileText(text)) => match port_of_text(text) {
            Some(port) => Phase::ProbingPortFile { port, attempt: 1 },
            None => Phase::ReadingEnvPort,
        },
        (Phase::ProbingPortFile { port, attempt }, Event::ProbeAnswer(found)) => {
            if *found {
                effects.push(Effect::Say(Notice::UsingPortFile { port, attempt }));
                Phase::Done { port }
            } else {
                if attempt == 1 {
                    effects.push(Effect::Say(Notice::WaitingForPortFile { port }));
                }
                effects.push(Effect::Pause(PORT_FILE_PAUSE_MS));
                if attempt < PORT_FILE_ATTEMPTS {
                    Phase::ProbingPortFile { port, attempt: attempt + 1 }
                } else {
                    Phase::ReadingEnvPort
                }
            }
        },
        (Phase::ReadingEnvPort, Event::EnvPortText(text)) => match port_of_text(text) {
            Some(port) => Phase::ProbingEnvPort { port, attempt: 1 },
            None => Phase::Scanning { attempt: 1 },
        },
        (Phase::ProbingEnvPort { port, attempt }, Event::ProbeAnswer(found)) => {
            if *found {
                effects.push(Effect::Say(Notice::UsingEnvPort { port, attempt }));
                Phase::Done { port }
            } else {
                if attempt == 1 {
                    effects.push(Effect::Say(Notice::WaitingForEnvPort { port }));
                }
                effects.push(Effect::Pause(PAUSE_MS));
                if attempt < ENV_PORT_ATTEMPTS {
                    Phase::ProbingEnvPort { port, attempt: attempt + 1 }
                } else {
                    effects.push(Effect::Say(Notice::EnvPortSilent { port }));
                    Phase::Scanning { attempt: 1 }
                }
            }
        },
        (Phase::Scanning { attempt }, Event::ScanAnswer(found)) => match found {
            Some(port) => {
                if SCAN_FIRST_PORT <= *port && *port <= SCAN_LAST_PORT {
                    effects.push(Effect::Say(Notice::TargetLocked { port: *port, scan: attempt }));
                    Phase::Done { port: *port }
                } else {
                    phase
                }
            },
            None => {
                if attempt == 1 {
                    effects.push(Effect::Say(Notice::WaitingForScan));
                } else if attempt % 8 == 0 {
                    effects.push(Effect::Say(Notice::StillWaiting { seconds: attempt / 4 }));
                }
                effects.push(Effect::Pause(PAUSE_MS));
                if attempt < SCAN_ATTEMPTS {
                    Phase::Scanning { attempt: attempt + 1 }
                } else {
                    effects.push(Effect::Say(Notice::NotDetected));
                    Phase::Done { port: FALLBACK_PORT }
                }
            },
        },
        _ => phase,
    };
    let command = pending_command(next);
    proof {
        assert(effects@ =~= next_effects(phase, event));
    }
    Step { phase: next, effects, command }
}


/// An upper bound on the number of decisions left before the search is done.
pub open spec fn steps_left(phase: Phase) -> int {
    match phase {
        Phase::ReadingPortFile => 282,
        Phase::ProbingPortFile { attempt, .. } => 241 + (41 - attempt),
        Phase::ReadingEnvPort => 241,
        Phase::ProbingEnvPort { attempt, .. } => 120 + (121 - attempt),
        Phase::Scanning { attempt } => 121 - attempt,
        Phase::Done { .. } => 0,
    }
}

/// Whether `port`, loaded after `event` in `phase`, is the port that answered
/// as Vite in that event, or the fallback after the last scan found nothing.
pub open spec fn found_in(phase: Phase, event: Event, port: u16) -> bool {
    ||| (phase matches Phase::ProbingPortFile { port: p, .. } && p == port && event
        == Event::ProbeAnswer(true))
    ||| (phase matches Phase::ProbingEnvPort { port: p, .. } && p == port && event
        == Event::ProbeAnswer(true))
    ||| (phase is Scanning && event == Event::ScanAnswer(Some(port)) && in_scan_range(port))
    ||| (phase == Phase::Scanning { attempt: SCAN_ATTEMPTS } && event == Event::ScanAnswer(None)
        && port == FALLBACK_PORT)
}

/// The attempt counters never leave their budgets: at most 40 probes of the
/// port-file port, 120 of the environment port, and 120 scans.
pub proof fn search_stays_within_budgets(phase: Phase, event: Event)
    requires
        phase_wf(phase),
    ensures
        phase_wf(next_phase(phase, event)),
{
}

/// Every event that answers the pending command brings the search closer to
/// its end, so the search finishes after at most 282 decisions; any other
/// event changes nothing.
pub proof fn search_terminates(phase: Phase, event: Event)
    requires
        phase_wf(phase),
    ensures
        answers(phase, event) ==> 0 <= steps_left(next_phase(phase, event)) < steps_left(phase),
        !answers(phase, event) ==> next_phase(phase, event) == phase && next_effects(
            phase,
            event,
        ) == Seq::<Effect>::empty(),
        steps_left(phase) == 0 <==> phase is Done,
{
}

/// The search loads only a port that answered as Vite, or the fallback port
/// 5173 once the last scan has found nothing.
pub proof fn loaded_port_answered(phase: Phase, event: Event, port: u16)
    requires
        phase_wf(phase),
        !(phase is Done),
        next_phase(phase, event) == (Phase::Done { port }),
    ensures
        found_in(phase, event, port),
{
    match (phase, event) {
        (Phase::ProbingPortFile { .. }, Event::ProbeAnswer(found)) => {
            assert(found);
        },
        (Phase::ProbingEnvPort { .. }, Event::ProbeAnswer(found)) => {
            assert(found);
        },
        (Phase::Scanning { attempt }, Event::ScanAnswer(found)) => {
            if found is None {
                assert(attempt == SCAN_ATTEMPTS);
            }
        },
        _ => {},
    }
}


/// The text of a notice, as the search prints it.
pub open spec fn notice_line(notice: Notice) -> Seq<char> {
    match notice {
        Notice::UsingPortFile { port, attempt } => "[ZEO-ARCHITECT] Using .utah-vite-port -> http://localhost:"@
            + decimal(port as nat) + " (attempt "@ + decimal(attempt as nat) + ")"@,
        Notice::WaitingForPortFile { port } => "[ZEO-ARCHITECT] Waiting for Vite on port from .utah-vite-port ("@
            + decimal(port as nat) + ") ..."@,
        Notice::UsingEnvPort { port, attempt } => "[ZEO-ARCHITECT] Using UTAH_VITE_PORT -> http://localhost:"@
            + decimal(port as nat) + " (after "@ + decimal(attempt as nat) + " waits)"@,
        Notice::WaitingForEnvPort { port } => "[ZEO-ARCHITECT] Waiting for Vite on UTAH_VITE_PORT="@
            + decimal(port as nat) + " ..."@,
        Notice::EnvPortSilent { port } => "[UTAH] UTAH_VITE_PORT="@ + decimal(port as nat)
            + " never responded as Vite; scanning 5173..5200."@,
        Notice::TargetLocked { port, scan } => "[ZEO-ARCHITECT] Resonance Target Locked: http://localhost:"@
            + decimal(port as nat) + " (scan #"@ + decimal(scan as nat) + ")"@,
        Notice::WaitingForScan => "[ZEO-ARCHITECT] Waiting for Vite on 127.0.0.1:5173..5200 (run `npm run dev:ui` first, or `npm run dev`)."@,
        Notice::StillWaiting { seconds } => "[ZEO-ARCHITECT] Still waiting for Vite... (~"@
            + decimal(seconds as nat)
            + "s). Tip: set UTAH_VITE_PORT if you use a custom port."@,
        Notice::NotDetected => "[UTAH] Vite not detected after 30s; loading http://localhost:5173 anyway (blank until Vite is up)."@,
    }
}

/// Whether a notice goes to the error stream rather than standard output.
pub open spec fn notice_is_warning(notice: Notice) -> bool {
    notice is EnvPortSilent || notice is NotDetected
}

/// Whether a notice goes to the error stream rather than standard output.
pub fn is_warning(notice: Notice) -> (b: bool)
    ensures
        b == notice_is_warning(notice),
{
    match notice {
        Notice::EnvPortSilent { .. } | Notice::NotDetected => true,
        _ => false,
    }
}

/// The text of a notice, as the search prints it.
pub fn notice_text(notice: Notice) -> (text: String)
    ensures
        text@ == notice_line(notice),
{
    match notice {
        Notice::UsingPortFile { port, attempt } => {
            let mut t = String::from_str(
                "[ZEO-ARCHITECT] Using .utah-vite-port -> http://localhost:",
            );
            push_decimal(&mut t, port as u64);
            t.append(" (attempt ");
            push_decimal(&mut t, attempt as u64);
            t.append(")");
            t
        },
        Notice::WaitingForPortFile { port } => {
            let mut t = String::from_str(
                "[ZEO-ARCHITECT] Waiting for Vite on port from .utah-vite-port (",
            );
            push_decimal(&mut t, port as u64);
            t.append(") ...");
            t
        },
        Notice::UsingEnvPort { port, attempt } => {
            let mut t = String::from_str(
                "[ZEO-ARCHITECT] Using UTAH_VITE_PORT -> http://localhost:",
            );
            push_decimal(&mut t, port as u64);
            t.append(" (after ");
            push_decimal(&mut t, attempt as u64);
            t.append(" waits)");
            t
        },
        Notice::WaitingForEnvPort { port } => {
            let mut t = String::from_str("[ZEO-ARCHITECT] Waiting for Vite on UTAH_VITE_PORT=");
            push_decimal(&mut t, port as u64);
            t.append(" ...");
            t
        },
        Notice::EnvPortSilent { port } => {
            let mut t = String::from_str("[UTAH] UTAH_VITE_PORT=");
            push_decimal(&mut t, port as u64);
            t.append(" never responded as Vite; scanning 5173..5200.");
            t
        },
        Notice::TargetLocked { port, scan } => {
            let mut t = String::from_str(
                "[ZEO-ARCHITECT] Resonance Target Locked: http://localhost:",
            );
            push_decimal(&mut t, port as u64);
            t.append(" (scan #");
            push_decimal(&mut t, scan as u64);
            t.append(")");
            t
        },
        Notice::WaitingForScan => String::from_str(
            "[ZEO-ARCHITECT] Waiting for Vite on 127.0.0.1:5173..5200 (run `npm run dev:ui` first, or `npm run dev`).",
        ),
        Notice::StillWaiting { seconds } => {
            let mut t = String::from_str("[ZEO-ARCHITECT] Still waiting for Vite... (~");
            push_decimal(&mut t, seconds as u64);
            t.append("s). Tip: set UTAH_VITE_PORT if you use a custom port.");
            t
        },
        Notice::NotDetected => String::from_str(
            "[UTAH] Vite not detected after 30s; loading http://localhost:5173 anyway (blank until Vite is up).",
        ),
    }
}


/// Whether `phases` and `events` form a run of the search: it starts by
/// reading the port file, every event answers the command of the phase it
/// follows, and each phase is the one `advance` decides.
pub open spec fn is_run(phases: Seq<Phase>, events: Seq<Event>) -> bool {
    &&& phases.len() == events.len() + 1
    &&& phases[0] == Phase::ReadingPortFile
    &&& forall|i: int|
        #![trigger events[i]]
        0 <= i < events.len() ==> answers(phases[i], events[i]) && phases[i + 1] == next_phase(
            phases[i],
            events[i],
        )
}

/// Whether an event reports that Vite was found.
pub open spec fn success(event: Event) -> bool {
    event == Event::ProbeAnswer(true) || event matches Event::ScanAnswer(Some(_))
}

/// Whether an event read `port` from the port file or from `UTAH_VITE_PORT`.
pub open spec fn names_port(event: Event, port: u16) -> bool {
    ||| (event matches Event::PortFileText(t) && text_port(t) == Some(port))
    ||| (event matches Event::EnvPortText(t) && text_port(t) == Some(port))
}

/// How many of the first `k` events answer a single-port probe.
pub open spec fn probes_in(events: Seq<Event>, k: int) -> int
    decreases k,
{
    if k <= 0 {
        0
    } else {
        probes_in(events, k - 1) + if events[k - 1] is ProbeAnswer {
            1int
        } else {
            0int
        }
    }
}

/// How many of the first `k` events answer a scan of the port range.
pub open spec fn scans_in(events: Seq<Event>, k: int) -> int
    decreases k,
{
    if k <= 0 {
        0
    } else {
        scans_in(events, k - 1) + if events[k - 1] is ScanAnswer {
            1int
        } else {
            0int
        }
    }
}

/// The milliseconds of pause among `effects`.
pub open spec fn pause_of(effects: Seq<Effect>) -> int
    decreases effects.len(),
{
    if effects.len() == 0 {
        0
    } else {
        pause_of(effects.drop_last()) + match effects.last() {
            Effect::Pause(ms) => ms as int,
            Effect::Say(_) => 0int,
        }
    }
}

/// The milliseconds of pause decided in the first `k` steps of a run.
pub open spec fn pause_in(phases: Seq<Phase>, events: Seq<Event>, k: int) -> int
    decreases k,
{
    if k <= 0 {
        0
    } else {
        pause_in(phases, events, k - 1) + pause_of(next_effects(phases[k - 1], events[k - 1]))
    }
}

/// Single-port probes still possible from `phase`.
pub open spec fn probes_left(phase: Phase) -> int {
    match phase {
        Phase::ReadingPortFile => 160,
        Phase::ProbingPortFile { attempt, .. } => 41 - attempt + 120,
        Phase::ReadingEnvPort => 120,
        Phase::ProbingEnvPort { attempt, .. } => 121 - attempt,
        _ => 0,
    }
}

/// Scans still possible from `phase`.
pub open spec fn scans_left(phase: Phase) -> int {
    match phase {
        Phase::Scanning { attempt } => 121 - attempt,
        Phase::Done { .. } => 0,
        _ => 120,
    }
}

/// Milliseconds of pause still possible from `phase`.
pub open spec fn pause_left(phase: Phase) -> int {
    match phase {
        Phase::ReadingPortFile => 64000,
        Phase::ProbingPortFile { attempt, .. } => (41 - attempt) * 100 + 60000,
        Phase::ReadingEnvPort => 60000,
        Phase::ProbingEnvPort { attempt, .. } => (121 - attempt) * 250 + 30000,
        Phase::Scanning { attempt } => (121 - attempt) * 250,
        Phase::Done { .. } => 0,
    }
}

proof fn lemma_step_pause(phase: Phase, event: Event)
    requires
        phase_wf(phase),
        answers(phase, event),
    ensures
        pause_of(next_effects(phase, event)) + pause_left(next_phase(phase, event)) <= pause_left(
            phase,
        ),
        probes_left(next_phase(phase, event)) + (if event is ProbeAnswer {
            1int
        } else {
            0int
        }) <= probes_left(phase),
        scans_left(next_phase(phase, event)) + (if event is ScanAnswer {
            1int
        } else {
            0int
        }) <= scans_left(phase),
{
    reveal_with_fuel(pause_of, 4);
    let e = next_effects(phase, event);
    if e.len() == 1 {
        assert(e.drop_last() =~= Seq::<Effect>::empty());
    } else if e.len() == 2 {
        assert(e.drop_last().drop_last() =~= Seq::<Effect>::empty());
    } else if e.len() == 3 {
        assert(e.drop_last().drop_last().drop_last() =~= Seq::<Effect>::empty());
    }
}

/// What holds after the first `k` steps of a run.
pub open spec fn run_invariant(phases: Seq<Phase>, events: Seq<Event>, k: int) -> bool {
    &&& phase_wf(phases[k])
    &&& probes_in(events, k) + probes_left(phases[k]) <= 160
    &&& scans_in(events, k) + scans_left(phases[k]) <= 120
    &&& pause_in(phases, events, k) + pause_left(phases[k]) <= 64000
    &&& !(phases[k] is Done) ==> forall|i: int| 0 <= i < k ==> !success(#[trigger] events[i])
    &&& phases[k] matches Phase::ProbingPortFile { port, .. } ==> exists|i: int|
        0 <= i < k && #[trigger] names_port(events[i], port)
    &&& phases[k] matches Phase::ProbingEnvPort { port, .. } ==> exists|i: int|
        0 <= i < k && #[trigger] names_port(events[i], port)
}

proof fn lemma_run_invariant(phases: Seq<Phase>, events: Seq<Event>, k: int)
    requires
        is_run(phases, events),
        0 <= k <= events.len(),
    ensures
        run_invariant(phases, events, k),
    decreases k,
{
    if k > 0 {
        lemma_run_invariant(phases, events, k - 1);
        let j = k - 1;
        let ph = phases[j];
        let ev = events[j];
        assert(answers(ph, ev) && phases[k] == next_phase(ph, ev));
        lemma_step_pause(ph, ev);
        search_stays_within_budgets(ph, ev);
        if !(phases[k] is Done) {
            assert(!success(ev));
            assert(!(ph is Done));
        }
        match phases[k] {
            Phase::ProbingPortFile { port, .. } => {
                if names_port(ev, port) {
                } else {
                    let w = choose|i: int| 0 <= i < j && #[trigger] names_port(events[i], port);
                    assert(0 <= w < k && names_port(events[w], port));
                }
            },
            Phase::ProbingEnvPort { port, .. } => {
                if names_port(ev, port) {
                } else {
                    let w = choose|i: int| 0 <= i < j && #[trigger] names_port(events[i], port);
                    assert(0 <= w < k && names_port(events[w], port));
                }
            },
            _ => {},
        }
    }
}

/// Over a whole run, the search makes at most 40 + 120 single-port probes
/// and at most 120 scans of the 28 ports 5173..=5200, so at most 3,520
/// probes in all, and pauses at most 40 × 100 ms + 120 × 250 ms + 120 × 250 ms,
/// that is 64 s.
pub proof fn search_run_budgets(phases: Seq<Phase>, events: Seq<Event>)
    requires
        is_run(phases, events),
    ensures
        probes_in(events, events.len() as int) <= PORT_FILE_ATTEMPTS + ENV_PORT_ATTEMPTS,
        scans_in(events, events.len() as int) <= SCAN_ATTEMPTS,
        probes_in(events, events.len() as int) + scans_in(events, events.len() as int)
            * crate::probe::SCAN_PORT_COUNT <= 3520,
        pause_in(phases, events, events.len() as int) <= 64000,
{
    lemma_run_invariant(phases, events, events.len() as int);
    let k = events.len() as int;
    assert(probes_left(phases[k]) >= 0);
    assert(scans_left(phases[k]) >= 0);
    assert(pause_left(phases[k]) >= 0);
}

/// A run that ends by loading `port` loads a port that answered as Vite in
/// its last event, or the fallback port 5173 when nothing answered during
/// the whole run. The port came from the port file, from `UTAH_VITE_PORT`,
/// or from the scanned range 5173..=5200.
pub proof fn search_run_loads_found_port(phases: Seq<Phase>, events: Seq<Event>, port: u16)
    requires
        is_run(phases, events),
        phases.last() == (Phase::Done { port }),
    ensures
        events.len() > 0,
        ({
            let n = events.len() - 1;
            ||| (events[n] == Event::ProbeAnswer(true) && pending(phases[n]) == Command::Probe(port))
            ||| events[n] == Event::ScanAnswer(Some(port))
            ||| (port == FALLBACK_PORT && forall|i: int|
                0 <= i < events.len() ==> !success(#[trigger] events[i]))
        }),
        (exists|i: int| 0 <= i < events.len() && #[trigger] names_port(events[i], port)) || (
        exists|i: int| 0 <= i < events.len() && #[trigger] events[i] == Event::ScanAnswer(
            Some(port),
        )) || port == FALLBACK_PORT,
        (exists|i: int| 0 <= i < events.len() && #[trigger] names_port(events[i], port))
            || in_scan_range(port),
{
    let n = events.len() as int;
    assert(phases[0] is ReadingPortFile);
    assert(n > 0);
    let j = n - 1;
    lemma_run_invariant(phases, events, j);
    let ph = phases[j];
    let ev = events[j];
    assert(answers(ph, ev) && phases[n] == next_phase(ph, ev));
    assert(!(ph is Done));
    loaded_port_answered(ph, ev, port);
    if ev == Event::ProbeAnswer(true) {
        match ph {
            Phase::ProbingPortFile { port: p, .. } => {
                assert(p == port);
                let w = choose|i: int| 0 <= i < j && #[trigger] names_port(events[i], port);
                assert(names_port(events[w], port));
            },
            Phase::ProbingEnvPort { port: p, .. } => {
                assert(p == port);
                let w = choose|i: int| 0 <= i < j && #[trigger] names_port(events[i], port);
                assert(names_port(events[w], port));
            },
            _ => {},
        }
    } else if ev == Event::ScanAnswer(Some(port)) {
        assert(events[j] == Event::ScanAnswer(Some(port)));
    } else {
        assert(port == FALLBACK_PORT);
        assert(!success(ev));
        assert forall|i: int| 0 <= i < events.len() implies !success(#[trigger] events[i]) by {
            if i < j {
            }
        }
    }
}


/// Whatever 16-bit port the port file or `UTAH_VITE_PORT` names (the text,
/// trimmed, reads as that `u16`), that port is probed next, whether or not it
/// lies in the scanned range; when a probe of it answers as Vite, it is the
/// port loaded. A text that names no port skips to the next source.
pub proof fn named_port_is_probed(text: String, port: u16, attempt: u32)
    ensures
        parse_u16_text(trimmed(text@)) == Some(port) ==> next_phase(
            Phase::ReadingPortFile,
            Event::PortFileText(Some(text)),
        ) == (Phase::ProbingPortFile { port, attempt: 1 }),
        parse_u16_text(trimmed(text@)) == Some(port) ==> next_phase(
            Phase::ReadingEnvPort,
            Event::EnvPortText(Some(text)),
        ) == (Phase::ProbingEnvPort { port, attempt: 1 }),
        pending(Phase::ProbingPortFile { port, attempt }) == Command::Probe(port),
        pending(Phase::ProbingEnvPort { port, attempt }) == Command::Probe(port),
        parse_u16_text(trimmed(text@)) is None ==> next_phase(
            Phase::ReadingPortFile,
            Event::PortFileText(Some(text)),
        ) == Phase::ReadingEnvPort,
        parse_u16_text(trimmed(text@)) is None ==> next_phase(
            Phase::ReadingEnvPort,
            Event::EnvPortText(Some(text)),
        ) == (Phase::Scanning { attempt: 1 }),
        next_phase(Phase::ProbingPortFile { port, attempt }, Event::ProbeAnswer(true))
            == (Phase::Done { port }),
        next_phase(Phase::ProbingEnvPort { port, attempt }, Event::ProbeAnswer(true))
            == (Phase::Done { port }),
{
}


/// A failed probe of the port-file port is retried, after 100 ms, until 40
/// probes have failed, and then `UTAH_VITE_PORT` is read; a failed probe of
/// the environment port is retried, after 250 ms, until 120 have failed, and
/// then the range is scanned; a scan that finds nothing is repeated, after
/// 250 ms, until 120 have found nothing, and then port 5173 is loaded. A scan
/// that finds a port in the range loads it, and says so with the scan's number.
pub proof fn failed_attempts_are_retried(port: u16, attempt: u32)
    requires
        1 <= attempt,
    ensures
        attempt < PORT_FILE_ATTEMPTS ==> next_phase(
            Phase::ProbingPortFile { port, attempt },
            Event::ProbeAnswer(false),
        ) == (Phase::ProbingPortFile { port, attempt: (attempt + 1) as u32 }),
        attempt == PORT_FILE_ATTEMPTS ==> next_phase(
            Phase::ProbingPortFile { port, attempt },
            Event::ProbeAnswer(false),
        ) == Phase::ReadingEnvPort,
        pause_of(next_effects(Phase::ProbingPortFile { port, attempt }, Event::ProbeAnswer(false)))
            == 100,
        attempt < ENV_PORT_ATTEMPTS ==> next_phase(
            Phase::ProbingEnvPort { port, attempt },
            Event::ProbeAnswer(false),
        ) == (Phase::ProbingEnvPort { port, attempt: (attempt + 1) as u32 }),
        attempt == ENV_PORT_ATTEMPTS ==> next_phase(
            Phase::ProbingEnvPort { port, attempt },
            Event::ProbeAnswer(false),
        ) == (Phase::Scanning { attempt: 1 }),
        pause_of(next_effects(Phase::ProbingEnvPort { port, attempt }, Event::ProbeAnswer(false)))
            == 250,
        attempt < SCAN_ATTEMPTS ==> next_phase(
            Phase::Scanning { attempt },
            Event::ScanAnswer(None),
        ) == (Phase::Scanning { attempt: (attempt + 1) as u32 }),
        attempt == SCAN_ATTEMPTS ==> next_phase(Phase::Scanning { attempt }, Event::ScanAnswer(None))
            == (Phase::Done { port: 5173 }),
        pause_of(next_effects(Phase::Scanning { attempt }, Event::ScanAnswer(None))) == 250,
        5173 <= port <= 5200 ==> next_phase(
            Phase::Scanning { attempt },
            Event::ScanAnswer(Some(port)),
        ) == (Phase::Done { port }) && next_effects(
            Phase::Scanning { attempt },
            Event::ScanAnswer(Some(port)),
        ) == seq![Effect::Say(Notice::TargetLocked { port, scan: attempt })],
{
    reveal_with_fuel(pause_of, 4);
    let a = next_effects(Phase::ProbingPortFile { port, attempt }, Event::ProbeAnswer(false));
    let b = next_effects(Phase::ProbingEnvPort { port, attempt }, Event::ProbeAnswer(false));
    let c = next_effects(Phase::Scanning { attempt }, Event::ScanAnswer(None));
    assert(a.drop_last().drop_last() =~= Seq::<Effect>::empty() || a.drop_last() =~= Seq::<
        Effect,
    >::empty());
    if b.len() == 3 {
        assert(b.drop_last().drop_last().drop_last() =~= Seq::<Effect>::empty());
    } else if b.len() == 2 {
        assert(b.drop_last().drop_last() =~= Seq::<Effect>::empty());
    } else {
        assert(b.drop_last() =~= Seq::<Effect>::empty());
    }
    if c.len() == 3 {
        assert(c.drop_last().drop_last().drop_last() =~= Seq::<Effect>::empty());
    } else if c.len() == 2 {
        assert(c.drop_last().drop_last() =~= Seq::<Effect>::empty());
    } else {
        assert(c.drop_last() =~= Seq::<Effect>::empty());
    }
}

} // verus!
