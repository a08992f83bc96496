use vstd::prelude::*;
use crate::bytes::{has_prefix, views, starts_with};
use crate::color::{color_named};
use crate::command::{line_body, color_token, probe_of, pass_command_of, plan_intercept};
use crate::fault::Fault;
use crate::messages::{
    considering_text, decided_pass_text, decided_play_text, pass_reply_text, undo_command_text,
    considering, decided_pass, decided_play, pass_reply, undo_command,
};
use crate::winrate::{winrate_values, winrate_tokens};

verus! {

/// Where the broker stands in its dialogue with the engine.
pub enum Phase {
    /// Waiting for the next controller line.
    Idle,
    /// The probe line went to the engine; waiting for its response.
    Probing { line: Vec<u8>, pass_command: Vec<u8> },
    /// The probe's winrate tokens were handed out; waiting for the verdict.
    Judging { line: Vec<u8>, pass_command: Vec<u8> },
    /// The undo went to the engine; waiting for its response.
    Undoing { forward: Vec<u8>, pass: bool },
    /// A line went to the engine; waiting for the response to relay.
    Relaying,
}

/// What happens to the broker.
#[derive(Clone, Debug, PartialEq, Eq)]
pub enum Event {
    /// A line read from the controller, line break included.
    Line(Vec<u8>),
    /// A framed engine response.
    Response(Vec<u8>),
    /// Whether the winrate judged from a probe calls for a pass.
    Verdict(bool),
}

/// What the broker asks to be done, in order.
#[derive(Clone, Debug, PartialEq, Eq)]
pub enum Action {
    /// Write these bytes to the engine's input.
    ToEngine(Vec<u8>),
    /// Write these bytes to the controller.
    ToController(Vec<u8>),
    /// Write these bytes to the diagnostic stream.
    ToDiagnostic(Vec<u8>),
    /// Judge these winrate tokens and answer with a verdict.
    Judge(Vec<Vec<u8>>),
}

/// The mathematical value of a phase.
pub enum PhaseV {
    Idle,
    Probing { line: Seq<u8>, pass_command: Seq<u8> },
    Judging { line: Seq<u8>, pass_command: Seq<u8> },
    Undoing { forward: Seq<u8>, pass: bool },
    Relaying,
}

/// The mathematical value of an event.
pub enum EventV {
    Line(Seq<u8>),
    Response(Seq<u8>),
    Verdict(bool),
}

/// The mathematical value of an action.
pub enum ActionV {
    ToEngine(Seq<u8>),
    ToController(Seq<u8>),
    ToDiagnostic(Seq<u8>),
    Judge(Seq<Seq<u8>>),
}

impl View for Phase {
    type V = PhaseV;

    open spec fn view(&self) -> PhaseV {
        match self {
            Phase::Idle => PhaseV::Idle,
            Phase::Probing { line, pass_command } => PhaseV::Probing {
                line: line@,
                pass_command: pass_command@,
            },
            Phase::Judging { line, pass_command } => PhaseV::Judging {
                line: line@,
                pass_command: pass_command@,
            },
            Phase::Undoing { forward, pass } => PhaseV::Undoing { forward: forward@, pass: *pass },
            Phase::Relaying => PhaseV::Relaying,
        }
    }
}

impl View for Event {
    type V = EventV;

    open spec fn view(&self) -> EventV {
        match self {
            Event::Line(l) => EventV::Line(l@),
            Event::Response(r) => EventV::Response(r@),
            Event::Verdict(p) => EventV::Verdict(*p),
        }
    }
}

impl View for Action {
    type V = ActionV;

    open spec fn view(&self) -> ActionV {
        match self {
            Action::ToEngine(b) => ActionV::ToEngine(b@),
            Action::ToController(b) => ActionV::ToController(b@),
            Action::ToDiagnostic(b) => ActionV::ToDiagnostic(b@),
            Action::Judge(ts) => ActionV::Judge(views(ts@)),
        }
    }
}

/// The views of a list of actions.
pub open spec fn action_views(a: Seq<Action>) -> Seq<ActionV> {
    a.map_values(|x: Action| x@)
}

/// What a controller line does in the idle phase.
pub open spec fn on_line(intercept: Seq<u8>, l: Seq<u8>) -> Result<(PhaseV, Seq<ActionV>), Fault> {
    if !has_prefix(l, intercept) {
        Ok((PhaseV::Relaying, seq![ActionV::ToEngine(l)]))
    } else {
        match color_token(line_body(l)) {
            None => Err(Fault::MissingColor),
            Some(t) => match color_named(t) {
                None => Err(Fault::UnknownColor),
                Some(c) => Ok(
                    (
                        PhaseV::Probing { line: l, pass_command: pass_command_of(c) },
                        seq![
                            ActionV::ToDiagnostic(considering_text()),
                            ActionV::ToEngine(probe_of(line_body(l), c)),
                        ],
                    ),
                ),
            },
        }
    }
}

/// The broker's transition: from a phase and an event to the next phase and
/// the actions to take, or the fault that stops it.
pub open spec fn next(intercept: Seq<u8>, p: PhaseV, e: EventV) -> Result<
    (PhaseV, Seq<ActionV>),
    Fault,
> {
    match (p, e) {
        (PhaseV::Idle, EventV::Line(l)) => on_line(intercept, l),
        (PhaseV::Probing { line, pass_command }, EventV::Response(r)) => Ok(
            (
                PhaseV::Judging { line, pass_command },
                seq![ActionV::Judge(winrate_values(r))],
            ),
        ),
        (PhaseV::Judging { line, pass_command }, EventV::Verdict(pass)) => Ok(
            (
                PhaseV::Undoing { forward: if pass { pass_command } else { line }, pass },
                seq![ActionV::ToEngine(undo_command_text())],
            ),
        ),
        (PhaseV::Undoing { forward, pass }, EventV::Response(_)) => Ok(
            (
                PhaseV::Relaying,
                if pass {
                    seq![
                        ActionV::ToDiagnostic(decided_pass_text()),
                        ActionV::ToController(pass_reply_text()),
                        ActionV::ToEngine(forward),
                    ]
                } else {
                    seq![ActionV::ToDiagnostic(decided_play_text()), ActionV::ToEngine(forward)]
                },
            ),
        ),
        (PhaseV::Relaying, EventV::Response(r)) => Ok(
            (PhaseV::Idle, seq![ActionV::ToController(r)]),
        ),
        _ => Err(Fault::OutOfOrder),
    }
}

/// The interception broker: decides, line by line, what reaches the engine
/// and what reaches the controller.
pub struct Broker {
    intercept: Vec<u8>,
    phase: Phase,
}

impl Broker {
    /// The prefix that marks a line for interception.
    pub closed spec fn prefix(&self) -> Seq<u8> {
        self.intercept@
    }

    /// The broker's current phase.
    pub closed spec fn phase_view(&self) -> PhaseV {
        self.phase@
    }

    /// A broker in the idle phase that intercepts lines beginning with `intercept`.
    pub fn new(intercept: Vec<u8>) -> (r: Broker)
        ensures
            r.prefix() == intercept@,
            r.phase_view() == PhaseV::Idle,
    {
        Broker { intercept, phase: Phase::Idle }
    }

    /// Whether the broker waits for a controller line.
    pub fn is_idle(&self) -> (r: bool)
        ensures
            r == (self.phase_view() == PhaseV::Idle),
    {
        match self.phase {
            Phase::Idle => true,
            _ => false,
        }
    }

    /// Takes one event; returns the actions to perform, in order. On a fault
    /// the broker is left as it was.
    pub fn step(&mut self, ev: Event) -> (r: Result<Vec<Action>, Fault>)
        ensures
            final(self).prefix() == old(self).prefix(),
            match next(old(self).prefix(), old(self).phase_view(), ev@) {
                Ok((p, acts)) => r is Ok && action_views(r->Ok_0@) == acts
                    && final(self).phase_view() == p,
                Err(f) => r == Err::<Vec<Action>, Fault>(f) && final(self).phase_view()
                    == old(self).phase_view(),
            },
    {
        let mut phase = Phase::Idle;
        std::mem::swap(&mut phase, &mut self.phase);
        let ghost before = phase@;
        let mut acts: Vec<Action> = Vec::new();
        match (phase, ev) {
            (Phase::Idle, Event::Line(l)) => {
                if !starts_with(l.as_slice(), self.intercept.as_slice()) {
                    acts.push(Action::ToEngine(l));
                    self.phase = Phase::Relaying;
                } else {
                    match plan_intercept(l.as_slice()) {
                        Err(f) => {
                            return Err(f);
                        },
                        Ok(plan) => {
                            acts.push(Action::ToDiagnostic(considering()));
                            acts.push(Action::ToEngine(plan.probe));
                            self.phase = Phase::Probing { line: l, pass_command: plan.pass_command };
                        },
                    }
                }
            },
            (Phase::Probing { line, pass_command }, Event::Response(r)) => {
                acts.push(Action::Judge(winrate_tokens(r.as_slice())));
                self.phase = Phase::Judging { line, pass_command };
            },
            (Phase::Judging { line, pass_command }, Event::Verdict(pass)) => {
                acts.push(Action::ToEngine(undo_command()));
                self.phase = Phase::Undoing {
                    forward: if pass {
                        pass_command
                    } else {
                        line
                    },
                    pass,
                };
            },
            (Phase::Undoing { forward, pass }, Event::Response(_)) => {
                if pass {
                    acts.push(Action::ToDiagnostic(decided_pass()));
                    acts.push(Action::ToController(pass_reply()));
                } else {
                    acts.push(Action::ToDiagnostic(decided_play()));
                }
                acts.push(Action::ToEngine(forward));
                self.phase = Phase::Relaying;
            },
            (Phase::Relaying, Event::Response(r)) => {
                acts.push(Action::ToController(r));
                self.phase = Phase::Idle;
            },
            (other, _) => {
                self.phase = other;
                return Err(Fault::OutOfOrder);
            },
        }
        assert(action_views(acts@) =~= next(self.intercept@, before, ev@)->Ok_0.1);
        Ok(acts)
    }
}

/// A line that does not begin with the intercept prefix goes to the engine
/// byte for byte, and the one response that comes back reaches the
/// controller unchanged, leaving the broker idle again.
pub proof fn lemma_plain_line_passes_through(intercept: Seq<u8>, l: Seq<u8>, r: Seq<u8>)
    requires
        !has_prefix(l, intercept),
    ensures
        next(intercept, PhaseV::Idle, EventV::Line(l)) == Ok::<(PhaseV, Seq<ActionV>), Fault>(
            (PhaseV::Relaying, seq![ActionV::ToEngine(l)]),
        ),
        next(intercept, PhaseV::Relaying, EventV::Response(r)) == Ok::<
            (PhaseV, Seq<ActionV>),
            Fault,
        >((PhaseV::Idle, seq![ActionV::ToController(r)])),
{
}

/// How many engine responses a phase still waits for.
pub open spec fn outstanding(p: PhaseV) -> nat {
    match p {
        PhaseV::Probing { .. } => 1,
        PhaseV::Undoing { .. } => 1,
        PhaseV::Relaying => 1,
        _ => 0,
    }
}

/// How many of `acts` write to the engine.
pub open spec fn engine_writes(acts: Seq<ActionV>) -> nat
    decreases acts.len(),
{
    if acts.len() == 0 {
        0
    } else {
        engine_writes(acts.drop_last()) + if acts.last() is ToEngine {
            1nat
        } else {
            0nat
        }
    }
}

/// How many engine responses an event hands in.
pub open spec fn responses_taken(e: EventV) -> nat {
    if e is Response {
        1
    } else {
        0
    }
}

/// Every command written to the engine is answered by exactly one response
/// that the broker takes in, and it never has more than one outstanding:
/// across any step, the responses awaited before plus the commands written
/// equal the responses awaited after plus the one taken in.
pub proof fn lemma_one_response_per_command(intercept: Seq<u8>, p: PhaseV, e: EventV)
    requires
        next(intercept, p, e) is Ok,
    ensures
        outstanding(p) + engine_writes(next(intercept, p, e)->Ok_0.1) == outstanding(
            next(intercept, p, e)->Ok_0.0,
        ) + responses_taken(e),
        outstanding(next(intercept, p, e)->Ok_0.0) <= 1,
{
    reveal_with_fuel(engine_writes, 4);
    let acts = next(intercept, p, e)->Ok_0.1;
    if acts.len() == 3 {
        assert(acts.drop_last().drop_last().drop_last() =~= Seq::<ActionV>::empty());
    } else if acts.len() == 2 {
        assert(acts.drop_last().drop_last() =~= Seq::<ActionV>::empty());
    } else if acts.len() == 1 {
        assert(acts.drop_last() =~= Seq::<ActionV>::empty());
    }
}

} // verus!
