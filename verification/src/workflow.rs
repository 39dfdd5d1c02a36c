//! The command flow shared by cleanup and scaling:
//! discover, analyze, propose, then either a dry-run report or, behind an
//! optional confirmation gate, the execution of every proposed action and a
//! final report.
//!
//! The flow is a state machine. The caller performs the outside work that a
//! [`Directive`] names and hands the result back as an [`Event`].

use vstd::prelude::*;

verus! {

/// Where a command stands.
#[derive(Clone, Copy, Debug, PartialEq, Eq, Structural)]
pub enum Phase {
    Discover,
    Analyze,
    Propose,
    DryRunReport,
    ConfirmationGate,
    Execute,
    Report,
    Done,
}

/// How a command ended.
#[derive(Clone, Copy, Debug, PartialEq, Eq, Structural)]
pub enum Outcome {
    /// The inventory held nothing to look at.
    NothingFound,
    /// The analysis proposed no action.
    NothingProposed,
    /// The proposal was reported and nothing was applied.
    DryRun,
    /// The user declined at the confirmation gate.
    Aborted,
    /// Every proposed action was attempted; some may have failed.
    Completed,
    /// Inventory or metrics could not be retrieved.
    RetrievalFailed,
}

/// What the caller reports back.
#[derive(Clone, Copy, Debug, PartialEq, Eq, Structural)]
pub enum Event {
    InventoryFetched { resources: usize },
    RetrievalFailed,
    Analyzed { actions: usize },
    ProposalShown,
    Answered { affirmative: bool },
    Applied { success: bool },
    ReportShown,
}

/// What the caller is to do next.
#[derive(Clone, Copy, Debug, PartialEq, Eq, Structural)]
pub enum Directive {
    FetchInventory,
    Analyze,
    ShowProposal,
    ShowDryRunReport,
    AskConfirmation,
    /// Apply the proposed action at this position of the proposal.
    Apply { index: usize },
    ShowReport,
    Finish { outcome: Outcome },
    /// The event does not belong to the current phase; nothing changed.
    Unexpected,
}

/// The mathematical state of a command.
pub struct WorkflowState {
    pub phase: Phase,
    pub dry_run: bool,
    pub confirm: bool,
    pub proposed: nat,
    pub outcomes: Seq<bool>,
    pub result: Option<Outcome>,
}

impl WorkflowState {
    /// The state of a command that has not done anything yet.
    pub open spec fn initial(dry_run: bool, confirm: bool) -> WorkflowState {
        WorkflowState {
            phase: Phase::Discover,
            dry_run,
            confirm,
            proposed: 0,
            outcomes: Seq::empty(),
            result: None,
        }
    }

    /// What every reachable state satisfies.
    pub open spec fn well_formed(self) -> bool {
        &&& self.outcomes.len() <= self.proposed
        &&& self.proposed <= usize::MAX
        &&& (self.phase == Phase::Done <==> self.result is Some)
        &&& (self.phase == Phase::Discover || self.phase == Phase::Analyze) ==> self.proposed == 0
        &&& (self.phase == Phase::Propose || self.phase == Phase::DryRunReport || self.phase
            == Phase::ConfirmationGate) ==> self.proposed > 0 && self.outcomes.len() == 0
        &&& self.phase == Phase::DryRunReport ==> self.dry_run
        &&& self.phase == Phase::ConfirmationGate ==> !self.dry_run && self.confirm
        &&& self.phase == Phase::Execute ==> !self.dry_run && self.outcomes.len() < self.proposed
        &&& self.phase == Phase::Report ==> !self.dry_run && self.proposed > 0
            && self.outcomes.len() == self.proposed
        &&& self.dry_run ==> self.outcomes.len() == 0
        &&& self.result == Some(Outcome::Completed) ==> self.proposed > 0 && self.outcomes.len()
            == self.proposed
        &&& (self.result is Some && self.result != Some(Outcome::Completed))
            ==> self.outcomes.len() == 0
        &&& (self.result == Some(Outcome::NothingFound) || self.result == Some(
            Outcome::NothingProposed,
        ) || self.result == Some(Outcome::RetrievalFailed)) ==> self.proposed == 0
        &&& (self.result == Some(Outcome::DryRun) || self.result == Some(Outcome::Aborted))
            ==> self.proposed > 0
        &&& self.result == Some(Outcome::DryRun) ==> self.dry_run
        &&& self.result == Some(Outcome::Aborted) ==> !self.dry_run && self.confirm
    }

    pub open spec fn finished(self, outcome: Outcome) -> WorkflowState {
        WorkflowState { phase: Phase::Done, result: Some(outcome), ..self }
    }

    pub open spec fn at(self, phase: Phase) -> WorkflowState {
        WorkflowState { phase, ..self }
    }

    /// The state that follows `self` on `event`.
    pub open spec fn next(self, event: Event) -> WorkflowState {
        match (self.phase, event) {
            (Phase::Discover, Event::InventoryFetched { resources }) => if resources == 0 {
                self.finished(Outcome::NothingFound)
            } else {
                self.at(Phase::Analyze)
            },
            (Phase::Discover, Event::RetrievalFailed) => self.finished(Outcome::RetrievalFailed),
            (Phase::Analyze, Event::Analyzed { actions }) => if actions == 0 {
                self.finished(Outcome::NothingProposed)
            } else {
                WorkflowState { phase: Phase::Propose, proposed: actions as nat, ..self }
            },
            (Phase::Analyze, Event::RetrievalFailed) => self.finished(Outcome::RetrievalFailed),
            (Phase::Propose, Event::ProposalShown) => if self.dry_run {
                self.at(Phase::DryRunReport)
            } else if self.confirm {
                self.at(Phase::ConfirmationGate)
            } else {
                self.at(Phase::Execute)
            },
            (Phase::DryRunReport, Event::ReportShown) => self.finished(Outcome::DryRun),
            (Phase::ConfirmationGate, Event::Answered { affirmative }) => if affirmative {
                self.at(Phase::Execute)
            } else {
                self.finished(Outcome::Aborted)
            },
            (Phase::Execute, Event::Applied { success }) => {
                let outcomes = self.outcomes.push(success);
                if outcomes.len() == self.proposed {
                    WorkflowState { phase: Phase::Report, outcomes, ..self }
                } else {
                    WorkflowState { outcomes, ..self }
                }
            },
            (Phase::Report, Event::ReportShown) => self.finished(Outcome::Completed),
            _ => self,
        }
    }

    /// Whether `event` is one that the current phase waits for.
    pub open spec fn expects(self, event: Event) -> bool {
        match (self.phase, event) {
            (Phase::Discover, Event::InventoryFetched { .. }) => true,
            (Phase::Discover, Event::RetrievalFailed) => true,
            (Phase::Analyze, Event::Analyzed { .. }) => true,
            (Phase::Analyze, Event::RetrievalFailed) => true,
            (Phase::Propose, Event::ProposalShown) => true,
            (Phase::DryRunReport, Event::ReportShown) => true,
            (Phase::ConfirmationGate, Event::Answered { .. }) => true,
            (Phase::Execute, Event::Applied { .. }) => true,
            (Phase::Report, Event::ReportShown) => true,
            _ => false,
        }
    }

    /// What the caller is to do on entering this state.
    pub open spec fn entry_directive(self) -> Directive {
        match self.phase {
            Phase::Discover => Directive::FetchInventory,
            Phase::Analyze => Directive::Analyze,
            Phase::Propose => Directive::ShowProposal,
            Phase::DryRunReport => Directive::ShowDryRunReport,
            Phase::ConfirmationGate => Directive::AskConfirmation,
            Phase::Execute => Directive::Apply { index: self.outcomes.len() as usize },
            Phase::Report => Directive::ShowReport,
            Phase::Done => match self.result {
                Some(outcome) => Directive::Finish { outcome },
                None => Directive::Unexpected,
            },
        }
    }

    /// The directive that answers `event` in this state.
    pub open spec fn directive(self, event: Event) -> Directive {
        if self.phase == Phase::Done || self.expects(event) {
            self.next(event).entry_directive()
        } else {
            Directive::Unexpected
        }
    }

    /// The state after the events of `events`, taken in order.
    pub open spec fn run(self, events: Seq<Event>) -> WorkflowState
        decreases events.len(),
    {
        if events.len() == 0 {
            self
        } else {
            self.run(events.drop_last()).next(events.last())
        }
    }

    /// How many of the applied actions succeeded.
    pub open spec fn succeeded(self) -> nat {
        count_of(self.outcomes, true)
    }

    /// How many of the applied actions failed.
    pub open spec fn failed(self) -> nat {
        count_of(self.outcomes, false)
    }
}

/// How often `value` occurs in `outcomes`.
pub open spec fn count_of(outcomes: Seq<bool>, value: bool) -> nat
    decreases outcomes.len(),
{
    if outcomes.len() == 0 {
        0
    } else {
        count_of(outcomes.drop_last(), value) + if outcomes.last() == value {
            1nat
        } else {
            0nat
        }
    }
}

/// The events that report the results of applying actions, one for each.
pub open spec fn applied_events(results: Seq<bool>) -> Seq<Event> {
    results.map_values(|success: bool| Event::Applied { success })
}

impl Outcome {
    /// The command ended in failure. Declining to confirm, a dry run and a
    /// run in which some actions failed are not failures of the command.
    pub open spec fn failure(self) -> bool {
        self == Outcome::RetrievalFailed
    }

    /// Whether the command ended in failure.
    pub fn is_failure(&self) -> (r: bool)
        ensures
            r == self.failure(),
    {
        match self {
            Outcome::RetrievalFailed => true,
            _ => false,
        }
    }
}

/// One run of a command, from discovery to its outcome.
pub struct Workflow {
    phase: Phase,
    dry_run: bool,
    confirm: bool,
    proposed: usize,
    outcomes: Vec<bool>,
    result: Option<Outcome>,
}

impl View for Workflow {
    type V = WorkflowState;

    closed spec fn view(&self) -> WorkflowState {
        WorkflowState {
            phase: self.phase,
            dry_run: self.dry_run,
            confirm: self.confirm,
            proposed: self.proposed as nat,
            outcomes: self.outcomes@,
            result: self.result,
        }
    }
}

impl Workflow {
    #[verifier::type_invariant]
    spec fn state_invariant(self) -> bool {
        self@.well_formed()
    }

    /// A command at its beginning. With `dry_run` nothing is ever applied;
    /// with `confirm` the user is asked before anything is.
    pub fn start(dry_run: bool, confirm: bool) -> (r: (Workflow, Directive))
        ensures
            r.0@ == WorkflowState::initial(dry_run, confirm),
            r.0@.well_formed(),
            r.1 == Directive::FetchInventory,
    {
        let workflow = Workflow {
            phase: Phase::Discover,
            dry_run,
            confirm,
            proposed: 0,
            outcomes: Vec::new(),
            result: None,
        };
        (workflow, Directive::FetchInventory)
    }

    /// Where the command stands.
    pub fn phase(&self) -> (phase: Phase)
        ensures
            phase == self@.phase,
            self@.well_formed(),
    {
        proof {
            use_type_invariant(self);
        }
        self.phase
    }

    /// How the command ended, once it has.
    pub fn outcome(&self) -> (outcome: Option<Outcome>)
        ensures
            outcome == self@.result,
            self@.well_formed(),
    {
        proof {
            use_type_invariant(self);
        }
        self.result
    }

    /// The number of actions proposed.
    pub fn proposed(&self) -> (n: usize)
        ensures
            n == self@.proposed,
            self@.well_formed(),
    {
        proof {
            use_type_invariant(self);
        }
        self.proposed
    }

    /// Whether the action at `index` of the proposal succeeded, or `None`
    /// where it has not been applied.
    pub fn applied(&self, index: usize) -> (r: Option<bool>)
        ensures
            r == if index < self@.outcomes.len() {
                Some(self@.outcomes[index as int])
            } else {
                None
            },
    {
        if index < self.outcomes.len() {
            Some(self.outcomes[index])
        } else {
            None
        }
    }

    /// How many of the applied actions succeeded and how many failed.
    pub fn tally(&self) -> (r: (usize, usize))
        ensures
            r.0 == self@.succeeded(),
            r.1 == self@.failed(),
            r.0 + r.1 == self@.outcomes.len(),
    {
        let mut succeeded: usize = 0;
        let mut failed: usize = 0;
        let mut i: usize = 0;
        while i < self.outcomes.len()
            invariant
                i <= self.outcomes.len(),
                succeeded == count_of(self.outcomes@.take(i as int), true),
                failed == count_of(self.outcomes@.take(i as int), false),
                succeeded + failed == i,
            decreases self.outcomes.len() - i,
        {
            proof {
                assert(self.outcomes@.take(i + 1).drop_last() =~= self.outcomes@.take(i as int));
            }
            if self.outcomes[i] {
                succeeded += 1;
            } else {
                failed += 1;
            }
            i += 1;
        }
        assert(self.outcomes@.take(i as int) =~= self.outcomes@);
        (succeeded, failed)
    }

    /// Takes `event` and says what to do next.
    pub fn step(self, event: Event) -> (r: (Workflow, Directive))
        ensures
            self@.well_formed(),
            r.0@ == self@.next(event),
            r.0@.well_formed(),
            r.1 == self@.directive(event),
    {
        proof {
            use_type_invariant(&self);
        }
        let Workflow { phase, dry_run, confirm, proposed, outcomes, result } = self;
        match (phase, event) {
            (Phase::Discover, Event::InventoryFetched { resources }) => {
                if resources == 0 {
                    let outcome = Outcome::NothingFound;
                    (
                        Workflow {
                            phase: Phase::Done,
                            dry_run,
                            confirm,
                            proposed,
                            outcomes,
                            result: Some(outcome),
                        },
                        Directive::Finish { outcome },
                    )
                } else {
                    (
                        Workflow { phase: Phase::Analyze, dry_run, confirm, proposed, outcomes, result },
                        Directive::Analyze,
                    )
                }
            },
            (Phase::Discover, Event::RetrievalFailed) | (Phase::Analyze, Event::RetrievalFailed) => {
                let outcome = Outcome::RetrievalFailed;
                (
                    Workflow {
                        phase: Phase::Done,
                        dry_run,
                        confirm,
                        proposed,
                        outcomes,
                        result: Some(outcome),
                    },
                    Directive::Finish { outcome },
                )
            },
            (Phase::Analyze, Event::Analyzed { actions }) => {
                if actions == 0 {
                    let outcome = Outcome::NothingProposed;
                    (
                        Workflow {
                            phase: Phase::Done,
                            dry_run,
                            confirm,
                            proposed,
                            outcomes,
                            result: Some(outcome),
                        },
                        Directive::Finish { outcome },
                    )
                } else {
                    (
                        Workflow {
                            phase: Phase::Propose,
                            dry_run,
                            confirm,
                            proposed: actions,
                            outcomes,
                            result,
                        },
                        Directive::ShowProposal,
                    )
                }
            },
            (Phase::Propose, Event::ProposalShown) => {
                if dry_run {
                    (
                        Workflow {
                            phase: Phase::DryRunReport,
                            dry_run,
                            confirm,
                            proposed,
                            outcomes,
                            result,
                        },
                        Directive::ShowDryRunReport,
                    )
                } else if confirm {
                    (
                        Workflow {
                            phase: Phase::ConfirmationGate,
                            dry_run,
                            confirm,
                            proposed,
                            outcomes,
                            result,
                        },
                        Directive::AskConfirmation,
                    )
                } else {
                    (
                        Workflow { phase: Phase::Execute, dry_run, confirm, proposed, outcomes, result },
                        Directive::Apply { index: 0 },
                    )
                }
            },
            (Phase::DryRunReport, Event::ReportShown) => {
                let outcome = Outcome::DryRun;
                (
                    Workflow {
                        phase: Phase::Done,
                        dry_run,
                        confirm,
                        proposed,
                        outcomes,
                        result: Some(outcome),
                    },
                    Directive::Finish { outcome },
                )
            },
            (Phase::ConfirmationGate, Event::Answered { affirmative }) => {
                if affirmative {
                    (
                        Workflow { phase: Phase::Execute, dry_run, confirm, proposed, outcomes, result },
                        Directive::Apply { index: 0 },
                    )
                } else {
                    let outcome = Outcome::Aborted;
                    (
                        Workflow {
                            phase: Phase::Done,
                            dry_run,
                            confirm,
                            proposed,
                            outcomes,
                            result: Some(outcome),
                        },
                        Directive::Finish { outcome },
                    )
                }
            },
            (Phase::Execute, Event::Applied { success }) => {
                let mut outcomes = outcomes;
                outcomes.push(success);
                let applied = outcomes.len();
                if applied == proposed {
                    (
                        Workflow { phase: Phase::Report, dry_run, confirm, proposed, outcomes, result },
                        Directive::ShowReport,
                    )
                } else {
                    (
                        Workflow { phase: Phase::Execute, dry_run, confirm, proposed, outcomes, result },
                        Directive::Apply { index: applied },
                    )
                }
            },
            (Phase::Report, Event::ReportShown) => {
                let outcome = Outcome::Completed;
                (
                    Workflow {
                        phase: Phase::Done,
                        dry_run,
                        confirm,
                        proposed,
                        outcomes,
                        result: Some(outcome),
                    },
                    Directive::Finish { outcome },
                )
            },
            (Phase::Done, _) => {
                match result {
                    Some(outcome) => (
                        Workflow { phase, dry_run, confirm, proposed, outcomes, result },
                        Directive::Finish { outcome },
                    ),
                    None => (
                        Workflow { phase, dry_run, confirm, proposed, outcomes, result },
                        Directive::Unexpected,
                    ),
                }
            },
            _ => (
                Workflow { phase, dry_run, confirm, proposed, outcomes, result },
                Directive::Unexpected,
            ),
        }
    }
}

/// Every step keeps a well-formed state well-formed.
pub proof fn lemma_next_well_formed(state: WorkflowState, event: Event)
    requires
        state.well_formed(),
    ensures
        state.next(event).well_formed(),
{
}

/// Whatever the events, a command that started at the beginning is in a
/// well-formed state.
pub proof fn lemma_run_well_formed(dry_run: bool, confirm: bool, events: Seq<Event>)
    ensures
        WorkflowState::initial(dry_run, confirm).run(events).well_formed(),
        WorkflowState::initial(dry_run, confirm).run(events).dry_run == dry_run,
        WorkflowState::initial(dry_run, confirm).run(events).confirm == confirm,
    decreases events.len(),
{
    if events.len() > 0 {
        lemma_run_well_formed(dry_run, confirm, events.drop_last());
        lemma_next_well_formed(
            WorkflowState::initial(dry_run, confirm).run(events.drop_last()),
            events.last(),
        );
    }
}

/// In a dry run nothing is ever applied: whatever the events, the command
/// never executes, and no directive asks for an action to be applied.
pub proof fn lemma_dry_run_applies_nothing(confirm: bool, events: Seq<Event>, event: Event)
    ensures
        WorkflowState::initial(true, confirm).run(events).phase != Phase::Execute,
        WorkflowState::initial(true, confirm).run(events).outcomes.len() == 0,
        !(WorkflowState::initial(true, confirm).run(events).directive(event) is Apply),
{
    lemma_run_well_formed(true, confirm, events);
    lemma_run_well_formed(true, confirm, events.push(event));
    assert(events.push(event).drop_last() =~= events);
}

/// Where confirmation is required, nothing is applied unless the user
/// consented: a command that executes or has applied anything has passed the
/// gate with an affirmative answer.
pub proof fn lemma_gate_guards_execution(state: WorkflowState, event: Event)
    requires
        state.well_formed(),
        state.confirm,
        state.phase != Phase::Execute,
        state.next(event).phase == Phase::Execute,
    ensures
        state.phase == Phase::ConfirmationGate,
        event == (Event::Answered { affirmative: true }),
{
}

/// Declining to confirm ends the command at once, and not as a failure.
pub proof fn lemma_decline_ends_normally(state: WorkflowState)
    requires
        state.well_formed(),
        state.phase == Phase::ConfirmationGate,
    ensures
        state.next(Event::Answered { affirmative: false }).phase == Phase::Done,
        state.next(Event::Answered { affirmative: false }).result == Some(Outcome::Aborted),
        !Outcome::Aborted.failure(),
        state.next(Event::Answered { affirmative: false }).outcomes.len() == 0,
{
}

/// A failed retrieval ends the command before anything is proposed.
pub proof fn lemma_retrieval_failure_is_fatal(state: WorkflowState)
    requires
        state.well_formed(),
        state.phase == Phase::Discover || state.phase == Phase::Analyze,
    ensures
        state.next(Event::RetrievalFailed).phase == Phase::Done,
        state.next(Event::RetrievalFailed).result == Some(Outcome::RetrievalFailed),
        state.next(Event::RetrievalFailed).proposed == 0,
        Outcome::RetrievalFailed.failure(),
{
}

/// A command that has ended stays as it is.
pub proof fn lemma_done_absorbs(state: WorkflowState, events: Seq<Event>)
    requires
        state.phase == Phase::Done,
    ensures
        state.run(events) == state,
    decreases events.len(),
{
    if events.len() > 0 {
        lemma_done_absorbs(state, events.drop_last());
    }
}

/// The failure of one action does not stop the batch: whether an action
/// succeeded or failed, its result is recorded and the command goes on to
/// the next action, or to the report after the last.
pub proof fn lemma_failure_does_not_stop_batch(state: WorkflowState, success: bool)
    requires
        state.well_formed(),
        state.phase == Phase::Execute,
    ensures
        state.next(Event::Applied { success }).outcomes == state.outcomes.push(success),
        state.next(Event::Applied { success }).phase == state.next(
            Event::Applied { success: !success },
        ).phase,
        state.directive(Event::Applied { success }) == state.directive(
            Event::Applied { success: !success },
        ),
        state.outcomes.len() + 1 < state.proposed ==> state.directive(Event::Applied { success })
            == (Directive::Apply { index: (state.outcomes.len() + 1) as usize }),
        state.outcomes.len() + 1 == state.proposed ==> state.directive(Event::Applied { success })
            == Directive::ShowReport,
{
}

/// Executing applies every proposed action exactly once, in order: after
/// one result for each action that was still to be applied, whatever the
/// results, the command is at its report with all of them on record.
pub proof fn lemma_batch_completes(state: WorkflowState, results: Seq<bool>)
    requires
        state.well_formed(),
        state.phase == Phase::Execute,
        state.outcomes.len() + results.len() == state.proposed,
    ensures
        state.run(applied_events(results)).phase == Phase::Report,
        state.run(applied_events(results)).outcomes == state.outcomes + results,
        state.run(applied_events(results)).proposed == state.proposed,
{
    lemma_batch_progress(state, results, results.len() as int);
    assert(results.take(results.len() as int) =~= results);
}

/// The state after the first `n` results of a batch.
proof fn lemma_batch_progress(state: WorkflowState, results: Seq<bool>, n: int)
    requires
        state.well_formed(),
        state.phase == Phase::Execute,
        state.outcomes.len() + results.len() == state.proposed,
        0 <= n <= results.len(),
    ensures
        state.run(applied_events(results.take(n))).outcomes == state.outcomes + results.take(n),
        state.run(applied_events(results.take(n))).proposed == state.proposed,
        state.run(applied_events(results.take(n))).dry_run == state.dry_run,
        state.run(applied_events(results.take(n))).well_formed(),
        state.run(applied_events(results.take(n))).phase == if n == results.len() {
            Phase::Report
        } else {
            Phase::Execute
        },
    decreases n,
{
    let events = applied_events(results.take(n));
    if n == 0 {
        assert(state.outcomes + results.take(0) =~= state.outcomes);
    } else {
        lemma_batch_progress(state, results, n - 1);
        let before = applied_events(results.take(n - 1));
        assert(events.drop_last() =~= before);
        assert(events.last() == Event::Applied { success: results[n - 1] });
        assert(state.outcomes + results.take(n) =~= (state.outcomes + results.take(n - 1)).push(
            results[n - 1],
        ));
    }
}

/// Every applied action either succeeded or failed.
pub proof fn lemma_tally_adds_up(outcomes: Seq<bool>)
    ensures
        count_of(outcomes, true) + count_of(outcomes, false) == outcomes.len(),
    decreases outcomes.len(),
{
    if outcomes.len() > 0 {
        lemma_tally_adds_up(outcomes.drop_last());
    }
}

} // verus!
