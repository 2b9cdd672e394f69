//! The decisions of the adaptive integration of the stellar structure equations:
//! which shell quantity is reported when a state is non-physical, and the step
//! controller that, from what each trial step gave, decides whether the integration
//! advances, retries with a smaller step, finishes or fails.

use vstd::prelude::*;

verus! {

/// A quantity of a shell state that must be positive for the structure equations to
/// be evaluated.
#[derive(Clone, Copy, Debug, PartialEq, Eq, Structural)]
pub enum StateField {
    Radius,
    Pressure,
    Temperature,
    Density,
}

/// The name by which a state quantity is reported.
pub open spec fn field_name(f: StateField) -> Seq<char> {
    match f {
        StateField::Radius => "radius"@,
        StateField::Pressure => "pressure"@,
        StateField::Temperature => "temperature"@,
        StateField::Density => "density"@,
    }
}

impl StateField {
    /// The name of this quantity: `"radius"`, `"pressure"`, `"temperature"` or `"density"`.
    pub fn name(&self) -> (s: &'static str)
        ensures
            s@ == field_name(*self),
            *self == StateField::Radius ==> s@ == "radius"@,
            *self == StateField::Pressure ==> s@ == "pressure"@,
            *self == StateField::Temperature ==> s@ == "temperature"@,
            *self == StateField::Density ==> s@ == "density"@,
    {
        match self {
            StateField::Radius => "radius",
            StateField::Pressure => "pressure",
            StateField::Temperature => "temperature",
            StateField::Density => "density",
        }
    }
}

/// The first quantity, in the order radius, pressure, temperature, that is flagged as
/// not positive.
pub open spec fn first_non_physical(
    radius_nonpositive: bool,
    pressure_nonpositive: bool,
    temperature_nonpositive: bool,
) -> Option<StateField> {
    if radius_nonpositive {
        Some(StateField::Radius)
    } else if pressure_nonpositive {
        Some(StateField::Pressure)
    } else if temperature_nonpositive {
        Some(StateField::Temperature)
    } else {
        None
    }
}

/// Position of a state quantity in the order in which it is judged.
pub open spec fn field_rank(f: StateField) -> int {
    match f {
        StateField::Radius => 0,
        StateField::Pressure => 1,
        StateField::Temperature => 2,
        StateField::Density => 3,
    }
}

/// Whether a quantity is flagged as not positive, given the flags of radius, pressure
/// and temperature; the density is judged separately and is never flagged here.
pub open spec fn flagged_nonpositive(
    f: StateField,
    radius_nonpositive: bool,
    pressure_nonpositive: bool,
    temperature_nonpositive: bool,
) -> bool {
    match f {
        StateField::Radius => radius_nonpositive,
        StateField::Pressure => pressure_nonpositive,
        StateField::Temperature => temperature_nonpositive,
        StateField::Density => false,
    }
}

/// `first_non_physical` names exactly the quantity that is flagged while no quantity
/// before it in the order radius, pressure, temperature is; it is `None` exactly when
/// no quantity is flagged. In particular a non-positive radius is always reported.
pub proof fn lemma_first_non_physical_is_first(
    f: StateField,
    radius_nonpositive: bool,
    pressure_nonpositive: bool,
    temperature_nonpositive: bool,
)
    ensures
        first_non_physical(radius_nonpositive, pressure_nonpositive, temperature_nonpositive) == Some(f)
            <==> (flagged_nonpositive(
            f,
            radius_nonpositive,
            pressure_nonpositive,
            temperature_nonpositive,
        ) && forall|g: StateField|
            field_rank(g) < field_rank(f) ==> !#[trigger] flagged_nonpositive(
                g,
                radius_nonpositive,
                pressure_nonpositive,
                temperature_nonpositive,
            )),
        first_non_physical(radius_nonpositive, pressure_nonpositive, temperature_nonpositive) is None
            <==> (!radius_nonpositive && !pressure_nonpositive && !temperature_nonpositive),
        radius_nonpositive ==> first_non_physical(
            radius_nonpositive,
            pressure_nonpositive,
            temperature_nonpositive,
        ) == Some(StateField::Radius),
{
    assert(field_rank(StateField::Radius) == 0);
    assert(field_rank(StateField::Pressure) == 1);
    assert(field_rank(StateField::Temperature) == 2);
    assert(flagged_nonpositive(StateField::Radius, radius_nonpositive, pressure_nonpositive, temperature_nonpositive)
        == radius_nonpositive);
    assert(flagged_nonpositive(StateField::Pressure, radius_nonpositive, pressure_nonpositive, temperature_nonpositive)
        == pressure_nonpositive);
    assert(flagged_nonpositive(StateField::Temperature, radius_nonpositive, pressure_nonpositive, temperature_nonpositive)
        == temperature_nonpositive);
}

/// Decides which quantity of a shell is reported as non-physical, given whether its
/// radius, pressure and temperature are not positive. The density is derived from
/// the others and is only judged when this returns `None`.
pub fn check_shell_state(
    radius_nonpositive: bool,
    pressure_nonpositive: bool,
    temperature_nonpositive: bool,
) -> (field: Option<StateField>)
    ensures
        field == first_non_physical(radius_nonpositive, pressure_nonpositive, temperature_nonpositive),
{
    if radius_nonpositive {
        Some(StateField::Radius)
    } else if pressure_nonpositive {
        Some(StateField::Pressure)
    } else if temperature_nonpositive {
        Some(StateField::Temperature)
    } else {
        None
    }
}

/// Decides whether the density derived from a shell whose radius, pressure and
/// temperature passed `check_shell_state` is reported as non-physical.
pub fn check_density(density_nonpositive: bool) -> (field: Option<StateField>)
    ensures
        field == (if density_nonpositive {
            Some(StateField::Density)
        } else {
            None
        }),
{
    if density_nonpositive {
        Some(StateField::Density)
    } else {
        None
    }
}

/// The number of times a single step may be rejected and retried; one more rejection
/// ends the integration.
pub const MAX_REJECTIONS: usize = 50;

/// Where the integration stands.
#[derive(Clone, Copy, Debug, PartialEq, Eq, Structural)]
pub enum Phase {
    /// Between two steps: the controller must learn whether mass remains to integrate.
    Between,
    /// Trying to find an acceptable size for the current step.
    Trying,
    /// The target mass was reached.
    Finished,
    /// The integration failed.
    Failed,
}

/// What a trial of the current step gave.
#[derive(Clone, Copy, Debug, PartialEq, Eq, Structural)]
pub enum TrialOutcome {
    /// The trial step size was below the minimum step size; no step was taken.
    BelowMinimumStep,
    /// The step was taken and its scaled error is within tolerance.
    Accepted,
    /// The step was taken but its scaled error exceeds tolerance.
    TooInaccurate,
    /// A stage of the step met a non-physical state.
    NonPhysical,
}

/// What the integration does next.
#[derive(Clone, Copy, Debug, PartialEq, Eq, Structural)]
pub enum Directive {
    /// Try the current step with the current step size.
    Attempt,
    /// Record the current shell, move to the result of the step, and grow the step size
    /// from the step's error; then ask whether mass remains.
    Advance,
    /// Shrink the step size from the trial's error and try again.
    ShrinkByError,
    /// Shrink the step size to a quarter and try again.
    ShrinkByQuarter,
    /// Record the final shell and return the model.
    Finish,
    /// Fail: the step size fell below the minimum.
    FailStepTooSmall,
    /// Fail: the current step was rejected more than `MAX_REJECTIONS` times.
    FailMaxRejections,
}

/// The abstract state of a step controller.
pub struct ControllerState {
    pub phase: Phase,
    /// Rejections of the current step so far.
    pub rejections: nat,
}

/// The state of a controller before the first step.
pub open spec fn initial_state() -> ControllerState {
    ControllerState { phase: Phase::Between, rejections: 0 }
}

/// The transition taken when the controller learns, between steps, whether mass
/// remains to be integrated.
pub open spec fn begin_transition(s: ControllerState, remaining: bool) -> (ControllerState, Directive) {
    if remaining {
        (ControllerState { phase: Phase::Trying, rejections: 0 }, Directive::Attempt)
    } else {
        (ControllerState { phase: Phase::Finished, rejections: s.rejections }, Directive::Finish)
    }
}

/// The transition taken when the controller learns what a trial of the current step
/// gave. Both kinds of rejection count against the same budget.
pub open spec fn trial_transition(s: ControllerState, outcome: TrialOutcome) -> (ControllerState, Directive) {
    match outcome {
        TrialOutcome::BelowMinimumStep => (
            ControllerState { phase: Phase::Failed, rejections: s.rejections },
            Directive::FailStepTooSmall,
        ),
        TrialOutcome::Accepted => (
            ControllerState { phase: Phase::Between, rejections: s.rejections },
            Directive::Advance,
        ),
        TrialOutcome::TooInaccurate | TrialOutcome::NonPhysical => {
            let rejected = s.rejections + 1;
            if rejected > MAX_REJECTIONS {
                (
                    ControllerState { phase: Phase::Failed, rejections: rejected },
                    Directive::FailMaxRejections,
                )
            } else if outcome is TooInaccurate {
                (ControllerState { phase: Phase::Trying, rejections: rejected }, Directive::ShrinkByError)
            } else {
                (ControllerState { phase: Phase::Trying, rejections: rejected }, Directive::ShrinkByQuarter)
            }
        },
    }
}

/// The state reached from `s` by feeding it the trial outcomes in order, for as long as
/// the controller is still trying the current step.
pub open spec fn run_trials(s: ControllerState, outcomes: Seq<TrialOutcome>) -> ControllerState
    decreases outcomes.len(),
{
    if outcomes.len() == 0 || s.phase != Phase::Trying {
        s
    } else {
        run_trials(trial_transition(s, outcomes[0]).0, outcomes.drop_first())
    }
}

/// Whether an outcome is a rejection of the trial step.
pub open spec fn is_rejection(outcome: TrialOutcome) -> bool {
    outcome is TooInaccurate || outcome is NonPhysical
}

/// Whether every outcome of a sequence is a rejection.
pub open spec fn all_rejections(outcomes: Seq<TrialOutcome>) -> bool {
    forall|i: int| 0 <= i < outcomes.len() ==> is_rejection(#[trigger] outcomes[i])
}

/// The state of a controller trying a step that was rejected `n` times.
pub open spec fn trying_with(n: nat) -> ControllerState {
    ControllerState { phase: Phase::Trying, rejections: n }
}

/// The state of a controller that failed because one step was rejected once more than
/// the budget allows.
pub open spec fn budget_spent() -> ControllerState {
    ControllerState { phase: Phase::Failed, rejections: (MAX_REJECTIONS + 1) as nat }
}

/// Feeding trial outcomes to a controller that is trying a step: once the rejections
/// so far plus the outcomes fed exceed the budget, it is no longer trying, whatever the
/// outcomes; if every outcome is a rejection, it keeps trying with one more rejection
/// each while the budget lasts, and fails with the budget spent one rejection later.
proof fn lemma_run_trials_from(s: ControllerState, outcomes: Seq<TrialOutcome>)
    requires
        s.phase == Phase::Trying,
        s.rejections <= MAX_REJECTIONS,
    ensures
        s.rejections + outcomes.len() > MAX_REJECTIONS ==> run_trials(s, outcomes).phase != Phase::Trying,
        all_rejections(outcomes) && s.rejections + outcomes.len() <= MAX_REJECTIONS ==> run_trials(
            s,
            outcomes,
        ) == trying_with(s.rejections + outcomes.len()),
        all_rejections(outcomes) && s.rejections + outcomes.len() > MAX_REJECTIONS ==> run_trials(
            s,
            outcomes,
        ) == budget_spent(),
    decreases outcomes.len(),
{
    if outcomes.len() > 0 {
        let next = trial_transition(s, outcomes[0]).0;
        let rest = outcomes.drop_first();
        if next.phase == Phase::Trying {
            lemma_run_trials_from(next, rest);
            if all_rejections(outcomes) {
                assert forall|i: int| 0 <= i < rest.len() implies is_rejection(#[trigger] rest[i]) by {
                    assert(rest[i] == outcomes[i + 1]);
                }
            }
        } else {
            assert(run_trials(next, rest) == next);
            if all_rejections(outcomes) {
                assert(is_rejection(outcomes[0]));
            }
        }
    }
}

/// A single step is tried at most `MAX_REJECTIONS + 1` times: whatever the trials
/// give, once that many have been reported the step has been accepted or the
/// integration has failed.
pub proof fn lemma_step_trials_bounded(s: ControllerState, outcomes: Seq<TrialOutcome>)
    requires
        s.phase == Phase::Between,
        outcomes.len() > MAX_REJECTIONS,
    ensures
        run_trials(begin_transition(s, true).0, outcomes).phase != Phase::Trying,
{
    lemma_run_trials_from(begin_transition(s, true).0, outcomes);
}

/// Every step starts with the full rejection budget: a step whose trials are all
/// rejected is retried exactly `MAX_REJECTIONS` times, and the next rejection fails the
/// integration.
pub proof fn lemma_rejection_budget(s: ControllerState, outcomes: Seq<TrialOutcome>)
    requires
        s.phase == Phase::Between,
        all_rejections(outcomes),
    ensures
        outcomes.len() <= MAX_REJECTIONS ==> run_trials(begin_transition(s, true).0, outcomes)
            == trying_with(outcomes.len()),
        outcomes.len() > MAX_REJECTIONS ==> run_trials(begin_transition(s, true).0, outcomes)
            == budget_spent(),
        MAX_REJECTIONS == 50,
        budget_spent().phase == Phase::Failed,
        budget_spent().rejections == 51,
{
    lemma_run_trials_from(begin_transition(s, true).0, outcomes);
}

/// A trial that meets a non-physical state is treated as one that exceeds the error
/// tolerance: both lead to the same state, counted against the same budget; they
/// differ only in how the step size is shrunk.
pub proof fn lemma_non_physical_is_rejection(s: ControllerState)
    requires
        s.phase == Phase::Trying,
    ensures
        trial_transition(s, TrialOutcome::NonPhysical).0 == trial_transition(s, TrialOutcome::TooInaccurate).0,
        trial_transition(s, TrialOutcome::NonPhysical).1 == Directive::ShrinkByQuarter
            || trial_transition(s, TrialOutcome::NonPhysical).1 == Directive::FailMaxRejections,
{
}

/// Between steps, the controller finishes exactly when no mass remains, whatever the
/// previous steps were: the directive is `Finish` and the phase `Finished`; when mass
/// remains it starts a new step with no rejections and asks for an attempt.
pub proof fn lemma_begin_step_outcomes(s: ControllerState)
    requires
        s.phase == Phase::Between,
    ensures
        begin_transition(s, false).1 == Directive::Finish,
        begin_transition(s, false).0.phase == Phase::Finished,
        begin_transition(s, true).1 == Directive::Attempt,
        begin_transition(s, true).0.phase == Phase::Trying,
        begin_transition(s, true).0.rejections == 0,
{
}

/// What each trial outcome leads to, for every state trying a step:
/// - a trial below the minimum step size fails the integration with `FailStepTooSmall`;
/// - an accepted trial always advances to the next step, keeping the rejection count;
/// - a rejected trial adds one rejection; within the budget the step is retried, with
///   the error-based shrink after an inaccurate trial and a quarter step after a
///   non-physical one; past the budget the integration fails with `FailMaxRejections`.
pub proof fn lemma_trial_outcomes(s: ControllerState)
    requires
        s.phase == Phase::Trying,
    ensures
        trial_transition(s, TrialOutcome::BelowMinimumStep).1 == Directive::FailStepTooSmall,
        trial_transition(s, TrialOutcome::BelowMinimumStep).0.phase == Phase::Failed,
        trial_transition(s, TrialOutcome::Accepted).1 == Directive::Advance,
        trial_transition(s, TrialOutcome::Accepted).0.phase == Phase::Between,
        trial_transition(s, TrialOutcome::Accepted).0.rejections == s.rejections,
        trial_transition(s, TrialOutcome::TooInaccurate).0.rejections == s.rejections + 1,
        trial_transition(s, TrialOutcome::NonPhysical).0.rejections == s.rejections + 1,
        s.rejections + 1 <= MAX_REJECTIONS ==> trial_transition(s, TrialOutcome::TooInaccurate).1
            == Directive::ShrinkByError,
        s.rejections + 1 <= MAX_REJECTIONS ==> trial_transition(s, TrialOutcome::TooInaccurate).0.phase
            == Phase::Trying,
        s.rejections + 1 <= MAX_REJECTIONS ==> trial_transition(s, TrialOutcome::NonPhysical).1
            == Directive::ShrinkByQuarter,
        s.rejections + 1 <= MAX_REJECTIONS ==> trial_transition(s, TrialOutcome::NonPhysical).0.phase
            == Phase::Trying,
        s.rejections + 1 > MAX_REJECTIONS ==> trial_transition(s, TrialOutcome::TooInaccurate).1
            == Directive::FailMaxRejections,
        s.rejections + 1 > MAX_REJECTIONS ==> trial_transition(s, TrialOutcome::NonPhysical).1
            == Directive::FailMaxRejections,
{
}

/// Directives and phases agree: a trial never finishes the integration, and it fails
/// the integration exactly when it moves the controller to the phase `Failed`.
pub proof fn lemma_trial_directive_matches_phase(s: ControllerState, outcome: TrialOutcome)
    requires
        s.phase == Phase::Trying,
    ensures
        trial_transition(s, outcome).1 != Directive::Finish,
        trial_transition(s, outcome).1 != Directive::Attempt,
        (trial_transition(s, outcome).1 == Directive::FailStepTooSmall
            || trial_transition(s, outcome).1 == Directive::FailMaxRejections)
            <==> trial_transition(s, outcome).0.phase == Phase::Failed,
        trial_transition(s, outcome).1 == Directive::Advance <==> trial_transition(s, outcome).0.phase
            == Phase::Between,
{
}

/// A solution to the stellar structure equations: a sequence of shells and their
/// corresponding mass coordinates, the shell at each index belonging to the mass
/// coordinate at the same index.
pub struct StellarModel<M, S> {
    /// Mass coordinates of this solution.
    pub masses: Vec<M>,
    /// Shells associated to this solution's mass coordinates.
    pub shells: Vec<S>,
}

impl<M, S> StellarModel<M, S> {
    /// Returns a stellar model with empty mass and shell sequences.
    pub fn new() -> (model: Self)
        ensures
            model.masses@ == Seq::<M>::empty(),
            model.shells@ == Seq::<S>::empty(),
    {
        StellarModel { masses: Vec::new(), shells: Vec::new() }
    }

    /// Pushes the given mass coordinate and shell to this model.
    pub fn push(&mut self, mass: M, shell: S)
        ensures
            final(self).masses@ == old(self).masses@.push(mass),
            final(self).shells@ == old(self).shells@.push(shell),
    {
        self.masses.push(mass);
        self.shells.push(shell);
    }
}

/// Decides, step by step, how an adaptive integration proceeds, and records the model:
/// the mass coordinate and shell at the start of every accepted step, then the final
/// ones.
pub struct StepController<M, S> {
    phase: Phase,
    rejections: usize,
    accepted: Ghost<nat>,
    model: StellarModel<M, S>,
}

impl<M, S> View for StepController<M, S> {
    type V = ControllerState;

    closed spec fn view(&self) -> ControllerState {
        ControllerState { phase: self.phase, rejections: self.rejections as nat }
    }
}

impl<M, S> StepController<M, S> {
    /// The controller keeps within its rejection budget, and its model holds one pair
    /// per accepted step, plus the final pair once the integration has finished.
    pub closed spec fn wf(&self) -> bool {
        &&& self.rejections <= MAX_REJECTIONS + 1
        &&& self.phase == Phase::Trying ==> self.rejections <= MAX_REJECTIONS
        &&& self.model.masses@.len() == self.model.shells@.len()
        &&& self.model.masses@.len() == self.accepted@ + if self.phase == Phase::Finished {
            1nat
        } else {
            0nat
        }
    }

    /// The mass coordinates recorded so far.
    pub closed spec fn recorded_masses(&self) -> Seq<M> {
        self.model.masses@
    }

    /// The shells recorded so far.
    pub closed spec fn recorded_shells(&self) -> Seq<S> {
        self.model.shells@
    }

    /// The number of steps accepted so far.
    pub closed spec fn accepted_steps(&self) -> nat {
        self.accepted@
    }

    /// A controller before the first step, with nothing recorded.
    pub fn new() -> (c: Self)
        ensures
            c.wf(),
            c@ == initial_state(),
            c.accepted_steps() == 0,
            c.recorded_masses() == Seq::<M>::empty(),
            c.recorded_shells() == Seq::<S>::empty(),
    {
        StepController {
            phase: Phase::Between,
            rejections: 0,
            accepted: Ghost(0),
            model: StellarModel::new(),
        }
    }

    /// Where the integration stands.
    pub fn phase(&self) -> (p: Phase)
        ensures
            p == self@.phase,
    {
        self.phase
    }

    /// The number of rejections of the current step so far.
    pub fn rejections(&self) -> (n: usize)
        ensures
            n == self@.rejections,
    {
        self.rejections
    }

    /// Between steps: `remaining` tells whether mass remains to integrate towards the
    /// target, and `mass`, `shell` are where the integration stands. Starts a new step
    /// with a fresh rejection budget, or records the final mass and shell and finishes.
    pub fn begin_step(&mut self, remaining: bool, mass: M, shell: S) -> (d: Directive)
        requires
            old(self).wf(),
            old(self)@.phase == Phase::Between,
        ensures
            final(self).wf(),
            (final(self)@, d) == begin_transition(old(self)@, remaining),
            final(self).accepted_steps() == old(self).accepted_steps(),
            remaining ==> final(self).recorded_masses() == old(self).recorded_masses(),
            remaining ==> final(self).recorded_shells() == old(self).recorded_shells(),
            !remaining ==> final(self).recorded_masses() == old(self).recorded_masses().push(mass),
            !remaining ==> final(self).recorded_shells() == old(self).recorded_shells().push(shell),
    {
        if remaining {
            self.phase = Phase::Trying;
            self.rejections = 0;
            Directive::Attempt
        } else {
            self.phase = Phase::Finished;
            self.model.push(mass, shell);
            Directive::Finish
        }
    }

    /// While trying a step: `outcome` tells what the last trial gave, and `mass`,
    /// `shell` are where the step started. An accepted step records them.
    pub fn after_trial(&mut self, outcome: TrialOutcome, mass: M, shell: S) -> (d: Directive)
        requires
            old(self).wf(),
            old(self)@.phase == Phase::Trying,
        ensures
            final(self).wf(),
            (final(self)@, d) == trial_transition(old(self)@, outcome),
            outcome is Accepted ==> final(self).accepted_steps() == old(self).accepted_steps() + 1,
            outcome is Accepted ==> final(self).recorded_masses() == old(self).recorded_masses().push(mass),
            outcome is Accepted ==> final(self).recorded_shells() == old(self).recorded_shells().push(shell),
            !(outcome is Accepted) ==> final(self).accepted_steps() == old(self).accepted_steps(),
            !(outcome is Accepted) ==> final(self).recorded_masses() == old(self).recorded_masses(),
            !(outcome is Accepted) ==> final(self).recorded_shells() == old(self).recorded_shells(),
    {
        match outcome {
            TrialOutcome::BelowMinimumStep => {
                self.phase = Phase::Failed;
                Directive::FailStepTooSmall
            },
            TrialOutcome::Accepted => {
                self.phase = Phase::Between;
                self.model.push(mass, shell);
                self.accepted = Ghost(self.accepted@ + 1);
                Directive::Advance
            },
            TrialOutcome::TooInaccurate | TrialOutcome::NonPhysical => {
                let rejected = self.rejections + 1;
                self.rejections = rejected;
                if rejected > MAX_REJECTIONS {
                    self.phase = Phase::Failed;
                    Directive::FailMaxRejections
                } else {
                    match outcome {
                        TrialOutcome::TooInaccurate => Directive::ShrinkByError,
                        _ => Directive::ShrinkByQuarter,
                    }
                }
            },
        }
    }

    /// The model of a finished integration.
    pub fn into_model(self) -> (model: StellarModel<M, S>)
        requires
            self.wf(),
            self@.phase == Phase::Finished,
        ensures
            model.masses@ == self.recorded_masses(),
            model.shells@ == self.recorded_shells(),
    {
        self.model
    }
}

/// The model of an integration holds one mass coordinate and shell pair per accepted
/// step, plus the final pair once the integration has finished.
pub proof fn lemma_one_pair_per_accepted_step<M, S>(c: &StepController<M, S>)
    requires
        c.wf(),
    ensures
        c.recorded_masses().len() == c.recorded_shells().len(),
        c@.phase != Phase::Finished ==> c.recorded_masses().len() == c.accepted_steps(),
        c@.phase == Phase::Finished ==> c.recorded_masses().len() == c.accepted_steps() + 1,
{
}

} // verus!
