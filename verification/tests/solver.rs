use stellar_structure::solver::{
    check_density, check_shell_state, Directive, Phase, StateField, StellarModel, StepController, TrialOutcome,
    MAX_REJECTIONS,
};

#[test]
fn physical_state_passes() {
    assert_eq!(check_shell_state(false, false, false), None);
}

#[test]
fn first_non_physical_quantity_is_reported() {
    assert_eq!(check_shell_state(true, true, true), Some(StateField::Radius));
    assert_eq!(check_shell_state(false, true, true), Some(StateField::Pressure));
    assert_eq!(check_shell_state(false, false, true), Some(StateField::Temperature));
}

#[test]
fn state_field_names() {
    assert_eq!(StateField::Radius.name(), "radius");
    assert_eq!(StateField::Pressure.name(), "pressure");
    assert_eq!(StateField::Temperature.name(), "temperature");
    assert_eq!(StateField::Density.name(), "density");
}

#[test]
fn nothing_to_integrate_finishes_at_once() {
    let mut c = StepController::<u32, char>::new();
    assert_eq!(c.phase(), Phase::Between);
    assert_eq!(c.begin_step(false, 0, 'a'), Directive::Finish);
    assert_eq!(c.phase(), Phase::Finished);
}

#[test]
fn accepted_step_advances() {
    let mut c = StepController::<u32, char>::new();
    assert_eq!(c.begin_step(true, 0, 'a'), Directive::Attempt);
    assert_eq!(c.phase(), Phase::Trying);
    assert_eq!(c.after_trial(TrialOutcome::Accepted, 0, 'a'), Directive::Advance);
    assert_eq!(c.phase(), Phase::Between);
    assert_eq!(c.begin_step(false, 0, 'a'), Directive::Finish);
}

#[test]
fn rejections_choose_the_shrink_rule() {
    let mut c = StepController::<u32, char>::new();
    c.begin_step(true, 0, 'a');
    assert_eq!(c.after_trial(TrialOutcome::TooInaccurate, 0, 'a'), Directive::ShrinkByError);
    assert_eq!(c.after_trial(TrialOutcome::NonPhysical, 0, 'a'), Directive::ShrinkByQuarter);
    assert_eq!(c.rejections(), 2);
    assert_eq!(c.phase(), Phase::Trying);
}

#[test]
fn step_below_minimum_fails() {
    let mut c = StepController::<u32, char>::new();
    c.begin_step(true, 0, 'a');
    c.after_trial(TrialOutcome::TooInaccurate, 0, 'a');
    assert_eq!(
        c.after_trial(TrialOutcome::BelowMinimumStep, 0, 'a'),
        Directive::FailStepTooSmall
    );
    assert_eq!(c.phase(), Phase::Failed);
}

#[test]
fn budget_allows_exactly_max_rejections() {
    let mut c = StepController::<u32, char>::new();
    c.begin_step(true, 0, 'a');
    for i in 0..MAX_REJECTIONS {
        let outcome = if i % 2 == 0 {
            TrialOutcome::TooInaccurate
        } else {
            TrialOutcome::NonPhysical
        };
        let d = c.after_trial(outcome, 0, 'a');
        assert!(d == Directive::ShrinkByError || d == Directive::ShrinkByQuarter);
        assert_eq!(c.rejections(), i + 1);
    }
    assert_eq!(MAX_REJECTIONS, 50);
    assert_eq!(
        c.after_trial(TrialOutcome::NonPhysical, 0, 'a'),
        Directive::FailMaxRejections
    );
    assert_eq!(c.phase(), Phase::Failed);
}

#[test]
fn accepted_after_last_retry_still_advances() {
    let mut c = StepController::<u32, char>::new();
    c.begin_step(true, 0, 'a');
    for _ in 0..MAX_REJECTIONS {
        c.after_trial(TrialOutcome::TooInaccurate, 0, 'a');
    }
    assert_eq!(c.after_trial(TrialOutcome::Accepted, 0, 'a'), Directive::Advance);
}

#[test]
fn each_step_gets_a_fresh_budget() {
    let mut c = StepController::<u32, char>::new();
    c.begin_step(true, 0, 'a');
    for _ in 0..MAX_REJECTIONS {
        c.after_trial(TrialOutcome::TooInaccurate, 0, 'a');
    }
    c.after_trial(TrialOutcome::Accepted, 0, 'a');
    assert_eq!(c.begin_step(true, 0, 'a'), Directive::Attempt);
    assert_eq!(c.rejections(), 0);
    for _ in 0..MAX_REJECTIONS {
        assert_ne!(
            c.after_trial(TrialOutcome::NonPhysical, 0, 'a'),
            Directive::FailMaxRejections
        );
    }
    assert_eq!(
        c.after_trial(TrialOutcome::TooInaccurate, 0, 'a'),
        Directive::FailMaxRejections
    );
}

#[test]
fn model_pairs_masses_and_shells() {
    let mut model: StellarModel<f64, (f64, f64)> = StellarModel::new();
    assert!(model.masses.is_empty() && model.shells.is_empty());
    model.push(1.0e33, (7.0e10, 1.0e17));
    model.push(1.1e33, (7.2e10, 0.9e17));
    assert_eq!(model.masses, vec![1.0e33, 1.1e33]);
    assert_eq!(model.shells, vec![(7.0e10, 1.0e17), (7.2e10, 0.9e17)]);
}

#[test]
fn density_is_judged_on_its_own() {
    assert_eq!(check_density(true), Some(StateField::Density));
    assert_eq!(check_density(false), None);
}

#[test]
fn controller_records_one_pair_per_accepted_step_and_the_final_one() {
    let mut c = StepController::<u32, char>::new();
    assert_eq!(c.begin_step(true, 10, 'a'), Directive::Attempt);
    c.after_trial(TrialOutcome::TooInaccurate, 10, 'a');
    c.after_trial(TrialOutcome::NonPhysical, 10, 'a');
    assert_eq!(c.after_trial(TrialOutcome::Accepted, 10, 'a'), Directive::Advance);
    assert_eq!(c.begin_step(true, 12, 'b'), Directive::Attempt);
    assert_eq!(c.after_trial(TrialOutcome::Accepted, 12, 'b'), Directive::Advance);
    assert_eq!(c.begin_step(false, 15, 'c'), Directive::Finish);
    let model = c.into_model();
    assert_eq!(model.masses, vec![10, 12, 15]);
    assert_eq!(model.shells, vec!['a', 'b', 'c']);
}

#[test]
fn finishing_at_once_records_only_the_initial_pair() {
    let mut c = StepController::<u32, char>::new();
    assert_eq!(c.begin_step(false, 3, 'z'), Directive::Finish);
    let model = c.into_model();
    assert_eq!(model.masses, vec![3]);
    assert_eq!(model.shells, vec!['z']);
}
