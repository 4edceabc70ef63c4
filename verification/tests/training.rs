use unsw_regression::key::key_of_bits;
use unsw_regression::training::{
    EpochOutcome, ExpConfig, Status, StopReason, TrainingState, BATCH_SIZE, DEFAULT_PATIENCE,
};

fn loss(x: f64) -> i64 {
    key_of_bits(x.to_bits())
}

fn losses(values: &[f64]) -> Vec<i64> {
    values.iter().map(|x| loss(*x)).collect()
}

#[test]
fn default_configuration() {
    let config = ExpConfig::new();
    assert_eq!(config.num_epochs, 100);
    assert_eq!(config.num_workers, 2);
    assert_eq!(config.seed, 42);
    assert_eq!(config.input_feature_len, 37);
    assert_eq!(config.dataset_size, 442);
    assert_eq!(config.model().num_features, 37);
    assert_eq!(config.model().hidden_size, 64);
    assert_eq!(DEFAULT_PATIENCE, 1);
    assert_eq!(BATCH_SIZE, 32);
    let state = config.begin();
    assert_eq!(state.epoch(), 0);
    assert_eq!(state.best_value(), None);
    assert!(state.is_running());
}

#[test]
fn stops_early_after_epoch_three() {
    let mut state = TrainingState::new(100, 1);
    let checkpoints = state.record_epochs(&losses(&[0.9, 0.5, 0.5, 0.5]));
    assert_eq!(state.status(), Status::Stopped(StopReason::EarlyStopped));
    assert_eq!(state.epoch(), 3);
    assert_eq!(state.best_epoch(), 2);
    assert_eq!(state.best_value(), Some(loss(0.5)));
    assert_eq!(checkpoints, vec![1, 2]);
}

#[test]
fn stops_early_epoch_by_epoch() {
    let mut state = TrainingState::new(100, 1);
    assert_eq!(
        state.record_epoch(loss(0.9)),
        EpochOutcome { checkpoint: Some(1), status: Status::Running }
    );
    assert_eq!(
        state.record_epoch(loss(0.5)),
        EpochOutcome { checkpoint: Some(2), status: Status::Running }
    );
    assert!(state.is_running());
    assert_eq!(
        state.record_epoch(loss(0.5)),
        EpochOutcome { checkpoint: None, status: Status::Stopped(StopReason::EarlyStopped) }
    );
    assert!(!state.is_running());
    assert_eq!(
        state.record_epoch(loss(0.1)),
        EpochOutcome { checkpoint: None, status: Status::Stopped(StopReason::EarlyStopped) }
    );
    assert_eq!(state.epoch(), 3);
    assert_eq!(state.best_value(), Some(loss(0.5)));
}

#[test]
fn improving_run_exhausts_the_budget() {
    let mut state = TrainingState::new(5, 1);
    let checkpoints = state.record_epochs(&losses(&[0.9, 0.8, 0.7, 0.6, 0.5]));
    assert_eq!(state.status(), Status::Stopped(StopReason::BudgetExhausted));
    assert_eq!(state.epoch(), 5);
    assert_eq!(state.best_epoch(), 5);
    assert_eq!(state.best_value(), Some(loss(0.5)));
    assert_eq!(checkpoints, vec![1, 2, 3, 4, 5]);
}

#[test]
fn losses_after_the_budget_are_ignored() {
    let mut state = TrainingState::new(3, 1);
    let checkpoints = state.record_epochs(&losses(&[0.9, 0.8, 0.7, 0.6, 0.5]));
    assert_eq!(state.status(), Status::Stopped(StopReason::BudgetExhausted));
    assert_eq!(state.epoch(), 3);
    assert_eq!(state.best_value(), Some(loss(0.7)));
    assert_eq!(checkpoints, vec![1, 2, 3]);
}

#[test]
fn run_without_budget_is_over_at_once() {
    let mut state = TrainingState::new(0, 1);
    assert_eq!(state.status(), Status::Stopped(StopReason::BudgetExhausted));
    assert_eq!(state.record_epoch(loss(0.5)).checkpoint, None);
    assert_eq!(state.epoch(), 0);
    assert_eq!(state.best_value(), None);
}

#[test]
fn early_stop_wins_over_the_budget_in_the_same_epoch() {
    let mut state = TrainingState::new(3, 1);
    state.record_epochs(&losses(&[0.9, 0.5, 0.6]));
    assert_eq!(state.status(), Status::Stopped(StopReason::EarlyStopped));
    assert_eq!(state.epoch(), 3);
}

#[test]
fn never_stops_early_while_improving() {
    let mut state = TrainingState::new(100, 1);
    for (epoch, value) in [0.4, 0.35, 0.3, 0.25].iter().enumerate() {
        let outcome = state.record_epoch(loss(*value));
        assert_eq!(outcome, EpochOutcome { checkpoint: Some(epoch + 1), status: Status::Running });
    }
}

#[test]
fn patience_of_two_epochs() {
    let mut state = TrainingState::new(100, 2);
    assert_eq!(state.record_epoch(loss(0.75)).status, Status::Running);
    assert_eq!(state.record_epoch(loss(0.4)).status, Status::Running);
    assert_eq!(state.record_epoch(loss(2.0)).status, Status::Running);
    assert_eq!(
        state.record_epoch(loss(1.5)).status,
        Status::Stopped(StopReason::EarlyStopped)
    );
    assert_eq!(state.epoch(), 4);
    assert_eq!(state.best_epoch(), 2);
    assert_eq!(state.epochs_since_improvement(), 2);
    assert_eq!(TrainingState::new(3, 1).epochs_since_improvement(), 0);
}

#[test]
fn equal_losses_do_not_improve() {
    let mut state = TrainingState::new(100, 2);
    assert_eq!(state.record_epoch(loss(0.4)).checkpoint, Some(1));
    assert_eq!(state.record_epoch(loss(0.4)).status, Status::Running);
    assert_eq!(
        state.record_epoch(loss(0.4)),
        EpochOutcome { checkpoint: None, status: Status::Stopped(StopReason::EarlyStopped) }
    );
}

#[test]
fn patience_of_zero_stops_at_the_first_epoch_without_improvement() {
    let mut state = TrainingState::new(100, 0);
    assert_eq!(state.record_epoch(loss(0.4)).status, Status::Running);
    assert_eq!(state.record_epoch(loss(0.3)).status, Status::Running);
    assert_eq!(
        state.record_epoch(loss(0.3)).status,
        Status::Stopped(StopReason::EarlyStopped)
    );
}

#[test]
fn a_loss_that_is_not_a_number_never_improves_on_a_number() {
    let mut state = TrainingState::new(100, 1);
    assert_eq!(state.record_epoch(loss(0.4)).checkpoint, Some(1));
    assert_eq!(
        state.record_epoch(loss(f64::NAN)),
        EpochOutcome { checkpoint: None, status: Status::Stopped(StopReason::EarlyStopped) }
    );
    let mut other = TrainingState::new(100, 2);
    other.record_epoch(loss(f64::NAN));
    assert_eq!(other.record_epoch(loss(0.4)).checkpoint, Some(2));
}

#[test]
fn settings_can_be_changed_one_at_a_time() {
    let config = ExpConfig::new()
        .with_num_epochs(5)
        .with_num_workers(4)
        .with_seed(7)
        .with_input_feature_len(10)
        .with_dataset_size(1000);
    assert_eq!(
        config,
        ExpConfig {
            num_epochs: 5,
            num_workers: 4,
            seed: 7,
            input_feature_len: 10,
            dataset_size: 1000,
        }
    );
    assert_eq!(ExpConfig::new().with_seed(7).num_epochs, 100);
    assert_eq!(config.model().num_features, 10);
    let mut state = config.begin();
    state.record_epochs(&losses(&[0.5, 0.4, 0.3, 0.2, 0.1, 0.05]));
    assert_eq!(state.status(), Status::Stopped(StopReason::BudgetExhausted));
    assert_eq!(state.epoch(), 5);
}
