//! The experiment's configuration and the epoch-by-epoch decision when to
//! stop training.
//!
//! The caller runs the epochs. After each one it hands the aggregated
//! validation loss to [`TrainingState::record_epoch`], as an ordered key
//! that compares as the loss does, and learns whether to save a checkpoint
//! and whether to go on.

use crate::data::FEATURE_COUNT;
use crate::model::RegressionModelConfig;
use vstd::prelude::*;

verus! {

/// The number of epochs without improvement after which training stops.
pub const DEFAULT_PATIENCE: usize = 1;

/// The number of records in a mini-batch.
pub const BATCH_SIZE: usize = 32;

/// The settings of one training run.
#[derive(Debug, Clone, Copy, PartialEq, Eq, Structural)]
pub struct ExpConfig {
    /// The epoch budget.
    pub num_epochs: usize,
    /// The number of workers that load batches.
    pub num_workers: usize,
    /// The seed of the run.
    pub seed: u64,
    /// The number of columns of the model's input.
    pub input_feature_len: usize,
    /// The number of records in the dataset.
    pub dataset_size: usize,
}

impl ExpConfig {
    /// The default settings: 100 epochs, 2 workers, seed 42, one input
    /// column per feature, 442 records.
    pub fn new() -> (config: Self)
        ensures
            config == (ExpConfig {
                num_epochs: 100,
                num_workers: 2,
                seed: 42,
                input_feature_len: FEATURE_COUNT,
                dataset_size: 442,
            }),
    {
        ExpConfig {
            num_epochs: 100,
            num_workers: 2,
            seed: 42,
            input_feature_len: FEATURE_COUNT,
            dataset_size: 442,
        }
    }

    /// The same settings with another epoch budget.
    pub fn with_num_epochs(self, num_epochs: usize) -> (config: Self)
        ensures
            config == (ExpConfig { num_epochs, ..self }),
    {
        ExpConfig { num_epochs, ..self }
    }

    /// The same settings with another number of workers.
    pub fn with_num_workers(self, num_workers: usize) -> (config: Self)
        ensures
            config == (ExpConfig { num_workers, ..self }),
    {
        ExpConfig { num_workers, ..self }
    }

    /// The same settings with another seed.
    pub fn with_seed(self, seed: u64) -> (config: Self)
        ensures
            config == (ExpConfig { seed, ..self }),
    {
        ExpConfig { seed, ..self }
    }

    /// The same settings with another number of input columns.
    pub fn with_input_feature_len(self, input_feature_len: usize) -> (config: Self)
        ensures
            config == (ExpConfig { input_feature_len, ..self }),
    {
        ExpConfig { input_feature_len, ..self }
    }

    /// The same settings with another dataset size.
    pub fn with_dataset_size(self, dataset_size: usize) -> (config: Self)
        ensures
            config == (ExpConfig { dataset_size, ..self }),
    {
        ExpConfig { dataset_size, ..self }
    }

    /// The configuration of the model that the run trains.
    pub fn model(&self) -> (config: RegressionModelConfig)
        ensures
            config.num_features == self.input_feature_len,
            config.hidden_size == crate::model::DEFAULT_HIDDEN_SIZE,
    {
        RegressionModelConfig::new(self.input_feature_len)
    }

    /// The state in which the run begins, with the default patience.
    pub fn begin(&self) -> (state: TrainingState)
        ensures
            state@ == TrainingView::initial(self.num_epochs as nat, DEFAULT_PATIENCE as nat),
            state.wf(),
    {
        TrainingState::new(self.num_epochs, DEFAULT_PATIENCE)
    }
}

/// Why training ended.
#[derive(Debug, Clone, Copy, PartialEq, Eq, Structural)]
pub enum StopReason {
    /// The validation loss did not improve for as many epochs as the
    /// patience allows.
    EarlyStopped,
    /// The epoch budget is used up.
    BudgetExhausted,
}

/// Whether training goes on.
#[derive(Debug, Clone, Copy, PartialEq, Eq, Structural)]
pub enum Status {
    Running,
    Stopped(StopReason),
}

/// What the caller does after an epoch.
#[derive(Debug, Clone, Copy, PartialEq, Eq, Structural)]
pub struct EpochOutcome {
    /// The epoch under whose number a checkpoint is to be saved, where the
    /// epoch improved on the best validation loss so far.
    pub checkpoint: Option<usize>,
    /// Whether to run another epoch.
    pub status: Status,
}

/// The state of a training run as a mathematical value.
pub ghost struct TrainingView {
    /// The epoch budget.
    pub num_epochs: nat,
    /// The patience.
    pub n_epochs: nat,
    /// The number of epochs recorded.
    pub epoch: nat,
    /// The lowest validation loss recorded, if any epoch was.
    pub best_value: Option<i64>,
    /// The epoch that recorded the lowest validation loss first.
    pub best_epoch: nat,
    pub status: Status,
}

impl TrainingView {
    /// The state before the first epoch. A run without budget is over
    /// before it begins.
    pub open spec fn initial(num_epochs: nat, n_epochs: nat) -> TrainingView {
        TrainingView {
            num_epochs,
            n_epochs,
            epoch: 0,
            best_value: None,
            best_epoch: 0,
            status: if num_epochs == 0 {
                Status::Stopped(StopReason::BudgetExhausted)
            } else {
                Status::Running
            },
        }
    }

    /// Whether `loss` is lower than every loss recorded so far.
    pub open spec fn improves(self, loss: i64) -> bool {
        match self.best_value {
            Some(best) => loss < best,
            None => true,
        }
    }

    /// The state after one more epoch with validation loss `loss`.
    ///
    /// An improving epoch becomes the best and never stops early. Any other
    /// epoch stops early once it lies `n_epochs` or more after the best.
    /// Failing that, the run ends when the budget is reached. A stopped run
    /// records nothing.
    pub open spec fn after_epoch(self, loss: i64) -> TrainingView {
        let epoch = self.epoch + 1;
        if self.status != Status::Running {
            self
        } else if self.improves(loss) {
            TrainingView {
                epoch,
                best_value: Some(loss),
                best_epoch: epoch,
                status: if epoch >= self.num_epochs {
                    Status::Stopped(StopReason::BudgetExhausted)
                } else {
                    Status::Running
                },
                ..self
            }
        } else {
            TrainingView {
                epoch,
                status: if epoch - self.best_epoch >= self.n_epochs {
                    Status::Stopped(StopReason::EarlyStopped)
                } else if epoch >= self.num_epochs {
                    Status::Stopped(StopReason::BudgetExhausted)
                } else {
                    Status::Running
                },
                ..self
            }
        }
    }

    /// The state after the epochs whose validation losses are `losses`, in
    /// order.
    pub open spec fn after_epochs(self, losses: Seq<i64>) -> TrainingView
        decreases losses.len(),
    {
        if losses.len() == 0 {
            self
        } else {
            self.after_epochs(losses.drop_last()).after_epoch(losses.last())
        }
    }

    /// What holds of every state that a run can reach.
    pub open spec fn wf(self) -> bool {
        &&& self.best_epoch <= self.epoch <= self.num_epochs
        &&& self.best_value is None <==> self.epoch == 0
        &&& self.epoch > 0 ==> self.best_epoch > 0
        &&& match self.status {
            Status::Running => {
                &&& self.epoch < self.num_epochs
                &&& self.epoch == self.best_epoch || self.epoch - self.best_epoch < self.n_epochs
            },
            Status::Stopped(StopReason::EarlyStopped) => {
                &&& self.best_epoch < self.epoch
                &&& self.epoch - self.best_epoch >= self.n_epochs
            },
            Status::Stopped(StopReason::BudgetExhausted) => {
                &&& self.epoch == self.num_epochs
                &&& self.epoch == self.best_epoch || self.epoch - self.best_epoch < self.n_epochs
            },
        }
    }
}

/// The state of a training run: the epoch counter, the best validation loss
/// so far with its epoch, and whether the run goes on.
#[derive(Debug, Clone, Copy)]
pub struct TrainingState {
    num_epochs: usize,
    n_epochs: usize,
    epoch: usize,
    best_value: Option<i64>,
    best_epoch: usize,
    status: Status,
}

impl View for TrainingState {
    type V = TrainingView;

    closed spec fn view(&self) -> TrainingView {
        TrainingView {
            num_epochs: self.num_epochs as nat,
            n_epochs: self.n_epochs as nat,
            epoch: self.epoch as nat,
            best_value: self.best_value,
            best_epoch: self.best_epoch as nat,
            status: self.status,
        }
    }
}

impl TrainingState {
    /// The state is one that a run can reach.
    pub open spec fn wf(&self) -> bool {
        self@.wf()
    }

    /// The state before the first epoch of a run with a budget of
    /// `num_epochs` epochs that stops after `n_epochs` epochs without
    /// improvement.
    pub fn new(num_epochs: usize, n_epochs: usize) -> (state: Self)
        ensures
            state@ == TrainingView::initial(num_epochs as nat, n_epochs as nat),
            state.wf(),
    {
        TrainingState {
            num_epochs,
            n_epochs,
            epoch: 0,
            best_value: None,
            best_epoch: 0,
            status: if num_epochs == 0 {
                Status::Stopped(StopReason::BudgetExhausted)
            } else {
                Status::Running
            },
        }
    }

    /// Records the validation loss of the epoch that just ended and decides
    /// what follows: a checkpoint under the epoch's number where the loss
    /// improved on the best so far, and whether the run goes on. An epoch
    /// that both exceeds the patience and uses up the budget counts as
    /// stopped early. On a stopped run nothing changes and no checkpoint is
    /// asked for.
    pub fn record_epoch(&mut self, loss: i64) -> (outcome: EpochOutcome)
        requires
            old(self).wf(),
        ensures
            final(self)@ == old(self)@.after_epoch(loss),
            final(self).wf(),
            outcome.status == final(self)@.status,
            outcome.checkpoint == (if old(self)@.status == Status::Running && old(self)@.improves(
                loss,
            ) {
                Some(final(self)@.epoch as usize)
            } else {
                None
            }),
    {
        match self.status {
            Status::Stopped(_) => {
                return EpochOutcome { checkpoint: None, status: self.status };
            },
            Status::Running => {},
        }
        let epoch = self.epoch + 1;
        let improved = match self.best_value {
            Some(best) => loss < best,
            None => true,
        };
        self.epoch = epoch;
        if improved {
            self.best_value = Some(loss);
            self.best_epoch = epoch;
            if epoch >= self.num_epochs {
                self.status = Status::Stopped(StopReason::BudgetExhausted);
            }
            EpochOutcome { checkpoint: Some(epoch), status: self.status }
        } else {
            if epoch - self.best_epoch >= self.n_epochs {
                self.status = Status::Stopped(StopReason::EarlyStopped);
            } else if epoch >= self.num_epochs {
                self.status = Status::Stopped(StopReason::BudgetExhausted);
            }
            EpochOutcome { checkpoint: None, status: self.status }
        }
    }

    /// Records a run of epochs from their validation losses, in order, and
    /// lists the epochs at which a checkpoint is due. Losses after the stop
    /// are ignored.
    pub fn record_epochs(&mut self, losses: &Vec<i64>) -> (checkpoints: Vec<usize>)
        requires
            old(self).wf(),
        ensures
            final(self)@ == old(self)@.after_epochs(losses@),
            final(self).wf(),
            checkpoints@ == checkpoint_epochs(old(self)@, losses@),
    {
        let mut checkpoints: Vec<usize> = Vec::new();
        let mut i: usize = 0;
        while i < losses.len()
            invariant
                i <= losses@.len(),
                self.wf(),
                self@ == old(self)@.after_epochs(losses@.take(i as int)),
                checkpoints@ == checkpoint_epochs(old(self)@, losses@.take(i as int)),
            decreases losses@.len() - i,
        {
            proof {
                let next = losses@.take(i + 1);
                assert(next.drop_last() =~= losses@.take(i as int));
                assert(next.last() == losses@[i as int]);
            }
            let outcome = self.record_epoch(losses[i]);
            match outcome.checkpoint {
                Some(epoch) => {
                    checkpoints.push(epoch);
                },
                None => {},
            }
            i += 1;
        }
        proof {
            assert(losses@.take(losses@.len() as int) =~= losses@);
        }
        checkpoints
    }

    /// The number of epochs recorded.
    pub fn epoch(&self) -> (epoch: usize)
        ensures
            epoch == self@.epoch,
    {
        self.epoch
    }

    /// The lowest validation loss recorded, if any epoch was.
    pub fn best_value(&self) -> (best: Option<i64>)
        ensures
            best == self@.best_value,
    {
        self.best_value
    }

    /// The epoch that recorded the lowest validation loss first, or zero
    /// before the first epoch.
    pub fn best_epoch(&self) -> (epoch: usize)
        ensures
            epoch == self@.best_epoch,
    {
        self.best_epoch
    }

    /// The number of epochs recorded since the best one.
    pub fn epochs_since_improvement(&self) -> (epochs: usize)
        requires
            self.wf(),
        ensures
            epochs == self@.epoch - self@.best_epoch,
    {
        self.epoch - self.best_epoch
    }

    /// Whether the run goes on, and if not, why it ended.
    pub fn status(&self) -> (status: Status)
        ensures
            status == self@.status,
    {
        self.status
    }

    /// Whether another epoch is to be run.
    pub fn is_running(&self) -> (running: bool)
        ensures
            running == (self@.status == Status::Running),
    {
        match self.status {
            Status::Running => true,
            Status::Stopped(_) => false,
        }
    }
}

/// The epochs at which a checkpoint is due while a run records `losses`
/// from `start` on: those that improve on the best validation loss so far.
pub open spec fn checkpoint_epochs(start: TrainingView, losses: Seq<i64>) -> Seq<usize>
    decreases losses.len(),
{
    if losses.len() == 0 {
        Seq::empty()
    } else {
        let before = start.after_epochs(losses.drop_last());
        let earlier = checkpoint_epochs(start, losses.drop_last());
        if before.status == Status::Running && before.improves(losses.last()) {
            earlier.push((before.epoch + 1) as usize)
        } else {
            earlier
        }
    }
}

/// Each epoch takes a reachable state to a reachable state.
pub proof fn lemma_epoch_preserves_wf(state: TrainingView, loss: i64)
    requires
        state.wf(),
    ensures
        state.after_epoch(loss).wf(),
{
}

/// Every state of a run is reachable: the epoch counter never passes the
/// budget, a running state lies within the patience of its best epoch, and
/// a stopped state bears the reason that ended it.
pub proof fn lemma_run_preserves_wf(num_epochs: nat, n_epochs: nat, losses: Seq<i64>)
    ensures
        TrainingView::initial(num_epochs, n_epochs).after_epochs(losses).wf(),
    decreases losses.len(),
{
    if losses.len() > 0 {
        lemma_run_preserves_wf(num_epochs, n_epochs, losses.drop_last());
    }
}

/// A run whose validation loss falls with every epoch is never stopped
/// early: it ends with the budget's last epoch, for the reason that the
/// budget is used up, and with that epoch as its best.
pub proof fn lemma_improving_run_exhausts_budget(num_epochs: nat, n_epochs: nat, losses: Seq<i64>)
    requires
        0 < num_epochs <= losses.len(),
        forall|i: int, j: int| 0 <= i < j < losses.len() ==> losses[i] > losses[j],
    ensures
        ({
            let end = TrainingView::initial(num_epochs, n_epochs).after_epochs(losses);
            &&& end.status == Status::Stopped(StopReason::BudgetExhausted)
            &&& end.epoch == num_epochs
            &&& end.best_epoch == num_epochs
            &&& end.best_value == Some(losses[num_epochs - 1])
        }),
{
    lemma_improving_prefix(num_epochs, n_epochs, losses, losses.len());
    assert(losses.take(losses.len() as int) =~= losses);
}

/// A run that has just recorded its best epoch and then meets as many
/// epochs without improvement as its patience allows goes on through all
/// but the last of them and is stopped early by the last, provided that the
/// budget reaches that far. Its best epoch and best loss stay as they were.
pub proof fn lemma_stalled_run_stops_early(state: TrainingView, losses: Seq<i64>)
    requires
        state.wf(),
        state.status == Status::Running,
        0 < state.epoch == state.best_epoch,
        0 < state.n_epochs == losses.len(),
        state.epoch + state.n_epochs <= state.num_epochs,
        forall|i: int| 0 <= i < losses.len() ==> !state.improves(#[trigger] losses[i]),
    ensures
        forall|k: int|
            0 <= k < losses.len() ==> (#[trigger] state.after_epochs(losses.take(k))).status
                == Status::Running,
        ({
            let end = state.after_epochs(losses);
            &&& end.status == Status::Stopped(StopReason::EarlyStopped)
            &&& end.epoch == state.epoch + state.n_epochs
            &&& end.best_epoch == state.best_epoch
            &&& end.best_value == state.best_value
        }),
{
    assert forall|k: int| 0 <= k < losses.len() implies (#[trigger] state.after_epochs(
        losses.take(k),
    )).status == Status::Running by {
        lemma_stalled_prefix(state, losses, k as nat);
    }
    lemma_stalled_prefix(state, losses, losses.len());
    assert(losses.take(losses.len() as int) =~= losses);
}

/// The state of a stalled run after the first `k` epochs without
/// improvement.
proof fn lemma_stalled_prefix(state: TrainingView, losses: Seq<i64>, k: nat)
    requires
        state.wf(),
        state.status == Status::Running,
        0 < state.epoch == state.best_epoch,
        0 < state.n_epochs == losses.len(),
        state.epoch + state.n_epochs <= state.num_epochs,
        forall|i: int| 0 <= i < losses.len() ==> !state.improves(#[trigger] losses[i]),
        k <= losses.len(),
    ensures
        ({
            let after = state.after_epochs(losses.take(k as int));
            &&& after.num_epochs == state.num_epochs
            &&& after.n_epochs == state.n_epochs
            &&& after.epoch == state.epoch + k
            &&& after.best_epoch == state.best_epoch
            &&& after.best_value == state.best_value
            &&& after.status == if k < losses.len() {
                Status::Running
            } else {
                Status::Stopped(StopReason::EarlyStopped)
            }
        }),
    decreases k,
{
    let prefix = losses.take(k as int);
    if k == 0 {
        assert(prefix.len() == 0);
    } else {
        lemma_stalled_prefix(state, losses, (k - 1) as nat);
        assert(prefix.drop_last() =~= losses.take(k - 1));
        assert(prefix.last() == losses[k - 1]);
    }
}

/// The state of an ever-improving run after its first `k` epochs.
proof fn lemma_improving_prefix(num_epochs: nat, n_epochs: nat, losses: Seq<i64>, k: nat)
    requires
        0 < num_epochs,
        k <= losses.len(),
        forall|i: int, j: int| 0 <= i < j < losses.len() ==> losses[i] > losses[j],
    ensures
        ({
            let state = TrainingView::initial(num_epochs, n_epochs).after_epochs(
                losses.take(k as int),
            );
            let done = if k < num_epochs {
                k
            } else {
                num_epochs
            };
            &&& state.num_epochs == num_epochs
            &&& state.n_epochs == n_epochs
            &&& state.epoch == done
            &&& state.best_epoch == done
            &&& done > 0 ==> state.best_value == Some(losses[done - 1])
            &&& done == 0 ==> state.best_value is None
            &&& state.status == if k < num_epochs {
                Status::Running
            } else {
                Status::Stopped(StopReason::BudgetExhausted)
            }
        }),
    decreases k,
{
    let prefix = losses.take(k as int);
    if k == 0 {
        assert(prefix.len() == 0);
    } else {
        lemma_improving_prefix(num_epochs, n_epochs, losses, (k - 1) as nat);
        assert(prefix.drop_last() =~= losses.take(k - 1));
        assert(prefix.last() == losses[k - 1]);
    }
}

} // verus!
