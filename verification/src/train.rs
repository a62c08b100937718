use vstd::prelude::*;

use crate::element::Element;
use crate::tensor::{fold_seq, add_of, Tensor};

verus! {

/// What a checkpointing strategy asks for after an epoch.
#[derive(Clone, Copy, PartialEq, Eq, Structural, Debug)]
pub enum CheckpointingAction {
    /// Remove the record of the given epoch.
    Delete(usize),
    /// Save the current record.
    Save,
}

/// How the values of a metric are aggregated over an epoch.
#[derive(Clone, Copy, PartialEq, Eq, Structural, Debug)]
pub enum Aggregate {
    /// Arithmetic mean.
    Mean,
}

/// Which direction of a metric counts as better.
#[derive(Clone, Copy, PartialEq, Eq, Structural, Debug)]
pub enum Direction {
    /// Smaller is better.
    Lowest,
    /// Larger is better.
    Highest,
}

/// Which data split a metric is read from.
#[derive(Clone, Copy, PartialEq, Eq, Structural, Debug)]
pub enum Split {
    /// The training split.
    Train,
    /// The validation split.
    Valid,
}

/// Keeps only the best checkpoint by a chosen metric: after each epoch it
/// saves when the epoch is the best so far and deletes the previously kept
/// checkpoint when a better one exists.
pub struct MetricCheckpointingStrategy {
    current: Option<usize>,
    aggregate: Aggregate,
    direction: Direction,
    split: Split,
    name: String,
}

impl MetricCheckpointingStrategy {
    /// The epoch currently kept, if any.
    pub closed spec fn kept(&self) -> Option<usize> {
        self.current
    }

    /// The metric name driving the decisions.
    pub closed spec fn metric_name(&self) -> Seq<char> {
        self.name@
    }

    /// Create a new strategy keyed by the named metric.
    pub fn new(name: String, aggregate: Aggregate, direction: Direction, split: Split) -> (r:
        MetricCheckpointingStrategy)
        ensures
            r.kept() is None,
            r.metric_name() == name@,
    {
        MetricCheckpointingStrategy { current: None, aggregate, direction, split, name }
    }

    /// Decides after `epoch`: `best_epoch` is the best epoch the event
    /// store knows for this metric, or nothing when it knows none, in which
    /// case the current epoch counts as best. The previously kept
    /// checkpoint is deleted when it is no longer the best, and the current
    /// epoch is saved exactly when it is the best.
    pub fn checkpointing(&mut self, epoch: usize, best_epoch: Option<usize>) -> (r: Vec<
        CheckpointingAction,
    >)
        ensures
            ({
                let best = match best_epoch {
                    Some(b) => b,
                    None => epoch,
                };
                let deletes: Seq<CheckpointingAction> = match old(self).kept() {
                    Some(cur) => if cur != best {
                        seq![CheckpointingAction::Delete(cur)]
                    } else {
                        Seq::empty()
                    },
                    None => Seq::empty(),
                };
                let saves: Seq<CheckpointingAction> = if best == epoch {
                    seq![CheckpointingAction::Save]
                } else {
                    Seq::empty()
                };
                &&& r@ =~= deletes + saves
                &&& final(self).kept() == Some(best)
                &&& final(self).metric_name() == old(self).metric_name()
            }),
    {
        let best = match best_epoch {
            Some(b) => b,
            None => epoch,
        };
        let mut actions: Vec<CheckpointingAction> = Vec::new();
        if let Some(cur) = self.current {
            if cur != best {
                actions.push(CheckpointingAction::Delete(cur));
            }
        }
        if best == epoch {
            actions.push(CheckpointingAction::Save);
        }
        self.current = Some(best);
        actions
    }
}

/// The running aggregate of a numeric metric over an epoch.
pub struct NumericMetricState<E> {
    sum: E,
    count: usize,
}

impl<E: Element> NumericMetricState<E> {
    /// The values summed so far.
    pub closed spec fn sum_of(&self) -> E {
        self.sum
    }

    /// How many batches were counted.
    pub closed spec fn count_of(&self) -> int {
        self.count as int
    }

    /// A fresh state with nothing counted.
    pub fn new() -> (r: NumericMetricState<E>)
        ensures
            r.sum_of() == E::zero_v(),
            r.count_of() == 0,
    {
        NumericMetricState { sum: E::zero(), count: 0 }
    }

    /// Counts one batch's value, weighted by the batch size.
    pub fn update(&mut self, value: E, batch_size: usize)
        requires
            old(self).count_of() + batch_size <= usize::MAX,
        ensures
            final(self).sum_of() == old(self).sum_of().add_v(
                value.mul_v(E::of_usize_v(batch_size)),
            ),
            final(self).count_of() == old(self).count_of() + batch_size,
    {
        self.sum = self.sum.add(value.mul(E::of_usize(batch_size)));
        self.count = self.count + batch_size;
    }

    /// Forgets everything counted.
    pub fn reset(&mut self)
        ensures
            final(self).sum_of() == E::zero_v(),
            final(self).count_of() == 0,
    {
        self.sum = E::zero();
        self.count = 0;
    }

    /// The mean of the counted values.
    pub fn value(&self) -> (r: E)
        ensures
            r == self.sum_of().div_v(E::of_usize_v(self.count_of() as usize)),
    {
        self.sum.div(E::of_usize(self.count))
    }
}

/// The loss metric: tracks the mean loss over an epoch.
pub struct LossMetric<E> {
    /// The running aggregate.
    pub state: NumericMetricState<E>,
}

/// The input of the loss metric: the loss tensor of one batch.
pub struct LossInput<E> {
    /// The batch's loss values.
    pub tensor: Tensor<E>,
}

impl<E: Element> LossInput<E> {
    /// Wraps one batch's loss values.
    pub fn new(tensor: Tensor<E>) -> (r: LossInput<E>)
        ensures
            r.tensor == tensor,
    {
        LossInput { tensor }
    }
}

impl<E: Element> LossMetric<E> {
    /// Create the metric.
    pub fn new() -> (r: LossMetric<E>)
        ensures
            r.state.sum_of() == E::zero_v(),
            r.state.count_of() == 0,
    {
        LossMetric { state: NumericMetricState::new() }
    }

    /// Counts one batch: the mean of its loss values, weighted by the
    /// batch size.
    pub fn update(&mut self, loss: &LossInput<E>)
        requires
            loss.tensor.wf(),
            loss.tensor.dims().len() == 1,
            old(self).state.count_of() + loss.tensor.dims()[0] <= usize::MAX,
        ensures
            final(self).state.sum_of() == old(self).state.sum_of().add_v(
                fold_seq(loss.tensor.elems(), add_of::<E>(), E::zero_v()).div_v(
                    E::of_usize_v(loss.tensor.elems().len() as usize),
                ).mul_v(E::of_usize_v(loss.tensor.dims()[0] as usize)),
            ),
            final(self).state.count_of() == old(self).state.count_of()
                + loss.tensor.dims()[0],
    {
        let shape = loss.tensor.shape_of();
        let batch_size = shape[0];
        let mean = loss.tensor.mean();
        proof {
            assert(loss.tensor.elems().len() == crate::shape::prod(loss.tensor.dims()));
            assert(crate::shape::prod(loss.tensor.dims())
                == crate::shape::prod(loss.tensor.dims().drop_last()) * loss.tensor.dims()[0]);
            assert(loss.tensor.dims().drop_last() =~= Seq::<usize>::empty());
        }
        let v = mean.elem_at(0);
        self.state.update(v, batch_size);
    }

    /// Forgets the epoch counted so far.
    pub fn clear(&mut self)
        ensures
            final(self).state.sum_of() == E::zero_v(),
            final(self).state.count_of() == 0,
    {
        self.state.reset()
    }

    /// The mean loss counted so far.
    pub fn value(&self) -> (r: E)
        ensures
            r == self.state.sum_of().div_v(E::of_usize_v(self.state.count_of() as usize)),
    {
        self.state.value()
    }
}

/// Tracks the learning rate across iterations.
pub struct LearningRateMetric<E> {
    /// The running aggregate.
    pub state: NumericMetricState<E>,
}

impl<E: Element> LearningRateMetric<E> {
    /// Creates a new learning rate metric.
    pub fn new() -> (r: LearningRateMetric<E>)
        ensures
            r.state.sum_of() == E::zero_v(),
            r.state.count_of() == 0,
    {
        LearningRateMetric { state: NumericMetricState::new() }
    }

    /// Counts one iteration's learning rate; an unknown rate counts as
    /// zero.
    pub fn update(&mut self, lr: Option<E>)
        requires
            old(self).state.count_of() + 1 <= usize::MAX,
        ensures
            final(self).state.sum_of() == old(self).state.sum_of().add_v(
                (match lr {
                    Some(v) => v,
                    None => E::zero_v(),
                }).mul_v(E::of_usize_v(1)),
            ),
            final(self).state.count_of() == old(self).state.count_of() + 1,
    {
        let v = match lr {
            Some(v) => v,
            None => E::zero(),
        };
        self.state.update(v, 1);
    }

    /// Forgets everything counted.
    pub fn clear(&mut self)
        ensures
            final(self).state.sum_of() == E::zero_v(),
            final(self).state.count_of() == 0,
    {
        self.state.reset()
    }
}


/// The character of one decimal digit.
pub open spec fn digit_char(d: int) -> char {
    if d == 0 {
        '0'
    } else if d == 1 {
        '1'
    } else if d == 2 {
        '2'
    } else if d == 3 {
        '3'
    } else if d == 4 {
        '4'
    } else if d == 5 {
        '5'
    } else if d == 6 {
        '6'
    } else if d == 7 {
        '7'
    } else if d == 8 {
        '8'
    } else {
        '9'
    }
}

/// The decimal rendering of a number, most significant digit first.
pub open spec fn dec_str(n: int) -> Seq<char>
    decreases n,
{
    if n < 10 {
        seq![digit_char(n)]
    } else {
        dec_str(n / 10).push(digit_char(n % 10))
    }
}

/// One decimal digit as text.
fn digit_str(d: usize) -> (r: &'static str)
    requires
        d < 10,
    ensures
        r@ =~= seq![digit_char(d as int)],
{
    proof {
        reveal_strlit("0");
        reveal_strlit("1");
        reveal_strlit("2");
        reveal_strlit("3");
        reveal_strlit("4");
        reveal_strlit("5");
        reveal_strlit("6");
        reveal_strlit("7");
        reveal_strlit("8");
        reveal_strlit("9");
    }
    match d {
        0 => "0",
        1 => "1",
        2 => "2",
        3 => "3",
        4 => "4",
        5 => "5",
        6 => "6",
        7 => "7",
        8 => "8",
        _ => "9",
    }
}

/// The decimal rendering of a number.
pub fn usize_to_decimal(n: usize) -> (r: String)
    ensures
        r@ =~= dec_str(n as int),
    decreases n,
{
    if n < 10 {
        String::from_str(digit_str(n))
    } else {
        let mut s = usize_to_decimal(n / 10);
        s.append(digit_str(n % 10));
        proof {
            assert(s@ =~= dec_str(n as int / 10).push(digit_char(n as int % 10)));
        }
        s
    }
}

/// Saves and restores training records as files named after their epoch.
/// The naming lives here; the reading and writing is the surrounding
/// program's.
pub struct FileCheckpointer {
    directory: String,
    name: String,
}

impl FileCheckpointer {
    /// The directory the checkpoints live in.
    pub closed spec fn directory_of(&self) -> Seq<char> {
        self.directory@
    }

    /// The base name of the checkpoints.
    pub closed spec fn name_of(&self) -> Seq<char> {
        self.name@
    }

    /// Creates a new file checkpointer over the given directory and base
    /// name.
    pub fn new(directory: String, name: String) -> (r: FileCheckpointer)
        ensures
            r.directory_of() == directory@,
            r.name_of() == name@,
    {
        FileCheckpointer { directory, name }
    }

    /// The path of the checkpoint of one epoch: the directory, the base
    /// name, and the epoch, joined as `directory/name-epoch`.
    pub fn path_for_epoch(&self, epoch: usize) -> (r: String)
        ensures
            r@ =~= self.directory_of() + seq!['/'] + self.name_of() + seq!['-'] + dec_str(
                epoch as int,
            ),
    {
        proof {
            reveal_strlit("/");
            reveal_strlit("-");
        }
        let mut path = self.directory.clone();
        path.append("/");
        path.append(self.name.as_str());
        path.append("-");
        let num = usize_to_decimal(epoch);
        path.append(num.as_str());
        path
    }
}

} // verus!

