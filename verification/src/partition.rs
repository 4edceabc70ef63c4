//! Deterministic train/test partitions of a dataset's indices.
//!
//! A partition is a contiguous range of one seeded permutation of the
//! indices `0..len`. The training partition takes the front of the
//! permutation and the test partition the rest, so that the two never share
//! a record and together hold every record.

use burn::data::dataset::transform::ShuffledDataset;
use burn::data::dataset::{Dataset, InMemDataset};
use vstd::prelude::*;

verus! {

/// The seed of the permutation behind [`UnswNb15Dataset::new`].
pub const DEFAULT_SEED: u64 = 42;

/// Numerator of the training share behind [`UnswNb15Dataset::new`].
pub const TRAIN_NUMERATOR: usize = 8;

/// Denominator of the training share behind [`UnswNb15Dataset::new`].
pub const TRAIN_DENOMINATOR: usize = 10;

/// Which side of the split point a partition takes.
#[derive(Debug, Clone, Copy, PartialEq, Eq, Structural)]
pub enum Split {
    Train,
    Test,
}

/// Why no partition could be made.
#[derive(Debug, Clone, Copy, PartialEq, Eq, Structural)]
pub enum PartitionError {
    /// The split is named neither `train` nor `test`.
    InvalidSplit,
    /// The training share is not strictly between zero and one, so that one
    /// of the two partitions would be empty whatever the dataset holds.
    InvalidRatio,
}

/// The order in which `burn`'s `ShuffledDataset::with_seed` visits the
/// indices of a dataset of `len` items for the given seed.
pub uninterp spec fn shuffled_order(len: usize, seed: u64) -> Seq<usize>;

/// `order` holds every index below its length exactly once.
pub open spec fn is_permutation(order: Seq<usize>) -> bool {
    &&& order.no_duplicates()
    &&& forall|i: int| 0 <= i < order.len() ==> (#[trigger] order[i]) < order.len()
}

/// Calls `ShuffledDataset::with_seed` on the identity dataset `0..len` and
/// reads the shuffled items back in order.
///
/// Trusted: the call builds the index list `0..len`, shuffles it in place
/// by swaps with a generator seeded by `seed` alone, and answers `get(i)`
/// with the item at the `i`-th shuffled index. The result therefore has
/// `len` entries, holds no index twice and none out of range, and depends
/// on `len` and `seed` only. Like any allocation, the call needs memory for
/// `len` indices.
#[verifier::external_body]
fn shuffled_indices(len: usize, seed: u64) -> (order: Vec<usize>)
    ensures
        order@ == shuffled_order(len, seed),
        order@.len() == len,
        is_permutation(order@),
{
    let identity: Vec<usize> = (0..len).collect();
    let shuffled = ShuffledDataset::with_seed(InMemDataset::new(identity), seed);
    shuffled.iter().collect()
}

/// The split that a name stands for: `train`, `test`, or none.
pub open spec fn split_named(name: Seq<char>) -> Option<Split> {
    if name == "train"@ {
        Some(Split::Train)
    } else if name == "test"@ {
        Some(Split::Test)
    } else {
        None
    }
}

/// A training share `numerator / denominator` is valid when it lies strictly
/// between zero and one.
pub open spec fn valid_ratio(numerator: usize, denominator: usize) -> bool {
    0 < numerator < denominator
}

/// The position in the permutation at which the test partition begins:
/// the training share of `len`, rounded down.
pub open spec fn split_point(len: nat, numerator: nat, denominator: nat) -> nat {
    (len * numerator) / denominator
}

/// The indices that one side of the split takes from a permutation, in the
/// order of the permutation.
pub open spec fn split_indices(
    order: Seq<usize>,
    split: Split,
    numerator: usize,
    denominator: usize,
) -> Seq<usize> {
    let point = split_point(order.len(), numerator as nat, denominator as nat) as int;
    match split {
        Split::Train => order.subrange(0, point),
        Split::Test => order.subrange(point, order.len() as int),
    }
}

/// What [`UnswNb15Dataset::partition`] answers for given arguments.
pub open spec fn partition_outcome(
    len: usize,
    split: Seq<char>,
    seed: u64,
    numerator: usize,
    denominator: usize,
    outcome: Result<UnswNb15Dataset, PartitionError>,
) -> bool {
    match outcome {
        Ok(dataset) => {
            &&& split_named(split) is Some
            &&& valid_ratio(numerator, denominator)
            &&& dataset.wf()
            &&& dataset.order() == shuffled_order(len, seed)
            &&& dataset.source_len() == len
            &&& dataset@ == split_indices(
                shuffled_order(len, seed),
                split_named(split)->Some_0,
                numerator,
                denominator,
            )
        },
        Err(PartitionError::InvalidSplit) => split_named(split) is None,
        Err(PartitionError::InvalidRatio) => {
            &&& split_named(split) is Some
            &&& !valid_ratio(numerator, denominator)
        },
    }
}

/// For a share between zero and one, the split point never lies beyond the
/// end of the dataset.
pub proof fn lemma_split_point_in_range(len: nat, numerator: nat, denominator: nat)
    requires
        numerator <= denominator,
        0 < denominator,
    ensures
        split_point(len, numerator, denominator) <= len,
{
    let n = numerator as int;
    let d = denominator as int;
    let l = len as int;
    vstd::arithmetic::mul::lemma_mul_inequality(n, d, l);
    assert(l * n == n * l) by (nonlinear_arith);
    assert(l * n <= d * l);
    vstd::arithmetic::div_mod::lemma_div_is_ordered(l * n, d * l, d);
    vstd::arithmetic::div_mod::lemma_div_multiples_vanish(l, d);
}

/// A permutation of `0..n` reaches every index below `n`.
pub proof fn lemma_permutation_is_onto(order: Seq<usize>)
    requires
        is_permutation(order),
    ensures
        forall|k: usize| k < order.len() ==> order.contains(k),
{
    let n = order.len() as int;
    let ints = order.map_values(|x: usize| x as int);
    assert(ints.no_duplicates()) by {
        assert forall|i: int, j: int|
            0 <= i < ints.len() && 0 <= j < ints.len() && i != j implies ints[i] != ints[j] by {
            assert(ints[i] == order[i] as int);
            assert(ints[j] == order[j] as int);
        }
    }
    ints.unique_seq_to_set();
    vstd::set_lib::lemma_int_range(0, n);
    let range = vstd::set_lib::set_int_range(0, n);
    assert(ints.to_set().subset_of(range)) by {
        assert forall|v: int| ints.to_set().contains(v) implies range.contains(v) by {
            let i = choose|i: int| 0 <= i < ints.len() && ints[i] == v;
            assert(order[i] < order.len());
        }
    }
    vstd::seq_lib::seq_to_set_is_finite(ints);
    vstd::set_lib::lemma_subset_equality(ints.to_set(), range);
    assert forall|k: usize| k < order.len() implies order.contains(k) by {
        assert(range.contains(k as int));
        assert(ints.to_set().contains(k as int));
        let i = choose|i: int| 0 <= i < ints.len() && ints[i] == k as int;
        assert(order[i] == k);
    }
}

/// Decides whether `order` is a permutation of the indices below its
/// length, in one pass with a table of the indices met so far.
pub fn check_permutation(order: &Vec<usize>) -> (ok: bool)
    ensures
        ok == is_permutation(order@),
{
    let n = order.len();
    let mut seen: Vec<bool> = Vec::new();
    while seen.len() < n
        invariant
            seen@.len() <= n,
            forall|v: int| 0 <= v < seen@.len() ==> !seen@[v],
        decreases n - seen@.len(),
    {
        seen.push(false);
    }
    let ghost mut met_at: Seq<int> = Seq::new(n as nat, |v: int| 0int);
    let mut i: usize = 0;
    while i < n
        invariant
            i <= n,
            n == order@.len(),
            seen@.len() == n,
            met_at.len() == n,
            forall|j: int| 0 <= j < i ==> (#[trigger] order@[j]) < n && seen@[order@[j] as int],
            forall|v: int|
                0 <= v < n && #[trigger] seen@[v] ==> 0 <= met_at[v] < i && order@[met_at[v]] == v,
            forall|a: int, b: int| 0 <= a < b < i ==> order@[a] != order@[b],
        decreases n - i,
    {
        let v = order[i];
        if v >= n {
            return false;
        }
        if seen[v] {
            proof {
                let earlier = met_at[v as int];
                assert(order@[earlier] == order@[i as int] && earlier != i);
            }
            return false;
        }
        seen.set(v, true);
        proof {
            met_at = met_at.update(v as int, i as int);
        }
        i += 1;
    }
    proof {
        assert forall|a: int, b: int|
            0 <= a < order@.len() && 0 <= b < order@.len() && a != b implies order@[a]
            != order@[b] by {
            if a < b {
                assert(order@[a] != order@[b]);
            } else {
                assert(order@[b] != order@[a]);
            }
        }
    }
    true
}

/// Whether two strings hold the same text.
fn same_text(a: &str, b: &str) -> (same: bool)
    ensures
        same == (a@ == b@),
{
    let left = a.to_owned();
    let right = b.to_owned();
    left == right
}

/// The training share of `len`, rounded down, computed without overflow.
fn split_index(len: usize, numerator: usize, denominator: usize) -> (point: usize)
    requires
        valid_ratio(numerator, denominator),
    ensures
        point == split_point(len as nat, numerator as nat, denominator as nat),
        point <= len,
{
    proof {
        lemma_split_point_in_range(len as nat, numerator as nat, denominator as nat);
        assert((len as int) * (numerator as int) <= 0xFFFF_FFFF_FFFF_FFFF
            * 0xFFFF_FFFF_FFFF_FFFF) by (nonlinear_arith)
            requires
                0 <= len <= 0xFFFF_FFFF_FFFF_FFFF,
                0 <= numerator <= 0xFFFF_FFFF_FFFF_FFFF,
        ;
    }
    let wide: u128 = (len as u128) * (numerator as u128);
    let point: u128 = wide / (denominator as u128);
    point as usize
}

impl Split {
    /// Reads a split from its name. Only `train` and `test` name one; any
    /// other name is refused.
    pub fn parse(name: &str) -> (result: Result<Split, PartitionError>)
        ensures
            result == match split_named(name@) {
                Some(split) => Ok::<Split, PartitionError>(split),
                None => Err::<Split, PartitionError>(PartitionError::InvalidSplit),
            },
    {
        if same_text(name, "train") {
            Ok(Split::Train)
        } else if same_text(name, "test") {
            Ok(Split::Test)
        } else {
            Err(PartitionError::InvalidSplit)
        }
    }
}

/// One partition of a dataset: a contiguous range of a permutation of the
/// dataset's indices. It answers `get` and `len` as a dataset of its own and
/// hands out, for each position, the index of the record in the source.
#[derive(Debug, Clone)]
pub struct UnswNb15Dataset {
    order: Vec<usize>,
    start: usize,
    end: usize,
}

impl View for UnswNb15Dataset {
    type V = Seq<usize>;

    /// The source indices that the partition holds, in its own order.
    open spec fn view(&self) -> Seq<usize> {
        self.order().subrange(self.start() as int, self.end() as int)
    }
}

impl UnswNb15Dataset {
    /// The whole permutation that the partition is a range of.
    pub closed spec fn order(&self) -> Seq<usize> {
        self.order@
    }

    /// Where the partition begins in the permutation.
    pub closed spec fn start(&self) -> nat {
        self.start as nat
    }

    /// Where the partition ends in the permutation, exclusive.
    pub closed spec fn end(&self) -> nat {
        self.end as nat
    }

    /// The number of records in the source dataset.
    pub open spec fn source_len(&self) -> nat {
        self.order().len()
    }

    /// The range lies within a permutation of the source's indices.
    pub open spec fn wf(&self) -> bool {
        &&& is_permutation(self.order())
        &&& self.start() <= self.end() <= self.order().len()
    }

    /// Cuts a given permutation at the training share and keeps one side.
    ///
    /// Fails with `InvalidRatio` exactly when the share is not strictly
    /// between zero and one.
    pub fn from_order(
        order: Vec<usize>,
        split: Split,
        numerator: usize,
        denominator: usize,
    ) -> (result: Result<Self, PartitionError>)
        requires
            is_permutation(order@),
        ensures
            result is Ok <==> valid_ratio(numerator, denominator),
            result matches Err(e) ==> e == PartitionError::InvalidRatio,
            result matches Ok(dataset) ==> {
                &&& dataset.wf()
                &&& dataset.order() == order@
                &&& dataset@ == split_indices(order@, split, numerator, denominator)
            },
    {
        if numerator == 0 || numerator >= denominator {
            return Err(PartitionError::InvalidRatio);
        }
        let len = order.len();
        let point = split_index(len, numerator, denominator);
        match split {
            Split::Train => Ok(UnswNb15Dataset { order, start: 0, end: point }),
            Split::Test => Ok(UnswNb15Dataset { order, start: point, end: len }),
        }
    }

    /// Partitions a dataset of `len` records: shuffles the indices `0..len`
    /// with `seed` and keeps the side of the split that `split` names.
    ///
    /// Both sides are cut from the same permutation whenever `len` and
    /// `seed` agree. A name other than `train` or `test` is refused with
    /// `InvalidSplit`; otherwise a share that is not strictly between zero
    /// and one is refused with `InvalidRatio`.
    pub fn partition(
        len: usize,
        split: &str,
        seed: u64,
        numerator: usize,
        denominator: usize,
    ) -> (result: Result<Self, PartitionError>)
        ensures
            partition_outcome(len, split@, seed, numerator, denominator, result),
    {
        let side = match Split::parse(split) {
            Ok(side) => side,
            Err(e) => {
                return Err(e);
            },
        };
        let order = shuffled_indices(len, seed);
        Self::from_order(order, side, numerator, denominator)
    }

    /// The partition named `split` of a dataset of `len` records, with the
    /// fixed seed and an 80/20 split.
    pub fn new(split: &str, len: usize) -> (dataset: Self)
        requires
            split_named(split@) is Some,
        ensures
            partition_outcome(
                len,
                split@,
                DEFAULT_SEED,
                TRAIN_NUMERATOR,
                TRAIN_DENOMINATOR,
                Ok(dataset),
            ),
    {
        match Self::partition(len, split, DEFAULT_SEED, TRAIN_NUMERATOR, TRAIN_DENOMINATOR) {
            Ok(dataset) => dataset,
            Err(_) => vstd::pervasive::unreached(),
        }
    }

    /// The training partition: the first 80% of the permutation.
    pub fn train(len: usize) -> (dataset: Self)
        ensures
            dataset.wf(),
            dataset.order() == shuffled_order(len, DEFAULT_SEED),
            dataset.source_len() == len,
            dataset@ == split_indices(
                shuffled_order(len, DEFAULT_SEED),
                Split::Train,
                TRAIN_NUMERATOR,
                TRAIN_DENOMINATOR,
            ),
    {
        Self::new("train", len)
    }

    /// The test partition: the remaining 20% of the permutation.
    pub fn test(len: usize) -> (dataset: Self)
        ensures
            dataset.wf(),
            dataset.order() == shuffled_order(len, DEFAULT_SEED),
            dataset.source_len() == len,
            dataset@ == split_indices(
                shuffled_order(len, DEFAULT_SEED),
                Split::Test,
                TRAIN_NUMERATOR,
                TRAIN_DENOMINATOR,
            ),
    {
        proof {
            reveal_strlit("train");
            reveal_strlit("test");
            assert("train"@.len() == 5 && "test"@.len() == 4);
        }
        Self::new("test", len)
    }

    /// The number of records in the partition.
    pub fn len(&self) -> (n: usize)
        requires
            self.wf(),
        ensures
            n == self@.len(),
    {
        self.end - self.start
    }

    /// The source index of the record at `index` of the partition, or
    /// nothing when the partition has no such position.
    pub fn get(&self, index: usize) -> (found: Option<usize>)
        requires
            self.wf(),
        ensures
            found == (if index < self@.len() {
                Some(self@[index as int])
            } else {
                None
            }),
            found matches Some(source) ==> source < self.source_len(),
    {
        if index < self.end - self.start {
            Some(self.order[self.start + index])
        } else {
            None
        }
    }
}

/// The training and the test side of one permutation split it in two, for
/// every share between zero and one: their lengths add up to the dataset's,
/// the training indices followed by the test indices are the permutation,
/// no index is in both, and every index of the dataset is in one of them.
pub proof fn lemma_train_test_partition(order: Seq<usize>, numerator: usize, denominator: usize)
    requires
        is_permutation(order),
        numerator <= denominator,
        0 < denominator,
    ensures
        ({
            let train = split_indices(order, Split::Train, numerator, denominator);
            let test = split_indices(order, Split::Test, numerator, denominator);
            &&& train.len() + test.len() == order.len()
            &&& train + test == order
            &&& forall|i: int, j: int|
                0 <= i < train.len() && 0 <= j < test.len() ==> train[i] != test[j]
            &&& forall|k: usize| k < order.len() ==> train.contains(k) || test.contains(k)
        }),
{
    lemma_split_point_in_range(order.len(), numerator as nat, denominator as nat);
    let point = split_point(order.len(), numerator as nat, denominator as nat) as int;
    let train = split_indices(order, Split::Train, numerator, denominator);
    let test = split_indices(order, Split::Test, numerator, denominator);
    assert(train + test =~= order);
    assert forall|i: int, j: int| 0 <= i < train.len() && 0 <= j < test.len() implies train[i]
        != test[j] by {
        assert(train[i] == order[i]);
        assert(test[j] == order[point + j]);
    }
    lemma_permutation_is_onto(order);
    assert forall|k: usize| k < order.len() implies train.contains(k) || test.contains(k) by {
        assert(order.contains(k));
        let at = choose|at: int| 0 <= at < order.len() && order[at] == k;
        if at < point {
            assert(train[at] == k);
        } else {
            assert(test[at - point] == k);
        }
    }
}

/// The training and the test partition that [`UnswNb15Dataset::partition`]
/// makes of one dataset with one seed and one share, whatever the seed:
/// their lengths add up to the dataset's, no record is in both, and every
/// record is in one of them.
pub proof fn lemma_partitions_of_one_dataset(
    len: usize,
    seed: u64,
    numerator: usize,
    denominator: usize,
    train: UnswNb15Dataset,
    test: UnswNb15Dataset,
)
    requires
        partition_outcome(len, "train"@, seed, numerator, denominator, Ok(train)),
        partition_outcome(len, "test"@, seed, numerator, denominator, Ok(test)),
    ensures
        train@.len() + test@.len() == len,
        forall|i: int, j: int|
            0 <= i < train@.len() && 0 <= j < test@.len() ==> train@[i] != test@[j],
        forall|k: usize| k < len ==> train@.contains(k) || test@.contains(k),
        forall|i: int| 0 <= i < train@.len() ==> (#[trigger] train@[i]) < len,
        forall|j: int| 0 <= j < test@.len() ==> (#[trigger] test@[j]) < len,
{
    reveal_strlit("train");
    reveal_strlit("test");
    assert("train"@.len() == 5 && "test"@.len() == 4);
    lemma_train_test_partition(train.order(), numerator, denominator);
}

/// Partitioning is a function of its arguments: two answers to the same
/// length, split name, seed and share are both refusals of the same kind, or
/// both partitions that list the same indices in the same order.
pub proof fn lemma_partition_deterministic(
    len: usize,
    split: Seq<char>,
    seed: u64,
    numerator: usize,
    denominator: usize,
    first: Result<UnswNb15Dataset, PartitionError>,
    second: Result<UnswNb15Dataset, PartitionError>,
)
    requires
        partition_outcome(len, split, seed, numerator, denominator, first),
        partition_outcome(len, split, seed, numerator, denominator, second),
    ensures
        first matches Ok(a) ==> second matches Ok(b) && a@ == b@,
        first matches Err(e) ==> second matches Err(f) && e == f,
{
}

} // verus!
