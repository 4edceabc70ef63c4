//! Stacking records into a batch and finding the bounds of its columns.
//!
//! A batch is normalised column by column: each value is moved by the
//! column's minimum and divided by the column's width. Minimum and maximum
//! are computed here, afresh for every batch. The division works on real
//! numbers and is left to the caller; where a column holds one value only,
//! its width is zero and the caller's quotient is not a finite number.

use crate::data::{UnswNb15Item, FEATURE_COUNT};
use vstd::prelude::*;

verus! {

/// The least and the greatest value of a column.
#[derive(Debug, Clone, Copy, PartialEq, Eq, Structural)]
pub struct ColumnRange {
    pub min: i64,
    pub max: i64,
}

/// What a batch holds: one feature row per record, and one target per
/// record.
pub ghost struct BatchView {
    pub inputs: Seq<Seq<i64>>,
    pub targets: Seq<i64>,
}

/// The records' feature rows stacked in order, beside their labels.
pub open spec fn stacked(items: Seq<UnswNb15Item>) -> BatchView {
    BatchView {
        inputs: Seq::new(items.len(), |r: int| items[r].spec_features()),
        targets: Seq::new(items.len(), |r: int| items[r].label),
    }
}

/// Column `c` of a stack of rows, top to bottom.
pub open spec fn column(rows: Seq<Seq<i64>>, c: int) -> Seq<i64> {
    Seq::new(rows.len(), |r: int| rows[r][c])
}

/// `range` runs from the least to the greatest of `values`: both ends occur
/// among the values and no value lies outside.
pub open spec fn is_range_of(range: ColumnRange, values: Seq<i64>) -> bool {
    &&& values.contains(range.min)
    &&& values.contains(range.max)
    &&& forall|i: int| 0 <= i < values.len() ==> range.min <= #[trigger] values[i] <= range.max
}

impl ColumnRange {
    /// Whether the column holds one value only, so that its width is zero
    /// and normalising it divides by zero.
    pub fn is_degenerate(&self) -> (degenerate: bool)
        ensures
            degenerate == (self.min == self.max),
    {
        self.min == self.max
    }
}

/// Records stacked for one training or validation step: the feature rows as
/// a table of `rows` by [`FEATURE_COUNT`] and the labels as a column of
/// `rows`, both before normalisation.
#[derive(Debug, Clone)]
pub struct UnswNb15Batch {
    inputs: Vec<Vec<i64>>,
    targets: Vec<i64>,
}

impl View for UnswNb15Batch {
    type V = BatchView;

    closed spec fn view(&self) -> BatchView {
        BatchView {
            inputs: Seq::new(self.inputs@.len(), |r: int| self.inputs@[r]@),
            targets: self.targets@,
        }
    }
}

impl UnswNb15Batch {
    /// The inputs are a table of `rows` by `cols` and the targets a column
    /// of `rows`.
    pub open spec fn has_shape(&self, rows: nat, cols: nat) -> bool {
        &&& self@.inputs.len() == rows
        &&& forall|r: int| 0 <= r < rows ==> (#[trigger] self@.inputs[r]).len() == cols
        &&& self@.targets.len() == rows
    }

    /// Every row has [`FEATURE_COUNT`] columns and a target of its own.
    pub open spec fn wf(&self) -> bool {
        self.has_shape(self@.targets.len(), FEATURE_COUNT as nat)
    }

    /// The number of records in the batch.
    pub fn rows(&self) -> (n: usize)
        requires
            self.wf(),
        ensures
            n == self@.inputs.len(),
            n == self@.targets.len(),
    {
        self.targets.len()
    }

    /// The feature rows, one per record.
    pub fn inputs(&self) -> (rows: &Vec<Vec<i64>>)
        ensures
            rows@.len() == self@.inputs.len(),
            forall|r: int| 0 <= r < rows@.len() ==> (#[trigger] rows@[r])@ == self@.inputs[r],
    {
        &self.inputs
    }

    /// The targets, one per record.
    pub fn targets(&self) -> (targets: &Vec<i64>)
        ensures
            targets@ == self@.targets,
    {
        &self.targets
    }

    /// The bounds of the targets, or nothing for a batch without records.
    pub fn target_range(&self) -> (range: Option<ColumnRange>)
        ensures
            range is None <==> self@.targets.len() == 0,
            range matches Some(found) ==> is_range_of(found, self@.targets),
    {
        min_max(&self.targets)
    }

    /// Column `c` of the inputs, top to bottom.
    pub fn column(&self, c: usize) -> (values: Vec<i64>)
        requires
            self.wf(),
            c < FEATURE_COUNT,
        ensures
            values@ == column(self@.inputs, c as int),
    {
        let mut values: Vec<i64> = Vec::new();
        let mut r: usize = 0;
        while r < self.inputs.len()
            invariant
                self.wf(),
                c < FEATURE_COUNT,
                r <= self.inputs@.len(),
                values@.len() == r,
                forall|k: int| 0 <= k < r ==> #[trigger] values@[k] == self@.inputs[k][c as int],
            decreases self.inputs@.len() - r,
        {
            assert(self@.inputs[r as int].len() == FEATURE_COUNT);
            values.push(self.inputs[r][c]);
            r += 1;
        }
        assert(values@ =~= column(self@.inputs, c as int));
        values
    }

    /// The inputs as one list, row after row: the value of row `r` and
    /// column `c` stands at `r * FEATURE_COUNT + c`.
    pub fn flat_inputs(&self) -> (flat: Vec<i64>)
        requires
            self.wf(),
        ensures
            flat@.len() == self@.inputs.len() * FEATURE_COUNT,
            forall|r: int, c: int|
                0 <= r < self@.inputs.len() && 0 <= c < FEATURE_COUNT ==> flat@[r * FEATURE_COUNT
                    + c] == #[trigger] self@.inputs[r][c],
    {
        let mut flat: Vec<i64> = Vec::new();
        let mut r: usize = 0;
        while r < self.inputs.len()
            invariant
                self.wf(),
                r <= self.inputs@.len(),
                flat@.len() == r * FEATURE_COUNT,
                forall|i: int, c: int|
                    0 <= i < r && 0 <= c < FEATURE_COUNT ==> flat@[i * FEATURE_COUNT + c]
                        == #[trigger] self@.inputs[i][c],
            decreases self.inputs@.len() - r,
        {
            assert(self@.inputs[r as int].len() == FEATURE_COUNT);
            let mut c: usize = 0;
            while c < FEATURE_COUNT
                invariant
                    self.wf(),
                    r < self.inputs@.len(),
                    c <= FEATURE_COUNT,
                    self@.inputs[r as int].len() == FEATURE_COUNT,
                    flat@.len() == r * FEATURE_COUNT + c,
                    forall|i: int, k: int|
                        0 <= i < r && 0 <= k < FEATURE_COUNT ==> flat@[i * FEATURE_COUNT + k]
                            == #[trigger] self@.inputs[i][k],
                    forall|k: int|
                        0 <= k < c ==> flat@[r * FEATURE_COUNT + k]
                            == #[trigger] self@.inputs[r as int][k],
                decreases FEATURE_COUNT - c,
            {
                flat.push(self.inputs[r][c]);
                c += 1;
            }
            r += 1;
        }
        flat
    }

    /// The bounds of each input column, or nothing for a batch without
    /// records.
    pub fn input_ranges(&self) -> (ranges: Option<Vec<ColumnRange>>)
        requires
            self.wf(),
        ensures
            ranges is None <==> self@.inputs.len() == 0,
            ranges matches Some(found) ==> {
                &&& found@.len() == FEATURE_COUNT
                &&& forall|c: int|
                    0 <= c < FEATURE_COUNT ==> is_range_of(
                        #[trigger] found@[c],
                        column(self@.inputs, c),
                    )
            },
    {
        if self.inputs.len() == 0 {
            return None;
        }
        let mut found: Vec<ColumnRange> = Vec::new();
        let mut c: usize = 0;
        while c < FEATURE_COUNT
            invariant
                self.wf(),
                self@.inputs.len() > 0,
                c <= FEATURE_COUNT,
                found@.len() == c,
                forall|k: int|
                    0 <= k < c ==> is_range_of(#[trigger] found@[k], column(self@.inputs, k)),
            decreases FEATURE_COUNT - c,
        {
            let values = self.column(c);
            found.push(range_of(&values));
            c += 1;
        }
        Some(found)
    }
}

/// The least and the greatest of `values`, or nothing where there are none.
pub fn min_max(values: &Vec<i64>) -> (range: Option<ColumnRange>)
    ensures
        range is None <==> values@.len() == 0,
        range matches Some(found) ==> is_range_of(found, values@),
{
    if values.len() == 0 {
        None
    } else {
        Some(range_of(values))
    }
}

/// The least and the greatest of a list that is not empty, found in one
/// pass.
fn range_of(values: &Vec<i64>) -> (range: ColumnRange)
    requires
        values@.len() > 0,
    ensures
        is_range_of(range, values@),
{
    let first: i64 = values[0];
    let mut range = ColumnRange { min: first, max: first };
    let ghost mut at_min: int = 0;
    let ghost mut at_max: int = 0;
    let mut i: usize = 1;
    while i < values.len()
        invariant
            1 <= i <= values@.len(),
            0 <= at_min < i,
            0 <= at_max < i,
            values@[at_min] == range.min,
            values@[at_max] == range.max,
            forall|k: int| 0 <= k < i ==> range.min <= #[trigger] values@[k] <= range.max,
        decreases values@.len() - i,
    {
        let value: i64 = values[i];
        if value < range.min {
            range.min = value;
            proof {
                at_min = i as int;
            }
        }
        if value > range.max {
            range.max = value;
            proof {
                at_max = i as int;
            }
        }
        i += 1;
    }
    range
}

/// Turns records into batches.
#[derive(Debug, Clone, Copy)]
pub struct UnswNb15Batcher {}

impl UnswNb15Batcher {
    /// A batcher. It keeps nothing from one batch to the next.
    pub fn new() -> (batcher: Self)
        ensures
            batcher == (UnswNb15Batcher {  }),
    {
        UnswNb15Batcher {  }
    }

    /// Stacks the records: row `r` of the inputs is the feature row of
    /// record `r`, and target `r` is its label. For `N` records the inputs
    /// have shape `(N, FEATURE_COUNT)` and the targets shape `(N)`.
    pub fn batch(&self, items: Vec<UnswNb15Item>) -> (batch: UnswNb15Batch)
        ensures
            batch@ == stacked(items@),
            batch.has_shape(items@.len(), FEATURE_COUNT as nat),
            batch.wf(),
    {
        let mut inputs: Vec<Vec<i64>> = Vec::new();
        let mut targets: Vec<i64> = Vec::new();
        let mut r: usize = 0;
        while r < items.len()
            invariant
                r <= items@.len(),
                inputs@.len() == r,
                targets@.len() == r,
                forall|k: int| 0 <= k < r ==> (#[trigger] inputs@[k])@ == items@[k].spec_features(),
                forall|k: int| 0 <= k < r ==> #[trigger] targets@[k] == items@[k].label,
            decreases items@.len() - r,
        {
            inputs.push(items[r].features());
            targets.push(items[r].label);
            r += 1;
        }
        let batch = UnswNb15Batch { inputs, targets };
        assert(batch@.inputs =~= stacked(items@).inputs);
        assert(batch@.targets =~= stacked(items@).targets);
        batch
    }
}

/// A column with two different values has a range of positive width, which
/// bounds every value of the column and is met at both ends.
///
/// This is what normalising by `(x - min) / (max - min)` needs in order to
/// divide by a number other than zero, to stay between zero and one, and to
/// send some row to zero and some row to one. The division itself is the
/// caller's.
pub proof fn lemma_varied_column_has_width(values: Seq<i64>, range: ColumnRange)
    requires
        is_range_of(range, values),
        exists|i: int, j: int|
            0 <= i < values.len() && 0 <= j < values.len() && values[i] != values[j],
    ensures
        range.min < range.max,
        forall|i: int| 0 <= i < values.len() ==> range.min <= #[trigger] values[i] <= range.max,
        exists|i: int| 0 <= i < values.len() && values[i] == range.min,
        exists|i: int| 0 <= i < values.len() && values[i] == range.max,
{
    let (i, j) = choose|i: int, j: int|
        0 <= i < values.len() && 0 <= j < values.len() && values[i] != values[j];
    assert(range.min <= values[i] <= range.max);
    assert(range.min <= values[j] <= range.max);
}

/// A range has no width exactly when all values of its column are equal.
pub proof fn lemma_degenerate_range_is_constant_column(values: Seq<i64>, range: ColumnRange)
    requires
        is_range_of(range, values),
    ensures
        range.min == range.max <==> forall|i: int, j: int|
            0 <= i < values.len() && 0 <= j < values.len() ==> values[i] == values[j],
{
    let at_min = choose|i: int| 0 <= i < values.len() && values[i] == range.min;
    let at_max = choose|i: int| 0 <= i < values.len() && values[i] == range.max;
    if range.min == range.max {
        assert forall|i: int, j: int|
            0 <= i < values.len() && 0 <= j < values.len() implies values[i] == values[j] by {
            assert(range.min <= values[i] <= range.max);
            assert(range.min <= values[j] <= range.max);
        }
    } else {
        assert(values[at_min] != values[at_max]);
    }
}

/// The bounds of a column are determined by its values.
pub proof fn lemma_range_is_unique(values: Seq<i64>, a: ColumnRange, b: ColumnRange)
    requires
        is_range_of(a, values),
        is_range_of(b, values),
    ensures
        a == b,
{
    let at_a_min = choose|i: int| 0 <= i < values.len() && values[i] == a.min;
    let at_a_max = choose|i: int| 0 <= i < values.len() && values[i] == a.max;
    let at_b_min = choose|i: int| 0 <= i < values.len() && values[i] == b.min;
    let at_b_max = choose|i: int| 0 <= i < values.len() && values[i] == b.max;
    assert(b.min <= values[at_a_min]);
    assert(a.min <= values[at_b_min]);
    assert(values[at_a_max] <= b.max);
    assert(values[at_b_max] <= a.max);
}

} // verus!
