//! The raster buffer: converting iteration outcomes into 8-bit samples and
//! assembling them, in row-major order, into the grid handed to the encoder.
//!
//! An outcome becomes the intensity `255 - min(count, 255)`, with a count of
//! zero standing in for a point that never escaped; a fast escape and no
//! escape thus share the brightest sample, which is the intended reading of
//! the image.  A raster can be assembled from one flat row-major sequence of
//! outcomes, or row by row as a set of independent workers would produce it;
//! [`lemma_per_row_samples`] states that the two constructions agree.

use vstd::prelude::*;

use crate::evaluator::IterationOutcome;
use crate::grid::row_major_index;

verus! {

/// The 8-bit sample of one outcome: `255 - min(count, 255)` for an escape
/// after `count` steps, and `255` — the same value as a zero count — for a
/// point that never escaped.
pub open spec fn sample_of(outcome: IterationOutcome) -> u8 {
    match outcome {
        IterationOutcome::Escaped(count) => if count >= 255 {
            0u8
        } else {
            (255 - count) as u8
        },
        IterationOutcome::DidNotEscape => 255u8,
    }
}

/// The samples of a sequence of outcomes, in order.
pub open spec fn samples_of(outcomes: Seq<IterationOutcome>) -> Seq<u8> {
    outcomes.map_values(|outcome: IterationOutcome| sample_of(outcome))
}

/// The rows of a grid of outcomes, each as a sequence.
pub open spec fn rows_view(rows: Seq<Vec<IterationOutcome>>) -> Seq<Seq<IterationOutcome>> {
    rows.map_values(|row: Vec<IterationOutcome>| row@)
}

/// The sample of one iteration outcome.
pub fn outcome_to_sample(outcome: IterationOutcome) -> (sample: u8)
    ensures
        sample == sample_of(outcome),
{
    match outcome {
        IterationOutcome::Escaped(count) => if count >= 255 {
            0
        } else {
            (255 - count) as u8
        },
        IterationOutcome::DidNotEscape => 255,
    }
}

/// A row-major grid of 8-bit samples, one per pixel.
pub struct Raster {
    pub width: u32,
    pub height: u32,
    pub data: Vec<u8>,
}

impl View for Raster {
    type V = Seq<u8>;

    open spec fn view(&self) -> Seq<u8> {
        self.data@
    }
}

impl Raster {
    /// The raster holds exactly one sample per pixel.
    pub open spec fn wf(&self) -> bool {
        self@.len() == self.width * self.height
    }

    /// Assemble a raster from a flat row-major sequence of outcomes, as the
    /// sequential rendering mode produces it.
    pub fn from_outcomes(width: u32, height: u32, outcomes: &Vec<IterationOutcome>) -> (raster: Raster)
        requires
            outcomes@.len() == width * height,
        ensures
            raster.wf(),
            raster.width == width,
            raster.height == height,
            raster@ == samples_of(outcomes@),
    {
        let mut data: Vec<u8> = Vec::new();
        let mut i: usize = 0;
        while i < outcomes.len()
            invariant
                i <= outcomes@.len(),
                data@ == samples_of(outcomes@.take(i as int)),
            decreases outcomes@.len() - i,
        {
            data.push(outcome_to_sample(outcomes[i]));
            assert(outcomes@.take(i + 1 as int) =~= outcomes@.take(i as int).push(outcomes@[i as int]));
            assert(data@ =~= samples_of(outcomes@.take(i + 1 as int)));
            i += 1;
        }
        assert(outcomes@.take(outcomes@.len() as int) =~= outcomes@);
        Raster { width, height, data }
    }

    /// Assemble a raster from its rows, as the parallel rendering mode
    /// produces them: each worker converts one row of outcomes, and the rows
    /// are concatenated in order.
    pub fn from_rows(width: u32, height: u32, rows: &Vec<Vec<IterationOutcome>>) -> (raster: Raster)
        requires
            rows@.len() == height,
            forall|y: int| 0 <= y < rows@.len() ==> (#[trigger] rows@[y])@.len() == width,
        ensures
            raster.wf(),
            raster.width == width,
            raster.height == height,
            raster@ == samples_of(rows_view(rows@).flatten()),
            forall|y: int, x: int|
                0 <= y < height && 0 <= x < width ==> #[trigger] raster@[y * width + x]
                    == sample_of(rows@[y]@[x]),
    {
        let ghost all_rows = rows_view(rows@);
        let mut data: Vec<u8> = Vec::new();
        let mut y: usize = 0;
        while y < rows.len()
            invariant
                y <= rows@.len(),
                rows@.len() == height,
                forall|y2: int| 0 <= y2 < rows@.len() ==> (#[trigger] rows@[y2])@.len() == width,
                all_rows == rows_view(rows@),
                data@ == samples_of(all_rows.take(y as int).flatten()),
                data@.len() == y * width,
            decreases rows@.len() - y,
        {
            let row = &rows[y];
            let mut x: usize = 0;
            while x < row.len()
                invariant
                    x <= row@.len(),
                    y < rows@.len(),
                    row@ == rows@[y as int]@,
                    row@.len() == width,
                    all_rows == rows_view(rows@),
                    data@ == samples_of(all_rows.take(y as int).flatten()) + samples_of(row@.take(x as int)),
                    data@.len() == y * width + x,
                decreases row@.len() - x,
            {
                data.push(outcome_to_sample(row[x]));
                assert(row@.take(x + 1 as int) =~= row@.take(x as int).push(row@[x as int]));
                assert(samples_of(row@.take(x + 1 as int)) =~= samples_of(row@.take(x as int)).push(
                    sample_of(row@[x as int]),
                ));
                assert(data@ =~= samples_of(all_rows.take(y as int).flatten()) + samples_of(
                    row@.take(x + 1 as int),
                ));
                x += 1;
            }
            proof {
                assert(row@.take(row@.len() as int) =~= row@);
                assert(all_rows.take(y + 1 as int) =~= all_rows.take(y as int).push(all_rows[y as int]));
                all_rows.take(y as int).lemma_flatten_push(all_rows[y as int]);
                lemma_samples_of_concat(all_rows.take(y as int).flatten(), all_rows[y as int]);
                assert(data@ =~= samples_of(all_rows.take(y + 1 as int).flatten()));
                assert((y + 1) * width == y * width + width) by (nonlinear_arith);
            }
            y += 1;
        }
        assert(all_rows.take(all_rows.len() as int) =~= all_rows);
        assert(data@.len() == height * width);
        assert(data@.len() == width * height);
        proof {
            assert forall|yy: int, xx: int|
                0 <= yy < height && 0 <= xx < width implies #[trigger] data@[yy * (width as int)
                + xx] == sample_of(rows@[yy]@[xx]) by {
                lemma_flatten_row_major(all_rows, width as int, xx, yy);
            };
        }
        Raster { width, height, data }
    }

    /// The sample of pixel `(x, y)`, read from its row-major position.
    pub fn get(&self, x: u32, y: u32) -> (sample: u8)
        requires
            self.wf(),
            x < self.width,
            y < self.height,
        ensures
            sample == self@[y * self.width + x],
    {
        let n: usize = self.data.len();
        proof {
            assert(y * self.width + x < self.width * self.height) by (nonlinear_arith)
                requires
                    x < self.width,
                    y < self.height,
            ;
            assert(y * self.width + x < n);
        }
        let i: usize = row_major_index(x, y, self.width);
        self.data[i]
    }

    /// The flat row-major byte buffer, one byte per pixel.
    pub fn bytes(&self) -> (buffer: &Vec<u8>)
        ensures
            buffer@ == self@,
    {
        &self.data
    }

    /// The raster's samples replicated across `channels` interleaved
    /// channels: the buffer is exactly `width * height * channels` bytes
    /// long, and byte `j` holds the sample of pixel `j / channels`.
    pub fn interleaved(&self, channels: usize) -> (buffer: Vec<u8>)
        requires
            self.wf(),
            channels >= 1,
            self@.len() * channels <= usize::MAX,
        ensures
            buffer@.len() == self.width * self.height * channels,
            forall|j: int| 0 <= j < buffer@.len() ==> buffer@[j] == self@[j / (channels as int)],
    {
        let mut buffer: Vec<u8> = Vec::new();
        let mut i: usize = 0;
        while i < self.data.len()
            invariant
                i <= self.data@.len(),
                channels >= 1,
                self.data@.len() * channels <= usize::MAX,
                buffer@.len() == i * channels,
                forall|j: int| 0 <= j < buffer@.len() ==> buffer@[j] == self.data@[j / (channels as int)],
            decreases self.data@.len() - i,
        {
            let sample = self.data[i];
            let mut k: usize = 0;
            proof {
                assert((i + 1) * channels <= self.data@.len() * channels) by (nonlinear_arith)
                    requires
                        i < self.data@.len(),
                        channels >= 1,
                ;
            }
            while k < channels
                invariant
                    k <= channels,
                    i < self.data@.len(),
                    channels >= 1,
                    (i + 1) * channels <= usize::MAX,
                    sample == self.data@[i as int],
                    buffer@.len() == i * channels + k,
                    forall|j: int| 0 <= j < buffer@.len() ==> buffer@[j] == self.data@[j / (channels as int)],
                decreases channels - k,
            {
                proof {
                    vstd::arithmetic::div_mod::lemma_fundamental_div_mod_converse(
                        (i * channels + k) as int,
                        channels as int,
                        i as int,
                        k as int,
                    );
                }
                buffer.push(sample);
                k += 1;
            }
            proof {
                assert((i + 1) * channels == i * channels + channels) by (nonlinear_arith);
            }
            i += 1;
        }
        proof {
            assert(self.data@.len() * channels == self.width * self.height * channels) by (nonlinear_arith)
                requires
                    self.data@.len() == self.width * self.height,
            ;
        }
        buffer
    }
}

/// A concatenation of rows that all have length `width` is
/// `rows.len() * width` elements long.
pub proof fn lemma_flatten_uniform_len<A>(rows: Seq<Seq<A>>, width: int)
    requires
        forall|i: int| 0 <= i < rows.len() ==> (#[trigger] rows[i]).len() == width,
    ensures
        rows.flatten().len() == rows.len() * width,
    decreases rows.len(),
{
    if rows.len() == 0 {
    } else {
        lemma_flatten_uniform_len(rows.drop_first(), width);
        assert(width + (rows.len() - 1) * width == rows.len() * width) by (nonlinear_arith);
    }
}

/// Row-major layout of a concatenation of rows that all have length `width`:
/// element `(x, y)` of the grid stands at position `y * width + x`, so every
/// grid coordinate is covered exactly once.
pub proof fn lemma_flatten_row_major<A>(rows: Seq<Seq<A>>, width: int, x: int, y: int)
    requires
        forall|i: int| 0 <= i < rows.len() ==> (#[trigger] rows[i]).len() == width,
        0 <= x < width,
        0 <= y < rows.len(),
    ensures
        0 <= y * width + x < rows.flatten().len(),
        rows.flatten()[y * width + x] == rows[y][x],
    decreases rows.len(),
{
    lemma_flatten_uniform_len(rows, width);
    assert(y * width + x < rows.len() * width) by (nonlinear_arith)
        requires
            0 <= x < width,
            0 <= y < rows.len(),
    ;
    if y == 0 {
        assert(rows.flatten() == rows.first() + rows.drop_first().flatten());
    } else {
        lemma_flatten_row_major(rows.drop_first(), width, x, y - 1);
        assert(rows.flatten() == rows.first() + rows.drop_first().flatten());
        assert(y * width + x - width == (y - 1) * width + x) by (nonlinear_arith);
        assert(y * width >= width) by (nonlinear_arith)
            requires
                y >= 1,
                width >= 0,
        ;
    }
}

/// Converting a concatenation of outcomes to samples is the same as
/// converting each part and concatenating the samples.
pub proof fn lemma_samples_of_concat(a: Seq<IterationOutcome>, b: Seq<IterationOutcome>)
    ensures
        samples_of(a + b) == samples_of(a) + samples_of(b),
{
    assert(samples_of(a + b) =~= samples_of(a) + samples_of(b));
}

/// The per-row samples of a grid of outcomes, each row converted on its own.
pub open spec fn per_row_samples(rows: Seq<Seq<IterationOutcome>>) -> Seq<Seq<u8>> {
    rows.map_values(|row: Seq<IterationOutcome>| samples_of(row))
}

/// Converting every row of a grid to samples and concatenating the rows
/// yields the same buffer as concatenating the rows of outcomes first and
/// converting the whole: a renderer that hands each row to an independent
/// worker and one that walks the grid in a single pass produce identical
/// bytes whenever the per-pixel outcomes are identical.
pub proof fn lemma_per_row_samples(rows: Seq<Seq<IterationOutcome>>)
    ensures
        per_row_samples(rows).flatten() == samples_of(rows.flatten()),
    decreases rows.len(),
{
    if rows.len() == 0 {
        assert(per_row_samples(rows).len() == 0);
        assert(per_row_samples(rows).flatten() =~= samples_of(rows.flatten()));
    } else {
        lemma_per_row_samples(rows.drop_first());
        assert(per_row_samples(rows).drop_first() =~= per_row_samples(rows.drop_first()));
        assert(per_row_samples(rows).first() == samples_of(rows.first()));
        assert(per_row_samples(rows).flatten() == samples_of(rows.first()) + samples_of(
            rows.drop_first().flatten(),
        ));
        lemma_samples_of_concat(rows.first(), rows.drop_first().flatten());
        assert(rows.flatten() == rows.first() + rows.drop_first().flatten());
    }
}

} // verus!
