//! The height field: one bounded, fixed-point elevation sample per lattice
//! vertex.
//!
//! Sampling itself (a seeded noise function over
//! `[-sample_extent, sample_extent]^2`) is the injected capability of the
//! caller; it hands the finished samples over as plain integers in a
//! caller-chosen fixed-point unit, and this module checks that the delivery
//! is complete and in range before the mesh builder consumes it.

use vstd::prelude::*;

use crate::grid::GridError;
use crate::grid::GridSpec;
use crate::grid::lattice_to_index;
use crate::grid::lemma_lattice_to_index_bound;
use crate::grid::spec_lattice_to_index;

verus! {

/// Largest elevation-sample magnitude the mesh builder supports.  A machine
/// limit: it keeps every position and normal numerator inside `i64`.  A noise
/// source bounded in `[-1, 1]` scaled by up to a million fits comfortably.
pub const SAMPLE_LIMIT: i64 = 0x10_0000;

/// Do all samples lie within the supported fixed-point range?
pub open spec fn samples_in_range(s: Seq<i64>) -> bool {
    forall|k: int| 0 <= k < s.len() ==> -SAMPLE_LIMIT <= #[trigger] s[k] <= SAMPLE_LIMIT
}

/// A dense row-major grid of `(width + 1) * (depth + 1)` elevation samples,
/// one per lattice vertex, indexed by `(col, row)` with `0 <= col <= width`
/// and `0 <= row <= depth`.
pub struct HeightField {
    pub width: u32,
    pub depth: u32,
    pub samples: Vec<i64>,
}

impl HeightField {
    /// Well-formedness: a valid grid, index arithmetic in range, one bounded
    /// sample per lattice vertex.
    pub open spec fn wf(self) -> bool {
        &&& self.grid().valid()
        &&& self.grid().counts_in_range()
        &&& self.samples@.len() == self.grid().spec_vertex_count()
        &&& samples_in_range(self.samples@)
    }

    /// The resolution this field was sampled at.
    pub open spec fn grid(self) -> GridSpec {
        GridSpec { width: self.width, depth: self.depth }
    }

    /// The elevation stored for lattice point `(col, row)`.
    pub open spec fn sample_at(self, col: int, row: int) -> int {
        self.samples@[spec_lattice_to_index(col, row, self.width as int)] as int
    }

    /// Every lattice point holds the same elevation.
    pub open spec fn is_constant(self, level: int) -> bool {
        forall|col: int, row: int|
            0 <= col <= self.width && 0 <= row <= self.depth
                ==> #[trigger] self.sample_at(col, row) == level
    }

    /// Accept a finished delivery of elevation samples for `spec`.
    ///
    /// Succeeds exactly when the grid is valid and the sampling capability
    /// delivered one in-range sample per lattice vertex; an invalid grid is
    /// `InvalidGridSpec`, a short, long or out-of-range delivery is
    /// `NoiseSamplingFailure`.
    pub fn from_samples(spec: &GridSpec, samples: Vec<i64>) -> (result: Result<
        HeightField,
        GridError,
    >)
        requires
            spec.counts_in_range(),
        ensures
            result is Ok <==> (spec.valid() && samples@.len() == spec.spec_vertex_count()
                && samples_in_range(samples@)),
            match result {
                Ok(field) => {
                    &&& field.width == spec.width
                    &&& field.depth == spec.depth
                    &&& field.samples == samples
                    &&& field.wf()
                },
                Err(e) => {
                    &&& (e == GridError::InvalidGridSpec <==> !spec.valid())
                    &&& (e == GridError::NoiseSamplingFailure ==> spec.valid())
                },
            },
    {
        if spec.width == 0 || spec.depth == 0 {
            return Err(GridError::InvalidGridSpec);
        }
        let expected = spec.vertex_count();
        if samples.len() != expected {
            return Err(GridError::NoiseSamplingFailure);
        }
        let mut k: usize = 0;
        while k < samples.len()
            invariant
                spec.valid(),
                k <= samples@.len(),
                forall|j: int| 0 <= j < k ==> -SAMPLE_LIMIT <= #[trigger] samples@[j]
                    <= SAMPLE_LIMIT,
            decreases samples@.len() - k,
        {
            let v = samples[k];
            if v > SAMPLE_LIMIT || v < -SAMPLE_LIMIT {
                return Err(GridError::NoiseSamplingFailure);
            }
            k = k + 1;
        }
        Ok(HeightField { width: spec.width, depth: spec.depth, samples })
    }

    /// A flat field: the same elevation at every lattice point.
    ///
    /// Succeeds exactly when the grid is valid and the level is in range.
    pub fn constant(spec: &GridSpec, level: i64) -> (result: Result<HeightField, GridError>)
        requires
            spec.counts_in_range(),
        ensures
            result is Ok <==> (spec.valid() && -SAMPLE_LIMIT <= level <= SAMPLE_LIMIT),
            match result {
                Ok(field) => {
                    &&& field.width == spec.width
                    &&& field.depth == spec.depth
                    &&& field.wf()
                    &&& field.is_constant(level as int)
                },
                Err(e) => {
                    &&& (e == GridError::InvalidGridSpec <==> !spec.valid())
                    &&& (e == GridError::NoiseSamplingFailure ==> spec.valid())
                },
            },
    {
        if spec.width == 0 || spec.depth == 0 {
            return Err(GridError::InvalidGridSpec);
        }
        if level > SAMPLE_LIMIT || level < -SAMPLE_LIMIT {
            return Err(GridError::NoiseSamplingFailure);
        }
        let n = spec.vertex_count();
        let mut samples: Vec<i64> = Vec::new();
        while samples.len() < n
            invariant
                samples@.len() <= n,
                forall|j: int| 0 <= j < samples@.len() ==> #[trigger] samples@[j] == level,
            decreases n - samples@.len(),
        {
            samples.push(level);
        }
        let field = HeightField { width: spec.width, depth: spec.depth, samples };
        proof {
            assert forall|col: int, row: int|
                0 <= col <= field.width && 0 <= row <= field.depth implies #[trigger] field
                .sample_at(col, row) == level by {
                lemma_lattice_to_index_bound(col, row, field.width as int, field.depth as int);
            }
        }
        Ok(field)
    }

    /// Read the elevation at lattice point `(col, row)`.
    pub fn sample(&self, col: u32, row: u32) -> (s: i64)
        requires
            self.wf(),
            col <= self.width,
            row <= self.depth,
        ensures
            s == self.sample_at(col as int, row as int),
            -SAMPLE_LIMIT <= s <= SAMPLE_LIMIT,
    {
        proof {
            lemma_lattice_to_index_bound(col as int, row as int, self.width as int,
                self.depth as int);
        }
        let i = lattice_to_index(col, row, self.width);
        self.samples[i as usize]
    }
}

} // verus!
