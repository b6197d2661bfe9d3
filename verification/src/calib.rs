//! Per-module calibration of raw soil-moisture readings.
//!
//! A module's calibration keeps the extreme raw values observed so far (the
//! wet and dry reference bounds, in microvolts). The bounds only ever widen:
//! the wet bound only decreases and the dry bound only increases. A raw
//! reading is normalized against them into a moisture fraction, in parts per
//! million of full wetness.

use vstd::prelude::*;

verus! {

/// Moisture fractions are fixed point: this many parts stand for 1.0.
pub const MOISTURE_SCALE: u64 = 1_000_000;

/// Upper bound on any raw reading, in microvolts.
pub const MAX_RAW: u64 = 1_000_000_000_000;

/// Observed extreme raw values of one module's moisture signal.
#[derive(Clone, Copy, Debug, PartialEq, Eq, Structural)]
pub struct CalibrationBounds {
    /// Lowest raw value seen: the signal when fully wet, in microvolts.
    pub wet: u64,
    /// Highest raw value seen: the signal when fully dry, in microvolts.
    pub dry: u64,
}

impl CalibrationBounds {
    /// The bounds are ordered and within the raw range.
    pub open spec fn wf(self) -> bool {
        self.wet <= self.dry <= MAX_RAW
    }

    /// The bounds after one more observation: widened just enough to
    /// contain `raw`.
    pub open spec fn widened(self, raw: u64) -> CalibrationBounds {
        CalibrationBounds {
            wet: if raw < self.wet { raw } else { self.wet },
            dry: if raw > self.dry { raw } else { self.dry },
        }
    }

    /// The bounds after a whole sequence of observations, oldest first.
    pub open spec fn widened_all(self, raws: Seq<u64>) -> CalibrationBounds
        decreases raws.len(),
    {
        if raws.len() == 0 {
            self
        } else {
            self.widened_all(raws.drop_last()).widened(raws.last())
        }
    }

    /// The moisture fraction of `raw` under these bounds, in parts per
    /// million: 1 - (raw - wet) / (dry - wet). With equal bounds the signal
    /// carries no range yet and the reading counts as fully wet.
    pub open spec fn moisture_ppm(self, raw: u64) -> int {
        if self.dry <= self.wet {
            MOISTURE_SCALE as int
        } else {
            MOISTURE_SCALE - ((raw - self.wet) * MOISTURE_SCALE) / (self.dry - self.wet)
        }
    }

    /// Initial bounds, both at the first reference value.
    pub fn new(initial: u64) -> (r: CalibrationBounds)
        requires
            initial <= MAX_RAW,
        ensures
            r.wf(),
            r.wet == initial,
            r.dry == initial,
    {
        CalibrationBounds { wet: initial, dry: initial }
    }

    /// Widen the bounds by one raw observation. The bounds never narrow.
    pub fn observe(&mut self, raw: u64)
        requires
            old(self).wf(),
            raw <= MAX_RAW,
        ensures
            *final(self) == old(self).widened(raw),
            final(self).wf(),
            final(self).wet <= old(self).wet,
            final(self).dry >= old(self).dry,
            final(self).wet <= raw <= final(self).dry,
    {
        if raw < self.wet {
            self.wet = raw;
        }
        if raw > self.dry {
            self.dry = raw;
        }
    }

    /// Widen the bounds by a run of raw observations, oldest first.
    pub fn observe_all(&mut self, raws: &Vec<u64>)
        requires
            old(self).wf(),
            forall|i: int| 0 <= i < raws@.len() ==> #[trigger] raws@[i] <= MAX_RAW,
        ensures
            *final(self) == old(self).widened_all(raws@),
            final(self).wf(),
            final(self).wet <= old(self).wet,
            final(self).dry >= old(self).dry,
    {
        let n = raws.len();
        let mut k: usize = 0;
        while k < n
            invariant
                k <= n,
                n == raws@.len(),
                forall|i: int| 0 <= i < raws@.len() ==> #[trigger] raws@[i] <= MAX_RAW,
                *self == old(self).widened_all(raws@.take(k as int)),
                self.wf(),
                self.wet <= old(self).wet,
                self.dry >= old(self).dry,
            decreases n - k,
        {
            proof {
                assert(raws@.take(k + 1).drop_last() =~= raws@.take(k as int));
                assert(raws@.take(k + 1).last() == raws@[k as int]);
            }
            self.observe(raws[k]);
            k = k + 1;
        }
        proof {
            assert(raws@.take(n as int) =~= raws@);
        }
    }

    /// Normalize a raw reading into a moisture fraction. The caller widens
    /// the bounds first, so the reading lies between them and the fraction
    /// lies in [0, 1].
    pub fn moisture(&self, raw: u64) -> (m: u64)
        requires
            self.wf(),
            self.wet <= raw <= self.dry,
        ensures
            m == self.moisture_ppm(raw),
            m <= MOISTURE_SCALE,
    {
        if self.dry <= self.wet {
            MOISTURE_SCALE
        } else {
            let span = self.dry - self.wet;
            let offset = raw - self.wet;
            assert(offset * MOISTURE_SCALE <= span * MOISTURE_SCALE) by (nonlinear_arith)
                requires
                    offset <= span,
            ;
            assert(span * MOISTURE_SCALE <= MAX_RAW * MOISTURE_SCALE) by (nonlinear_arith)
                requires
                    span <= MAX_RAW,
            ;
            let dried = offset * MOISTURE_SCALE / span;
            assert(dried as int <= MOISTURE_SCALE as int) by (nonlinear_arith)
                requires
                    dried as int == (offset as int * MOISTURE_SCALE as int) / span as int,
                    offset as int * MOISTURE_SCALE as int <= span as int * MOISTURE_SCALE as int,
                    span > 0,
            ;
            MOISTURE_SCALE - dried
        }
    }
}

/// Calibration widening is monotonic: over any run of observations the wet
/// bound only ever decreases and the dry bound only ever increases, and the
/// result contains every observation.
pub proof fn lemma_calibration_monotonic(c: CalibrationBounds, raws: Seq<u64>)
    ensures
        c.widened_all(raws).wet <= c.wet,
        c.widened_all(raws).dry >= c.dry,
        forall|i: int| 0 <= i < raws.len()
            ==> c.widened_all(raws).wet <= #[trigger] raws[i] <= c.widened_all(raws).dry,
    decreases raws.len(),
{
    if raws.len() > 0 {
        lemma_calibration_monotonic(c, raws.drop_last());
        assert forall|i: int| 0 <= i < raws.len() implies c.widened_all(raws).wet
            <= #[trigger] raws[i] <= c.widened_all(raws).dry by {
            if i < raws.len() - 1 {
                assert(raws.drop_last()[i] == raws[i]);
            }
        }
    }
}

} // verus!
