use vstd::prelude::*;

verus! {

/// Threshold values are fixed point: this many units make one intensity step.
pub const UNITS_PER_STEP: i64 = 1000;

/// Factory value of the lower hysteresis bound (30 steps).
pub const DEFAULT_LOW: i64 = 30000;

/// Factory value of the upper hysteresis bound (40 steps).
pub const DEFAULT_HIGH: i64 = 40000;

/// Which of the two hysteresis bounds an adjustment acts on.
#[derive(Clone, Copy, Debug, PartialEq, Eq, Structural)]
pub enum ThresholdField {
    Low,
    High,
}

/// The two bounds of the edge detector, in thousandths of an intensity step.
/// No order is kept between them: `low > high` and negative values are
/// ordinary states.
#[derive(Clone, Copy, Debug, PartialEq, Eq, Structural)]
pub struct ThresholdParams {
    pub low: i64,
    pub high: i64,
}

/// One step up; the range of `i64` is the only limit.
pub open spec fn stepped_up(v: i64) -> i64 {
    if v <= i64::MAX - UNITS_PER_STEP {
        (v + UNITS_PER_STEP) as i64
    } else {
        i64::MAX
    }
}

/// One step down; the range of `i64` is the only limit.
pub open spec fn stepped_down(v: i64) -> i64 {
    if v >= i64::MIN + UNITS_PER_STEP {
        (v - UNITS_PER_STEP) as i64
    } else {
        i64::MIN
    }
}

pub open spec fn factory_thresholds() -> ThresholdParams {
    ThresholdParams { low: DEFAULT_LOW, high: DEFAULT_HIGH }
}

impl ThresholdParams {
    /// The bound that `field` names.
    pub open spec fn get(self, field: ThresholdField) -> i64 {
        match field {
            ThresholdField::Low => self.low,
            ThresholdField::High => self.high,
        }
    }

    /// `self` with the bound that `field` names replaced by `v`.
    pub open spec fn with(self, field: ThresholdField, v: i64) -> ThresholdParams {
        match field {
            ThresholdField::Low => ThresholdParams { low: v, ..self },
            ThresholdField::High => ThresholdParams { high: v, ..self },
        }
    }

    /// The compiled-in factory values.
    pub fn defaults() -> (r: ThresholdParams)
        ensures
            r == factory_thresholds(),
    {
        ThresholdParams { low: DEFAULT_LOW, high: DEFAULT_HIGH }
    }

    /// The bound that `field` names.
    pub fn value(&self, field: ThresholdField) -> (r: i64)
        ensures
            r == self.get(field),
    {
        match field {
            ThresholdField::Low => self.low,
            ThresholdField::High => self.high,
        }
    }

    /// Raises one bound by a step, leaving the other as it was.
    pub fn increase(&mut self, field: ThresholdField)
        ensures
            *final(self) == old(self).with(field, stepped_up(old(self).get(field))),
    {
        match field {
            ThresholdField::Low => {
                self.low = if self.low <= i64::MAX - UNITS_PER_STEP {
                    self.low + UNITS_PER_STEP
                } else {
                    i64::MAX
                };
            },
            ThresholdField::High => {
                self.high = if self.high <= i64::MAX - UNITS_PER_STEP {
                    self.high + UNITS_PER_STEP
                } else {
                    i64::MAX
                };
            },
        }
    }

    /// Lowers one bound by a step, leaving the other as it was.
    pub fn decrease(&mut self, field: ThresholdField)
        ensures
            *final(self) == old(self).with(field, stepped_down(old(self).get(field))),
    {
        match field {
            ThresholdField::Low => {
                self.low = if self.low >= i64::MIN + UNITS_PER_STEP {
                    self.low - UNITS_PER_STEP
                } else {
                    i64::MIN
                };
            },
            ThresholdField::High => {
                self.high = if self.high >= i64::MIN + UNITS_PER_STEP {
                    self.high - UNITS_PER_STEP
                } else {
                    i64::MIN
                };
            },
        }
    }

    /// Restores both bounds to the factory values, whatever they were.
    pub fn reset_to_defaults(&mut self)
        ensures
            *final(self) == factory_thresholds(),
    {
        self.low = DEFAULT_LOW;
        self.high = DEFAULT_HIGH;
    }
}

} // verus!
