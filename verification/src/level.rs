//! Qualitative classification of a weight reading.
//!
//! A configured range `{min, max}` of weights (grams) is split into three
//! bands by a fixed-fraction padding rule: one fifth of the range width is
//! reserved at each end for the HIGH and LOW bands.

use vstd::prelude::*;

verus! {

/// Qualitative band of a weight reading. Every weight maps to exactly one
/// band; there is no "unknown" variant.
#[derive(Clone, Copy, PartialEq, Eq, Structural, Debug)]
pub enum CoffeeLevel {
    HIGH,
    NORMAL,
    LOW,
}

/// Configured weight range in grams, supplied once at startup and shared
/// read-only by the classifier and the presentation side.
#[derive(Clone, Copy, PartialEq, Eq, Structural, Debug)]
pub struct LevelConfig {
    pub min: u32,
    pub max: u32,
}

impl LevelConfig {
    /// The range must be non-empty for the padding rule to make sense.
    pub open spec fn wf(self) -> bool {
        self.min < self.max
    }
}

/// One fifth of the range width, the padding reserved for the outer bands.
pub open spec fn padding_of(config: LevelConfig) -> int {
    (config.max - config.min) / 5
}

/// The band a weight falls into: above `max - padding` is HIGH, below
/// `min + padding` is LOW, everything in between is NORMAL. When the range
/// is so narrow that the two thresholds cross, NORMAL can be unreachable;
/// that is accepted behaviour, not corrected here.
pub open spec fn level_of(weight: u32, config: LevelConfig) -> CoffeeLevel {
    if weight > config.max - padding_of(config) {
        CoffeeLevel::HIGH
    } else if weight < config.min + padding_of(config) {
        CoffeeLevel::LOW
    } else {
        CoffeeLevel::NORMAL
    }
}

/// Classify a weight against the configured range. Total over all `u32`
/// weights, including those below `min` or above `max`.
pub fn select_level(weight: u32, config: &LevelConfig) -> (level: CoffeeLevel)
    requires
        config.wf(),
    ensures
        level == level_of(weight, *config),
{
    let padding = (config.max - config.min) / 5;
    if weight > config.max - padding {
        CoffeeLevel::HIGH
    } else if weight < config.min + padding {
        CoffeeLevel::LOW
    } else {
        CoffeeLevel::NORMAL
    }
}

/// With padding a fifth of the range width, the two band thresholds never
/// cross: the NORMAL band keeps at least the middle of the range, for
/// every non-empty configuration.
pub proof fn lemma_bands_do_not_cross(config: LevelConfig)
    requires
        config.wf(),
    ensures
        config.min + padding_of(config) <= config.max - padding_of(config),
{
    let span = config.max - config.min;
    vstd::arithmetic::div_mod::lemma_fundamental_div_mod(span as int, 5);
}

/// The fill percentage shown beside the band: the weight clamped into the
/// configured range, rescaled to 0..=100.
pub open spec fn percent_of(weight: u32, config: LevelConfig) -> int {
    let clamped = if weight < config.min {
        config.min as int
    } else if weight > config.max {
        config.max as int
    } else {
        weight as int
    };
    100 * (clamped - config.min) / (config.max - config.min)
}

/// Compute the display percentage for a weight. Always lands in 0..=100.
pub fn level_percent(weight: u32, config: &LevelConfig) -> (percent: u32)
    requires
        config.wf(),
    ensures
        percent == percent_of(weight, *config),
        percent <= 100,
{
    let clamped = if weight < config.min {
        config.min
    } else if weight > config.max {
        config.max
    } else {
        weight
    };
    let span = (config.max - config.min) as u64;
    let offset = (clamped - config.min) as u64;
    let ratio = (100 * offset) / span;
    proof {
        vstd::arithmetic::div_mod::lemma_div_is_ordered(
            100 * offset as int,
            100 * span as int,
            span as int,
        );
        vstd::arithmetic::div_mod::lemma_div_by_multiple(100int, span as int);
    }
    ratio as u32
}

} // verus!
