//! Output modes of the REV 11-1105 LED driver, with their codes and the
//! conversions of a code into duty-cycle values.
//!
//! The library holds the colour table and the arithmetic on it; driving a PWM
//! output is left to the caller.
mod duty;
mod pattern;

pub use duty::{lemma_duty_scales_abs_percentage, DutyValue};
pub use pattern::{
    lemma_abs_percentage_rescales_percentage, lemma_code_identifies_pattern, lemma_code_in_range,
    lemma_code_injective, lemma_percentages_in_range, pattern_of_code, Pattern,
};
