//! The five weighted sub-scores: compliance, dynamics, spectrum,
//! authenticity and integrity. All are in millionths of a point.

use vstd::prelude::*;
use crate::analyzer::codec::{is_lossless, is_lossy, lossless, lossy};
use crate::analyzer::metrics::{FileMetrics, MetricsView};
use crate::analyzer::profile::ProfileConfig;
use crate::analyzer::reading::{lemma_map_score_range, map_score, map_to_score, Reading, UNIT};
use crate::analyzer::scoring::QualityScorer;

verus! {

/// The absolute value.
pub open spec fn abs_int(x: int) -> int {
    if x < 0 {
        -x
    } else {
        x
    }
}

/// The larger of two.
pub open spec fn max_int(a: int, b: int) -> int {
    if a >= b {
        a
    } else {
        b
    }
}

/// The smaller of two.
pub open spec fn min_int(a: int, b: int) -> int {
    if a <= b {
        a
    } else {
        b
    }
}

/// How many of the four critical measurements are absent: the energy above
/// 18 kHz, the loudness range, the integrated loudness, and the peak (true
/// peak or, failing that, sample peak).
pub open spec fn missing_critical_fields(m: MetricsView) -> int {
    (if m.rms_db_above_18k is None { 1int } else { 0 })
    + (if m.lra is None { 1int } else { 0 })
    + (if m.integrated_loudness_lufs is None { 1int } else { 0 })
    + (if m.true_peak_dbtp is None && m.peak_amplitude_db is None { 1int } else { 0 })
}

/// Up to 20 points for integrated loudness close to the target.
pub open spec fn loudness_points(cfg: ProfileConfig, m: MetricsView) -> int {
    match m.integrated_loudness_lufs {
        Some(Reading::Finite(v)) => {
            let delta = abs_int(v - cfg.target_lufs);
            if delta <= UNIT {
                20 * UNIT
            } else if delta <= 3 * UNIT {
                map_score(delta, 1 * UNIT, 3 * UNIT, 20 * UNIT, 12 * UNIT)
            } else if delta <= 6 * UNIT {
                map_score(delta, 3 * UNIT, 6 * UNIT, 12 * UNIT, 2 * UNIT)
            } else {
                0
            }
        },
        _ => 0,
    }
}

/// Up to 15 points for true-peak headroom, or up to 8 for sample-peak
/// headroom where no true peak was measured.
pub open spec fn headroom_points(cfg: ProfileConfig, m: MetricsView) -> int {
    match m.true_peak_dbtp {
        Some(tp) => {
            if !tp.above(cfg.true_peak_warn as int) {
                15 * UNIT
            } else if !tp.above(cfg.true_peak_critical as int) {
                tp.mapped(
                    cfg.true_peak_warn as int,
                    cfg.true_peak_critical as int,
                    15 * UNIT,
                    4 * UNIT,
                )
            } else {
                0
            }
        },
        None => match m.peak_amplitude_db {
            Some(peak) => {
                if !peak.above(-UNIT) {
                    8 * UNIT
                } else if !peak.above(0) {
                    peak.mapped(-UNIT, 0, 8 * UNIT, 2 * UNIT)
                } else {
                    0
                }
            },
            None => 0,
        },
    }
}

/// Compliance, at most 35 points: loudness proximity plus peak headroom.
pub open spec fn compliance_score(cfg: ProfileConfig, m: MetricsView) -> int {
    loudness_points(cfg, m) + headroom_points(cfg, m)
}

/// Dynamics, at most 20 points: full credit inside the excellent band of the
/// loudness range, tapering linearly on both sides.
pub open spec fn dynamics_score(cfg: ProfileConfig, m: MetricsView) -> int {
    match m.lra {
        None => 0,
        Some(lra) => {
            if lra.within(cfg.lra_excellent_min as int, cfg.lra_excellent_max as int) {
                20 * UNIT
            } else if !lra.below(cfg.lra_low_max as int) && lra.below(cfg.lra_excellent_min as int) {
                lra.mapped(cfg.lra_low_max as int, cfg.lra_excellent_min as int, 12 * UNIT, 19 * UNIT)
            } else if lra.above(cfg.lra_excellent_max as int) && !lra.above(
                cfg.lra_acceptable_max as int,
            ) {
                lra.mapped(
                    cfg.lra_excellent_max as int,
                    cfg.lra_acceptable_max as int,
                    19 * UNIT,
                    13 * UNIT,
                )
            } else if !lra.below(cfg.lra_poor_max as int) && lra.below(cfg.lra_low_max as int) {
                lra.mapped(cfg.lra_poor_max as int, cfg.lra_low_max as int, 5 * UNIT, 12 * UNIT)
            } else if lra.above(cfg.lra_too_high as int) {
                10 * UNIT
            } else {
                lra.mapped(0, cfg.lra_poor_max as int, 0, 5 * UNIT)
            }
        },
    }
}

/// Up to 15 points for the energy above 16 kHz.
pub open spec fn band_16k_points(m: MetricsView) -> int {
    match m.rms_db_above_16k {
        Some(v) => v.mapped(-95 * UNIT, -55 * UNIT, 0, 15 * UNIT),
        None => 0,
    }
}

/// Up to 10 points for the energy above 18 kHz.
pub open spec fn band_18k_points(cfg: ProfileConfig, m: MetricsView) -> int {
    match m.rms_db_above_18k {
        Some(v) => {
            if !v.below(cfg.spectrum_good_threshold as int) {
                10 * UNIT
            } else if !v.below(cfg.spectrum_processed_threshold as int) {
                v.mapped(
                    cfg.spectrum_processed_threshold as int,
                    cfg.spectrum_good_threshold as int,
                    6 * UNIT,
                    10 * UNIT,
                )
            } else if !v.below(cfg.spectrum_fake_threshold as int) {
                v.mapped(
                    cfg.spectrum_fake_threshold as int,
                    cfg.spectrum_processed_threshold as int,
                    2 * UNIT,
                    6 * UNIT,
                )
            } else {
                0
            }
        },
        None => 0,
    }
}

/// Spectrum, at most 25 points.
pub open spec fn spectrum_score(cfg: ProfileConfig, m: MetricsView) -> int {
    band_16k_points(m) + band_18k_points(cfg, m)
}

/// The energy above 18 kHz was measured and lies below `threshold`.
pub open spec fn high_band_below(m: MetricsView, threshold: int) -> bool {
    m.rms_db_above_18k matches Some(v) && v.below(threshold)
}

/// Authenticity, at most 10 points: nothing for a lossless file whose high
/// band is below the fake threshold, 4 for a high band below the processed
/// threshold, and 2 less for a lossy file at a high bitrate with such a band.
pub open spec fn authenticity_score(cfg: ProfileConfig, m: MetricsView) -> int {
    let base = if lossless(m) && high_band_below(m, cfg.spectrum_fake_threshold as int) {
        0
    } else if high_band_below(m, cfg.spectrum_processed_threshold as int) {
        4 * UNIT
    } else {
        10 * UNIT
    };
    let transcoded = lossy(m) && (m.bitrate_kbps matches Some(b) && b >= cfg.bitrate_high_kbps)
        && high_band_below(m, cfg.spectrum_processed_threshold as int);
    max_int(if transcoded { base - 2 * UNIT } else { base }, 0)
}

/// Integrity, at most 10 points: 3 off for each missing critical field and
/// 1 off for each error code, up to 2.
pub open spec fn integrity_score(m: MetricsView) -> int {
    let base = max_int(10 * UNIT - missing_critical_fields(m) * 3 * UNIT, 0);
    if m.error_codes.len() > 0 {
        max_int(base - min_int(2, m.error_codes.len() as int) * UNIT, 0)
    } else {
        base
    }
}

/// Each sub-score stays within its weight.
pub proof fn lemma_subscore_bounds(cfg: ProfileConfig, m: MetricsView)
    requires
        cfg.ordered(),
    ensures
        0 <= compliance_score(cfg, m) <= 35 * UNIT,
        0 <= dynamics_score(cfg, m) <= 20 * UNIT,
        0 <= spectrum_score(cfg, m) <= 25 * UNIT,
        0 <= authenticity_score(cfg, m) <= 10 * UNIT,
        0 <= integrity_score(m) <= 10 * UNIT,
{
    match m.integrated_loudness_lufs {
        Some(Reading::Finite(v)) => {
            let delta = abs_int(v - cfg.target_lufs);
            lemma_map_score_range(delta, 1 * UNIT, 3 * UNIT, 20 * UNIT, 12 * UNIT);
            lemma_map_score_range(delta, 3 * UNIT, 6 * UNIT, 12 * UNIT, 2 * UNIT);
        },
        _ => {},
    }
    match m.true_peak_dbtp {
        Some(tp) => {
            lemma_map_score_range(
                tp.clamped(cfg.true_peak_warn as int, cfg.true_peak_critical as int),
                cfg.true_peak_warn as int,
                cfg.true_peak_critical as int,
                15 * UNIT,
                4 * UNIT,
            );
        },
        None => match m.peak_amplitude_db {
            Some(peak) => {
                lemma_map_score_range(peak.clamped(-UNIT, 0), -UNIT, 0, 8 * UNIT, 2 * UNIT);
            },
            None => {},
        },
    }
    match m.lra {
        Some(lra) => {
            lemma_map_score_range(
                lra.clamped(cfg.lra_low_max as int, cfg.lra_excellent_min as int),
                cfg.lra_low_max as int,
                cfg.lra_excellent_min as int,
                12 * UNIT,
                19 * UNIT,
            );
            lemma_map_score_range(
                lra.clamped(cfg.lra_excellent_max as int, cfg.lra_acceptable_max as int),
                cfg.lra_excellent_max as int,
                cfg.lra_acceptable_max as int,
                19 * UNIT,
                13 * UNIT,
            );
            lemma_map_score_range(
                lra.clamped(cfg.lra_poor_max as int, cfg.lra_low_max as int),
                cfg.lra_poor_max as int,
                cfg.lra_low_max as int,
                5 * UNIT,
                12 * UNIT,
            );
            lemma_map_score_range(
                lra.clamped(0, cfg.lra_poor_max as int),
                0,
                cfg.lra_poor_max as int,
                0,
                5 * UNIT,
            );
        },
        None => {},
    }
    match m.rms_db_above_16k {
        Some(v) => {
            lemma_map_score_range(
                v.clamped(-95 * UNIT, -55 * UNIT),
                -95 * UNIT,
                -55 * UNIT,
                0,
                15 * UNIT,
            );
        },
        None => {},
    }
    match m.rms_db_above_18k {
        Some(v) => {
            lemma_map_score_range(
                v.clamped(
                    cfg.spectrum_processed_threshold as int,
                    cfg.spectrum_good_threshold as int,
                ),
                cfg.spectrum_processed_threshold as int,
                cfg.spectrum_good_threshold as int,
                6 * UNIT,
                10 * UNIT,
            );
            lemma_map_score_range(
                v.clamped(
                    cfg.spectrum_fake_threshold as int,
                    cfg.spectrum_processed_threshold as int,
                ),
                cfg.spectrum_fake_threshold as int,
                cfg.spectrum_processed_threshold as int,
                2 * UNIT,
                6 * UNIT,
            );
        },
        None => {},
    }
}

impl QualityScorer {
    /// How many of the four critical measurements are absent.
    pub fn count_missing_critical_fields(&self, metrics: &FileMetrics) -> (missing: i32)
        ensures
            missing == missing_critical_fields(metrics@),
            0 <= missing <= 4,
    {
        let mut missing: i32 = 0;
        if metrics.rms_db_above_18k.is_none() {
            missing = missing + 1;
        }
        if metrics.lra.is_none() {
            missing = missing + 1;
        }
        if metrics.integrated_loudness_lufs.is_none() {
            missing = missing + 1;
        }
        if metrics.true_peak_dbtp.is_none() && metrics.peak_amplitude_db.is_none() {
            missing = missing + 1;
        }
        missing
    }

    /// The compliance sub-score, in millionths of a point.
    pub fn calculate_compliance_score(&self, metrics: &FileMetrics) -> (score: i64)
        ensures
            score == compliance_score(self.thresholds(), metrics@),
            0 <= score <= 35 * UNIT,
    {
        let cfg = self.config();
        proof {
            lemma_subscore_bounds(cfg, metrics@);
        }
        let loudness_score: i64 = match metrics.integrated_loudness_lufs {
            Some(Reading::Finite(v)) => {
                let signed: i128 = v as i128 - cfg.target_lufs as i128;
                let delta: i128 = if signed < 0 {
                    -signed
                } else {
                    signed
                };
                if delta <= UNIT as i128 {
                    20 * UNIT
                } else if delta <= 3 * UNIT as i128 {
                    map_to_score(delta as i64, 1 * UNIT, 3 * UNIT, 20 * UNIT, 12 * UNIT)
                } else if delta <= 6 * UNIT as i128 {
                    map_to_score(delta as i64, 3 * UNIT, 6 * UNIT, 12 * UNIT, 2 * UNIT)
                } else {
                    0
                }
            },
            _ => 0,
        };
        let peak_score: i64 = match metrics.true_peak_dbtp {
            Some(tp) => {
                if !tp.is_above(cfg.true_peak_warn) {
                    15 * UNIT
                } else if !tp.is_above(cfg.true_peak_critical) {
                    tp.map_to(cfg.true_peak_warn, cfg.true_peak_critical, 15 * UNIT, 4 * UNIT)
                } else {
                    0
                }
            },
            None => match metrics.peak_amplitude_db {
                Some(peak) => {
                    if !peak.is_above(-UNIT) {
                        8 * UNIT
                    } else if !peak.is_above(0) {
                        peak.map_to(-UNIT, 0, 8 * UNIT, 2 * UNIT)
                    } else {
                        0
                    }
                },
                None => 0,
            },
        };
        loudness_score + peak_score
    }

    /// The dynamics sub-score, in millionths of a point.
    pub fn calculate_dynamics_score(&self, metrics: &FileMetrics) -> (score: i64)
        ensures
            score == dynamics_score(self.thresholds(), metrics@),
            0 <= score <= 20 * UNIT,
    {
        let cfg = self.config();
        proof {
            lemma_subscore_bounds(cfg, metrics@);
        }
        let lra = match metrics.lra {
            Some(lra) => lra,
            None => {
                return 0;
            },
        };
        if lra.is_within(cfg.lra_excellent_min, cfg.lra_excellent_max) {
            return 20 * UNIT;
        }
        if !lra.is_below(cfg.lra_low_max) && lra.is_below(cfg.lra_excellent_min) {
            return lra.map_to(cfg.lra_low_max, cfg.lra_excellent_min, 12 * UNIT, 19 * UNIT);
        }
        if lra.is_above(cfg.lra_excellent_max) && !lra.is_above(cfg.lra_acceptable_max) {
            return lra.map_to(cfg.lra_excellent_max, cfg.lra_acceptable_max, 19 * UNIT, 13 * UNIT);
        }
        if !lra.is_below(cfg.lra_poor_max) && lra.is_below(cfg.lra_low_max) {
            return lra.map_to(cfg.lra_poor_max, cfg.lra_low_max, 5 * UNIT, 12 * UNIT);
        }
        if lra.is_above(cfg.lra_too_high) {
            return 10 * UNIT;
        }
        lra.map_to(0, cfg.lra_poor_max, 0, 5 * UNIT)
    }

    /// The spectrum sub-score, in millionths of a point.
    pub fn calculate_spectrum_score(&self, metrics: &FileMetrics) -> (score: i64)
        ensures
            score == spectrum_score(self.thresholds(), metrics@),
            0 <= score <= 25 * UNIT,
    {
        let cfg = self.config();
        proof {
            lemma_subscore_bounds(cfg, metrics@);
        }
        let score_16k: i64 = match metrics.rms_db_above_16k {
            Some(v) => v.map_to(-95 * UNIT, -55 * UNIT, 0, 15 * UNIT),
            None => 0,
        };
        let score_18k: i64 = match metrics.rms_db_above_18k {
            Some(v) => {
                if !v.is_below(cfg.spectrum_good_threshold) {
                    10 * UNIT
                } else if !v.is_below(cfg.spectrum_processed_threshold) {
                    v.map_to(
                        cfg.spectrum_processed_threshold,
                        cfg.spectrum_good_threshold,
                        6 * UNIT,
                        10 * UNIT,
                    )
                } else if !v.is_below(cfg.spectrum_fake_threshold) {
                    v.map_to(
                        cfg.spectrum_fake_threshold,
                        cfg.spectrum_processed_threshold,
                        2 * UNIT,
                        6 * UNIT,
                    )
                } else {
                    0
                }
            },
            None => 0,
        };
        score_16k + score_18k
    }

    /// Whether the energy above 18 kHz was measured and lies below `threshold`.
    pub fn high_band_is_below(metrics: &FileMetrics, threshold: i64) -> (b: bool)
        ensures
            b == high_band_below(metrics@, threshold as int),
    {
        match metrics.rms_db_above_18k {
            Some(v) => v.is_below(threshold),
            None => false,
        }
    }

    /// The authenticity sub-score, in millionths of a point.
    pub fn calculate_authenticity_score(&self, metrics: &FileMetrics) -> (score: i64)
        ensures
            score == authenticity_score(self.thresholds(), metrics@),
            0 <= score <= 10 * UNIT,
    {
        let cfg = self.config();
        let mut score: i64 = 10 * UNIT;
        if is_lossless(metrics) && Self::high_band_is_below(metrics, cfg.spectrum_fake_threshold) {
            score = 0;
        } else if Self::high_band_is_below(metrics, cfg.spectrum_processed_threshold) {
            score = 4 * UNIT;
        }
        let high_bitrate = match metrics.bitrate_kbps {
            Some(b) => b >= cfg.bitrate_high_kbps,
            None => false,
        };
        if is_lossy(metrics) && high_bitrate && Self::high_band_is_below(
            metrics,
            cfg.spectrum_processed_threshold,
        ) {
            score = score - 2 * UNIT;
        }
        if score < 0 {
            0
        } else {
            score
        }
    }

    /// The integrity sub-score, in millionths of a point.
    pub fn calculate_integrity_score(&self, metrics: &FileMetrics) -> (score: i64)
        ensures
            score == integrity_score(metrics@),
            0 <= score <= 10 * UNIT,
    {
        let missing = self.count_missing_critical_fields(metrics) as i64;
        let mut score: i64 = 10 * UNIT - missing * 3 * UNIT;
        if score < 0 {
            score = 0;
        }
        let errors: usize = metrics.error_codes.len();
        if errors > 0 {
            let penalty: i64 = if errors >= 2 {
                2 * UNIT
            } else {
                UNIT
            };
            score = score - penalty;
            if score < 0 {
                score = 0;
            }
        }
        score
    }
}

} // verus!
