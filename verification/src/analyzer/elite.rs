//! The elite gate: what a track must meet to keep a score above 90, and the
//! compression into [85, 89] of the tracks that do not.

use vstd::prelude::*;
use crate::analyzer::codec::{is_lossy, lossy};
use crate::analyzer::metrics::{FileMetrics, MetricsView};
use crate::analyzer::profile::ProfileConfig;
use crate::analyzer::reading::{
    clamp_int, lemma_map_score_range, map_score, map_to_score, Reading, UNIT,
};
use crate::analyzer::scoring::{QualityScorer, QualityStatus, ScoringProfile};
use crate::analyzer::subscores::max_int;

verus! {

/// The weights, in hundredths, of the five parts of the readiness estimate.
pub const LOUDNESS_WEIGHT: i64 = 26;

/// The weight of the true-peak part.
pub const TRUE_PEAK_WEIGHT: i64 = 20;

/// The weight of the loudness-range part.
pub const LRA_WEIGHT: i64 = 22;

/// The weight of the spectrum part.
pub const SPECTRUM_WEIGHT: i64 = 20;

/// The weight of the bitrate part.
pub const BITRATE_WEIGHT: i64 = 12;

/// The band into which a high score that fails the elite gate is compressed.
pub const COMPRESSED_MIN: i64 = 85_000_000;

/// The upper end of that band.
pub const COMPRESSED_MAX: i64 = 89_000_000;

/// The score above which the elite gate applies.
pub const ELITE_GATE: i64 = 90_000_000;

/// One (a million millionths) inside the preferred band, tapering linearly
/// to zero at the soft bounds, zero outside them. A soft bound that does not
/// lie outside the preferred band gives no taper on its side.
pub open spec fn soft_band(
    value: Reading,
    preferred_min: int,
    preferred_max: int,
    soft_min: int,
    soft_max: int,
) -> int {
    if value.within(preferred_min, preferred_max) {
        UNIT as int
    } else if value.below(preferred_min) {
        if preferred_min <= soft_min {
            0
        } else if !value.below(soft_min) {
            value.mapped(soft_min, preferred_min, 0, UNIT as int)
        } else {
            0
        }
    } else if preferred_max >= soft_max {
        0
    } else if !value.above(soft_max) {
        value.mapped(preferred_max, soft_max, UNIT as int, 0)
    } else {
        0
    }
}

/// Readiness of the integrated loudness: its soft-band score between the
/// elite band and the soft loudness range.
pub open spec fn loudness_readiness(profile: ScoringProfile, cfg: ProfileConfig, m: MetricsView) -> int {
    match m.integrated_loudness_lufs {
        Some(v) => soft_band(
            v,
            ProfileConfig::elite_loudness_band(profile).0,
            ProfileConfig::elite_loudness_band(profile).1,
            cfg.loudness_soft_range_low as int,
            cfg.loudness_soft_range_high as int,
        ),
        None => 0,
    }
}

/// The true peak up to which readiness tapers: the critical threshold, or
/// 0.6 above the elite ceiling where that is higher.
pub open spec fn soft_true_peak_ceiling(profile: ScoringProfile, cfg: ProfileConfig) -> int {
    max_int(cfg.true_peak_critical as int, ProfileConfig::elite_true_peak_ceiling(profile) + 600_000)
}

/// Readiness of the peak: one up to the elite ceiling, tapering to zero at
/// the soft ceiling; with only a sample peak, at most 0.9.
pub open spec fn true_peak_readiness(profile: ScoringProfile, cfg: ProfileConfig, m: MetricsView) -> int {
    match m.true_peak_dbtp {
        Some(tp) => {
            let ceiling = ProfileConfig::elite_true_peak_ceiling(profile);
            let soft = soft_true_peak_ceiling(profile, cfg);
            if !tp.above(ceiling) {
                UNIT as int
            } else if !tp.above(soft) {
                tp.mapped(ceiling, soft, UNIT as int, 0)
            } else {
                0
            }
        },
        None => match m.peak_amplitude_db {
            Some(peak) => {
                if !peak.above(-UNIT) {
                    900_000
                } else if !peak.above(0) {
                    peak.mapped(-UNIT, 0, 900_000, 0)
                } else {
                    0
                }
            },
            None => 0,
        },
    }
}

/// Readiness of the loudness range: its soft-band score between the elite
/// band and the low and acceptable bounds.
pub open spec fn lra_readiness(profile: ScoringProfile, cfg: ProfileConfig, m: MetricsView) -> int {
    match m.lra {
        Some(v) => soft_band(
            v,
            ProfileConfig::elite_lra_band(profile).0,
            ProfileConfig::elite_lra_band(profile).1,
            cfg.lra_low_max as int,
            cfg.lra_acceptable_max as int,
        ),
        None => 0,
    }
}

/// Readiness of the energy above 18 kHz: from 0 at the fake threshold over
/// 0.7 at the processed threshold to one at the good threshold.
pub open spec fn spectrum_readiness(cfg: ProfileConfig, m: MetricsView) -> int {
    match m.rms_db_above_18k {
        Some(v) => {
            if !v.below(cfg.spectrum_processed_threshold as int) {
                v.mapped(
                    cfg.spectrum_processed_threshold as int,
                    cfg.spectrum_good_threshold as int,
                    700_000,
                    UNIT as int,
                )
            } else if !v.below(cfg.spectrum_fake_threshold as int) {
                v.mapped(
                    cfg.spectrum_fake_threshold as int,
                    cfg.spectrum_processed_threshold as int,
                    0,
                    700_000,
                )
            } else {
                0
            }
        },
        None => 0,
    }
}

/// Readiness of the bitrate: one for a file that is not lossy; for a lossy
/// one, from 0.35 at the low bitrate to one at the high bitrate.
pub open spec fn bitrate_readiness(cfg: ProfileConfig, m: MetricsView) -> int {
    if lossy(m) {
        match m.bitrate_kbps {
            Some(b) => {
                if b >= cfg.bitrate_high_kbps {
                    UNIT as int
                } else if b >= cfg.bitrate_low_kbps {
                    map_score(
                        b as int,
                        cfg.bitrate_low_kbps as int,
                        cfg.bitrate_high_kbps as int,
                        350_000,
                        UNIT as int,
                    )
                } else {
                    0
                }
            },
            None => 0,
        }
    } else {
        UNIT as int
    }
}

/// How close a track is to the elite bands, between 0 and one (a million
/// millionths): the weighted average of the five parts.
pub open spec fn elite_readiness(profile: ScoringProfile, m: MetricsView) -> int {
    let cfg = ProfileConfig::of(profile);
    clamp_int(
        (loudness_readiness(profile, cfg, m) * LOUDNESS_WEIGHT + true_peak_readiness(profile, cfg, m)
            * TRUE_PEAK_WEIGHT + lra_readiness(profile, cfg, m) * LRA_WEIGHT + spectrum_readiness(
            cfg,
            m,
        ) * SPECTRUM_WEIGHT + bitrate_readiness(cfg, m) * BITRATE_WEIGHT) / 100,
        0,
        UNIT as int,
    )
}

/// The track may keep a score above 90: its status is Good, the four
/// critical measurements are present and inside the elite bands, and a lossy
/// file has at least the high bitrate.
pub open spec fn qualifies_for_elite(profile: ScoringProfile, m: MetricsView, status: QualityStatus) -> bool {
    let cfg = ProfileConfig::of(profile);
    &&& status == QualityStatus::Good
    &&& m.integrated_loudness_lufs matches Some(loudness)
    &&& m.true_peak_dbtp matches Some(tp)
    &&& m.lra matches Some(lra)
    &&& m.rms_db_above_18k matches Some(rms18)
    &&& loudness.within(
        ProfileConfig::elite_loudness_band(profile).0,
        ProfileConfig::elite_loudness_band(profile).1,
    )
    &&& !tp.above(ProfileConfig::elite_true_peak_ceiling(profile))
    &&& lra.within(ProfileConfig::elite_lra_band(profile).0, ProfileConfig::elite_lra_band(profile).1)
    &&& !rms18.below(cfg.spectrum_processed_threshold as int)
    &&& (lossy(m) ==> (m.bitrate_kbps matches Some(b) && b >= cfg.bitrate_high_kbps))
}

/// How far `raw_score` has come from 90 towards 99, between 0 and one.
pub open spec fn high_band_progress(raw_score: int) -> int {
    clamp_int((raw_score - ELITE_GATE) / 9, 0, UNIT as int)
}

/// The compressed score: 85 plus up to two points for progress above 90 and
/// up to two for readiness, never outside [85, 89].
pub open spec fn compressed_score(profile: ScoringProfile, raw_score: int, m: MetricsView) -> int {
    clamp_int(
        COMPRESSED_MIN + high_band_progress(raw_score) * 2 + elite_readiness(profile, m) * 2,
        COMPRESSED_MIN as int,
        COMPRESSED_MAX as int,
    )
}

/// The soft-band score lies between 0 and one.
pub proof fn lemma_soft_band_range(
    value: Reading,
    preferred_min: int,
    preferred_max: int,
    soft_min: int,
    soft_max: int,
)
    ensures
        0 <= soft_band(value, preferred_min, preferred_max, soft_min, soft_max) <= UNIT,
{
    if soft_min < preferred_min {
        lemma_map_score_range(
            value.clamped(soft_min, preferred_min),
            soft_min,
            preferred_min,
            0,
            UNIT as int,
        );
    }
    if preferred_max < soft_max {
        lemma_map_score_range(
            value.clamped(preferred_max, soft_max),
            preferred_max,
            soft_max,
            UNIT as int,
            0,
        );
    }
}

/// Each part of the readiness estimate lies between 0 and one.
pub proof fn lemma_readiness_parts(profile: ScoringProfile, m: MetricsView)
    ensures
        0 <= loudness_readiness(profile, ProfileConfig::of(profile), m) <= UNIT,
        0 <= true_peak_readiness(profile, ProfileConfig::of(profile), m) <= UNIT,
        0 <= lra_readiness(profile, ProfileConfig::of(profile), m) <= UNIT,
        0 <= spectrum_readiness(ProfileConfig::of(profile), m) <= UNIT,
        0 <= bitrate_readiness(ProfileConfig::of(profile), m) <= UNIT,
{
    let cfg = ProfileConfig::of(profile);
    match m.integrated_loudness_lufs {
        Some(v) => {
            lemma_soft_band_range(
                v,
                ProfileConfig::elite_loudness_band(profile).0,
                ProfileConfig::elite_loudness_band(profile).1,
                cfg.loudness_soft_range_low as int,
                cfg.loudness_soft_range_high as int,
            );
        },
        None => {},
    }
    match m.true_peak_dbtp {
        Some(tp) => {
            let ceiling = ProfileConfig::elite_true_peak_ceiling(profile);
            let soft = soft_true_peak_ceiling(profile, cfg);
            lemma_map_score_range(tp.clamped(ceiling, soft), ceiling, soft, UNIT as int, 0);
        },
        None => match m.peak_amplitude_db {
            Some(peak) => {
                lemma_map_score_range(peak.clamped(-UNIT, 0), -UNIT, 0, 900_000, 0);
            },
            None => {},
        },
    }
    match m.lra {
        Some(v) => {
            lemma_soft_band_range(
                v,
                ProfileConfig::elite_lra_band(profile).0,
                ProfileConfig::elite_lra_band(profile).1,
                cfg.lra_low_max as int,
                cfg.lra_acceptable_max as int,
            );
        },
        None => {},
    }
    match m.rms_db_above_18k {
        Some(v) => {
            lemma_map_score_range(
                v.clamped(
                    cfg.spectrum_processed_threshold as int,
                    cfg.spectrum_good_threshold as int,
                ),
                cfg.spectrum_processed_threshold as int,
                cfg.spectrum_good_threshold as int,
                700_000,
                UNIT as int,
            );
            lemma_map_score_range(
                v.clamped(
                    cfg.spectrum_fake_threshold as int,
                    cfg.spectrum_processed_threshold as int,
                ),
                cfg.spectrum_fake_threshold as int,
                cfg.spectrum_processed_threshold as int,
                0,
                700_000,
            );
        },
        None => {},
    }
    match m.bitrate_kbps {
        Some(b) => {
            lemma_map_score_range(
                b as int,
                cfg.bitrate_low_kbps as int,
                cfg.bitrate_high_kbps as int,
                350_000,
                UNIT as int,
            );
        },
        None => {},
    }
}

/// A score that the elite gate compresses lands in [85, 89], whatever it was.
pub proof fn lemma_compressed_band(profile: ScoringProfile, raw_score: int, m: MetricsView)
    ensures
        COMPRESSED_MIN <= compressed_score(profile, raw_score, m) <= COMPRESSED_MAX,
{
}

/// One (a million millionths) inside the preferred band, tapering to zero at
/// the soft bounds.
pub fn soft_band_score(
    value: Reading,
    preferred_min: i64,
    preferred_max: i64,
    soft_min: i64,
    soft_max: i64,
) -> (score: i64)
    ensures
        score == soft_band(
            value,
            preferred_min as int,
            preferred_max as int,
            soft_min as int,
            soft_max as int,
        ),
        0 <= score <= UNIT,
{
    proof {
        lemma_soft_band_range(
            value,
            preferred_min as int,
            preferred_max as int,
            soft_min as int,
            soft_max as int,
        );
    }
    if value.is_within(preferred_min, preferred_max) {
        return UNIT;
    }
    if value.is_below(preferred_min) {
        if preferred_min <= soft_min {
            return 0;
        }
        if !value.is_below(soft_min) {
            return value.map_to(soft_min, preferred_min, 0, UNIT);
        }
        return 0;
    }
    if preferred_max >= soft_max {
        return 0;
    }
    if !value.is_above(soft_max) {
        return value.map_to(preferred_max, soft_max, UNIT, 0);
    }
    0
}

impl QualityScorer {
    /// The loudness band of the elite gate, in millionths of a LUFS.
    pub fn elite_loudness_range(&self) -> (band: (i64, i64))
        ensures
            band.0 == ProfileConfig::elite_loudness_band(self.selected()).0,
            band.1 == ProfileConfig::elite_loudness_band(self.selected()).1,
    {
        match self.profile() {
            ScoringProfile::Pop => (-10_500_000, -7_500_000),
            ScoringProfile::Broadcast => (-24_000_000, -22_000_000),
            ScoringProfile::Archive => (-20_000_000, -12_000_000),
        }
    }

    /// The true-peak ceiling of the elite gate, in millionths of a dB.
    pub fn elite_true_peak_max(&self) -> (ceiling: i64)
        ensures
            ceiling == ProfileConfig::elite_true_peak_ceiling(self.selected()),
    {
        match self.profile() {
            ScoringProfile::Pop => -200_000,
            ScoringProfile::Broadcast => -1_000_000,
            ScoringProfile::Archive => -300_000,
        }
    }

    /// The loudness-range band of the elite gate, in millionths of a LU.
    pub fn elite_lra_range(&self) -> (band: (i64, i64))
        ensures
            band.0 == ProfileConfig::elite_lra_band(self.selected()).0,
            band.1 == ProfileConfig::elite_lra_band(self.selected()).1,
    {
        match self.profile() {
            ScoringProfile::Pop => (4_500_000, 11_000_000),
            ScoringProfile::Broadcast => (6_000_000, 15_000_000),
            ScoringProfile::Archive => (4_000_000, 16_000_000),
        }
    }

    fn loudness_part(&self, metrics: &FileMetrics) -> (part: i64)
        ensures
            part == loudness_readiness(self.selected(), self.thresholds(), metrics@),
    {
        let cfg = self.config();
        let band = self.elite_loudness_range();
        match metrics.integrated_loudness_lufs {
            Some(value) => soft_band_score(
                value,
                band.0,
                band.1,
                cfg.loudness_soft_range_low,
                cfg.loudness_soft_range_high,
            ),
            None => 0,
        }
    }

    fn true_peak_part(&self, metrics: &FileMetrics) -> (part: i64)
        ensures
            part == true_peak_readiness(self.selected(), self.thresholds(), metrics@),
    {
        let cfg = self.config();
        match metrics.true_peak_dbtp {
            Some(tp) => {
                let elite_tp_max = self.elite_true_peak_max();
                let soft_tp_max: i64 = if cfg.true_peak_critical >= elite_tp_max + 600_000 {
                    cfg.true_peak_critical
                } else {
                    elite_tp_max + 600_000
                };
                if !tp.is_above(elite_tp_max) {
                    UNIT
                } else if !tp.is_above(soft_tp_max) {
                    tp.map_to(elite_tp_max, soft_tp_max, UNIT, 0)
                } else {
                    0
                }
            },
            None => match metrics.peak_amplitude_db {
                Some(peak) => {
                    if !peak.is_above(-UNIT) {
                        900_000
                    } else if !peak.is_above(0) {
                        peak.map_to(-UNIT, 0, 900_000, 0)
                    } else {
                        0
                    }
                },
                None => 0,
            },
        }
    }

    fn lra_part(&self, metrics: &FileMetrics) -> (part: i64)
        ensures
            part == lra_readiness(self.selected(), self.thresholds(), metrics@),
    {
        let cfg = self.config();
        let band = self.elite_lra_range();
        match metrics.lra {
            Some(value) => soft_band_score(
                value,
                band.0,
                band.1,
                cfg.lra_low_max,
                cfg.lra_acceptable_max,
            ),
            None => 0,
        }
    }

    fn spectrum_part(&self, metrics: &FileMetrics) -> (part: i64)
        ensures
            part == spectrum_readiness(self.thresholds(), metrics@),
    {
        let cfg = self.config();
        match metrics.rms_db_above_18k {
            Some(value) => {
                if !value.is_below(cfg.spectrum_processed_threshold) {
                    value.map_to(
                        cfg.spectrum_processed_threshold,
                        cfg.spectrum_good_threshold,
                        700_000,
                        UNIT,
                    )
                } else if !value.is_below(cfg.spectrum_fake_threshold) {
                    value.map_to(
                        cfg.spectrum_fake_threshold,
                        cfg.spectrum_processed_threshold,
                        0,
                        700_000,
                    )
                } else {
                    0
                }
            },
            None => 0,
        }
    }

    fn bitrate_part(&self, metrics: &FileMetrics) -> (part: i64)
        ensures
            part == bitrate_readiness(self.thresholds(), metrics@),
    {
        let cfg = self.config();
        if is_lossy(metrics) {
            match metrics.bitrate_kbps {
                Some(bitrate) => {
                    if bitrate >= cfg.bitrate_high_kbps {
                        UNIT
                    } else if bitrate >= cfg.bitrate_low_kbps {
                        map_to_score(
                            bitrate as i64,
                            cfg.bitrate_low_kbps as i64,
                            cfg.bitrate_high_kbps as i64,
                            350_000,
                            UNIT,
                        )
                    } else {
                        0
                    }
                },
                None => 0,
            }
        } else {
            UNIT
        }
    }

    /// How close the track is to the elite bands, in millionths.
    pub fn estimate_elite_readiness(&self, metrics: &FileMetrics) -> (readiness: i64)
        ensures
            readiness == elite_readiness(self.selected(), metrics@),
            0 <= readiness <= UNIT,
    {
        proof {
            lemma_readiness_parts(self.selected(), metrics@);
        }
        let loudness_score = self.loudness_part(metrics);
        let tp_score = self.true_peak_part(metrics);
        let lra_score = self.lra_part(metrics);
        let spectrum_score = self.spectrum_part(metrics);
        let bitrate_score = self.bitrate_part(metrics);
        let readiness: i64 = (loudness_score * LOUDNESS_WEIGHT + tp_score * TRUE_PEAK_WEIGHT
            + lra_score * LRA_WEIGHT + spectrum_score * SPECTRUM_WEIGHT + bitrate_score
            * BITRATE_WEIGHT) / 100;
        if readiness < 0 {
            0
        } else if readiness > UNIT {
            UNIT
        } else {
            readiness
        }
    }

    /// Whether the track may keep a score above 90.
    pub fn qualifies_for_elite_90(&self, metrics: &FileMetrics, status: &QualityStatus) -> (ok: bool)
        ensures
            ok == qualifies_for_elite(self.selected(), metrics@, *status),
    {
        let cfg = self.config();
        match status {
            QualityStatus::Good => {},
            _ => {
                return false;
            },
        }
        let loudness = match metrics.integrated_loudness_lufs {
            Some(v) => v,
            None => {
                return false;
            },
        };
        let tp = match metrics.true_peak_dbtp {
            Some(v) => v,
            None => {
                return false;
            },
        };
        let lra = match metrics.lra {
            Some(v) => v,
            None => {
                return false;
            },
        };
        let rms18 = match metrics.rms_db_above_18k {
            Some(v) => v,
            None => {
                return false;
            },
        };
        let loudness_band = self.elite_loudness_range();
        let loudness_ok = loudness.is_within(loudness_band.0, loudness_band.1);
        let true_peak_ok = !tp.is_above(self.elite_true_peak_max());
        let lra_band = self.elite_lra_range();
        let lra_ok = lra.is_within(lra_band.0, lra_band.1);
        let spectrum_ok = !rms18.is_below(cfg.spectrum_processed_threshold);
        let bitrate_ok = if is_lossy(metrics) {
            match metrics.bitrate_kbps {
                Some(b) => b >= cfg.bitrate_high_kbps,
                None => false,
            }
        } else {
            true
        };
        loudness_ok && true_peak_ok && lra_ok && spectrum_ok && bitrate_ok
    }

    /// The score, in millionths of a point, to which a raw score is
    /// compressed where the track fails the elite gate.
    pub fn compress_non_elite_high_score(&self, raw_score: i64, metrics: &FileMetrics) -> (compressed: i64)
        ensures
            compressed == compressed_score(self.selected(), raw_score as int, metrics@),
            COMPRESSED_MIN <= compressed <= COMPRESSED_MAX,
    {
        let progress: i64 = if raw_score <= ELITE_GATE {
            0
        } else if raw_score >= 99_000_000 {
            UNIT
        } else {
            (raw_score - ELITE_GATE) / 9
        };
        let readiness = self.estimate_elite_readiness(metrics);
        let compressed: i64 = COMPRESSED_MIN + progress * 2 + readiness * 2;
        if compressed > COMPRESSED_MAX {
            COMPRESSED_MAX
        } else {
            compressed
        }
    }
}

} // verus!
