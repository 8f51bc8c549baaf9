//! The thresholds that each scoring profile selects.

use vstd::prelude::*;
use crate::analyzer::scoring::ScoringProfile;

verus! {

/// The thresholds of one profile. Levels are in millionths of a unit,
/// bitrates in kbps.
#[derive(Debug, Clone, Copy, PartialEq, Eq, Structural)]
pub struct ProfileConfig {
    pub target_lufs: i64,
    pub loudness_soft_range_low: i64,
    pub loudness_soft_range_high: i64,
    pub true_peak_warn: i64,
    pub true_peak_critical: i64,
    pub spectrum_fake_threshold: i64,
    pub spectrum_processed_threshold: i64,
    pub spectrum_good_threshold: i64,
    pub lra_poor_max: i64,
    pub lra_low_max: i64,
    pub lra_excellent_min: i64,
    pub lra_excellent_max: i64,
    pub lra_acceptable_max: i64,
    pub lra_too_high: i64,
    pub bitrate_low_kbps: u32,
    pub bitrate_high_kbps: u32,
}

impl ProfileConfig {
    /// The table of thresholds.
    pub open spec fn of(profile: ScoringProfile) -> ProfileConfig {
        match profile {
            ScoringProfile::Pop => ProfileConfig {
                target_lufs: (-9_000_000) as i64,
                loudness_soft_range_low: (-13_000_000) as i64,
                loudness_soft_range_high: (-6_000_000) as i64,
                true_peak_warn: 100_000,
                true_peak_critical: 1_000_000,
                spectrum_fake_threshold: (-85_000_000) as i64,
                spectrum_processed_threshold: (-80_000_000) as i64,
                spectrum_good_threshold: (-70_000_000) as i64,
                lra_poor_max: 3_000_000,
                lra_low_max: 5_000_000,
                lra_excellent_min: 5_500_000,
                lra_excellent_max: 10_000_000,
                lra_acceptable_max: 14_000_000,
                lra_too_high: 18_000_000,
                bitrate_low_kbps: 192,
                bitrate_high_kbps: 256,
            },
            ScoringProfile::Broadcast => ProfileConfig {
                target_lufs: (-23_000_000) as i64,
                loudness_soft_range_low: (-25_000_000) as i64,
                loudness_soft_range_high: (-22_000_000) as i64,
                true_peak_warn: (-2_000_000) as i64,
                true_peak_critical: (-1_000_000) as i64,
                spectrum_fake_threshold: (-88_000_000) as i64,
                spectrum_processed_threshold: (-82_000_000) as i64,
                spectrum_good_threshold: (-72_000_000) as i64,
                lra_poor_max: 4_000_000,
                lra_low_max: 6_000_000,
                lra_excellent_min: 6_000_000,
                lra_excellent_max: 15_000_000,
                lra_acceptable_max: 20_000_000,
                lra_too_high: 24_000_000,
                bitrate_low_kbps: 192,
                bitrate_high_kbps: 256,
            },
            ScoringProfile::Archive => ProfileConfig {
                target_lufs: (-18_000_000) as i64,
                loudness_soft_range_low: (-24_000_000) as i64,
                loudness_soft_range_high: (-10_000_000) as i64,
                true_peak_warn: (-500_000) as i64,
                true_peak_critical: (-100_000) as i64,
                spectrum_fake_threshold: (-85_000_000) as i64,
                spectrum_processed_threshold: (-80_000_000) as i64,
                spectrum_good_threshold: (-70_000_000) as i64,
                lra_poor_max: 2_500_000,
                lra_low_max: 4_000_000,
                lra_excellent_min: 5_000_000,
                lra_excellent_max: 14_000_000,
                lra_acceptable_max: 20_000_000,
                lra_too_high: 24_000_000,
                bitrate_low_kbps: 160,
                bitrate_high_kbps: 256,
            },
        }
    }

    /// The loudness band, in millionths of a LUFS, that a score above 90 asks for.
    pub open spec fn elite_loudness_band(profile: ScoringProfile) -> (int, int) {
        match profile {
            ScoringProfile::Pop => (-10_500_000, -7_500_000),
            ScoringProfile::Broadcast => (-24_000_000, -22_000_000),
            ScoringProfile::Archive => (-20_000_000, -12_000_000),
        }
    }

    /// The highest true peak that a score above 90 allows.
    pub open spec fn elite_true_peak_ceiling(profile: ScoringProfile) -> int {
        match profile {
            ScoringProfile::Pop => -200_000,
            ScoringProfile::Broadcast => -1_000_000,
            ScoringProfile::Archive => -300_000,
        }
    }

    /// The loudness-range band that a score above 90 asks for.
    pub open spec fn elite_lra_band(profile: ScoringProfile) -> (int, int) {
        match profile {
            ScoringProfile::Pop => (4_500_000, 11_000_000),
            ScoringProfile::Broadcast => (6_000_000, 15_000_000),
            ScoringProfile::Archive => (4_000_000, 16_000_000),
        }
    }

    /// The thresholds ascend wherever the scorer interpolates between two
    /// of them, and stay within a thousand units of zero.
    pub open spec fn ordered(self) -> bool {
        &&& self.loudness_soft_range_low <= self.target_lufs <= self.loudness_soft_range_high
        &&& self.true_peak_warn <= self.true_peak_critical
        &&& self.spectrum_fake_threshold <= self.spectrum_processed_threshold
            <= self.spectrum_good_threshold
        &&& 0 <= self.lra_poor_max <= self.lra_low_max <= self.lra_excellent_min
            <= self.lra_excellent_max <= self.lra_acceptable_max <= self.lra_too_high
        &&& self.bitrate_low_kbps <= self.bitrate_high_kbps
        &&& -1_000_000_000 <= self.loudness_soft_range_low
        &&& self.loudness_soft_range_high <= 1_000_000_000
        &&& -1_000_000_000 <= self.true_peak_warn
        &&& self.true_peak_critical <= 1_000_000_000
        &&& -1_000_000_000 <= self.spectrum_fake_threshold
        &&& self.spectrum_good_threshold <= 1_000_000_000
        &&& self.lra_too_high <= 1_000_000_000
    }

    /// Every profile's table is ordered.
    pub proof fn lemma_table_ordered(profile: ScoringProfile)
        ensures
            Self::of(profile).ordered(),
    {
    }

    /// The thresholds of a profile.
    pub fn from_profile(profile: ScoringProfile) -> (config: ProfileConfig)
        ensures
            config == Self::of(profile),
            config.ordered(),
    {
        match profile {
            ScoringProfile::Pop => ProfileConfig {
                target_lufs: -9_000_000,
                loudness_soft_range_low: -13_000_000,
                loudness_soft_range_high: -6_000_000,
                true_peak_warn: 100_000,
                true_peak_critical: 1_000_000,
                spectrum_fake_threshold: -85_000_000,
                spectrum_processed_threshold: -80_000_000,
                spectrum_good_threshold: -70_000_000,
                lra_poor_max: 3_000_000,
                lra_low_max: 5_000_000,
                lra_excellent_min: 5_500_000,
                lra_excellent_max: 10_000_000,
                lra_acceptable_max: 14_000_000,
                lra_too_high: 18_000_000,
                bitrate_low_kbps: 192,
                bitrate_high_kbps: 256,
            },
            ScoringProfile::Broadcast => ProfileConfig {
                target_lufs: -23_000_000,
                loudness_soft_range_low: -25_000_000,
                loudness_soft_range_high: -22_000_000,
                true_peak_warn: -2_000_000,
                true_peak_critical: -1_000_000,
                spectrum_fake_threshold: -88_000_000,
                spectrum_processed_threshold: -82_000_000,
                spectrum_good_threshold: -72_000_000,
                lra_poor_max: 4_000_000,
                lra_low_max: 6_000_000,
                lra_excellent_min: 6_000_000,
                lra_excellent_max: 15_000_000,
                lra_acceptable_max: 20_000_000,
                lra_too_high: 24_000_000,
                bitrate_low_kbps: 192,
                bitrate_high_kbps: 256,
            },
            ScoringProfile::Archive => ProfileConfig {
                target_lufs: -18_000_000,
                loudness_soft_range_low: -24_000_000,
                loudness_soft_range_high: -10_000_000,
                true_peak_warn: -500_000,
                true_peak_critical: -100_000,
                spectrum_fake_threshold: -85_000_000,
                spectrum_processed_threshold: -80_000_000,
                spectrum_good_threshold: -70_000_000,
                lra_poor_max: 2_500_000,
                lra_low_max: 4_000_000,
                lra_excellent_min: 5_000_000,
                lra_excellent_max: 14_000_000,
                lra_acceptable_max: 20_000_000,
                lra_too_high: 24_000_000,
                bitrate_low_kbps: 160,
                bitrate_high_kbps: 256,
            },
        }
    }
}

} // verus!
