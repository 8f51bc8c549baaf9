//! Profiles, statuses and the scorer that turns a metrics record into a
//! quality analysis.

use vstd::prelude::*;
use vstd::string::*;
use crate::analyzer::codec::{is_lossless, is_lossy, lossless, lossy};
use crate::analyzer::elite::{
    compressed_score, lemma_compressed_band, qualifies_for_elite, ELITE_GATE,
};
use crate::analyzer::metrics::{FileMetrics, MetricsView};
use crate::analyzer::notes::notes_text;
use crate::analyzer::profile::ProfileConfig;
use crate::analyzer::reading::{clamp_int, UNIT};
use crate::analyzer::subscores::{
    authenticity_score, compliance_score, dynamics_score, high_band_below, integrity_score,
    min_int, missing_critical_fields, spectrum_score,
};
use crate::analyzer::text::{lower, to_chars, to_lower, trim, trimmed, same_text};

verus! {

/// The content category whose thresholds a track is held against.
#[derive(Debug, Clone, Copy, PartialEq, Eq, Structural)]
pub enum ScoringProfile {
    Pop,
    Broadcast,
    Archive,
}

impl ScoringProfile {
    /// The profile's canonical name.
    pub open spec fn name(self) -> Seq<char> {
        match self {
            ScoringProfile::Pop => "pop"@,
            ScoringProfile::Broadcast => "broadcast"@,
            ScoringProfile::Archive => "archive"@,
        }
    }

    /// The profile that a word selects, once trimmed and lower-cased.
    pub open spec fn named_by(word: Seq<char>) -> Option<ScoringProfile> {
        let key = lower(trimmed(word));
        if key == "pop"@ || key == "kpop"@ || key == "jpop"@ || key == "apop"@ {
            Some(ScoringProfile::Pop)
        } else if key == "broadcast"@ {
            Some(ScoringProfile::Broadcast)
        } else if key == "archive"@ {
            Some(ScoringProfile::Archive)
        } else {
            None
        }
    }

    /// The message for a word that selects no profile.
    pub open spec fn unknown_profile_message(word: Seq<char>) -> Seq<char> {
        "不支持的 profile: "@ + word + "，可选: pop/broadcast/archive"@
    }

    /// The profile's canonical name.
    pub fn as_str(self) -> (name: &'static str)
        ensures
            name@ == self.name(),
    {
        match self {
            ScoringProfile::Pop => "pop",
            ScoringProfile::Broadcast => "broadcast",
            ScoringProfile::Archive => "archive",
        }
    }

    /// Reads a profile name, ignoring case and surrounding white space.
    pub fn parse(word: &str) -> (parsed: Result<ScoringProfile, String>)
        ensures
            match Self::named_by(word@) {
                Some(profile) => parsed == Ok::<ScoringProfile, String>(profile),
                None => parsed is Err && parsed->Err_0@ == Self::unknown_profile_message(word@),
            },
    {
        let key = to_lower(&trim(&to_chars(word)));
        if same_text(&key, &to_chars("pop")) || same_text(&key, &to_chars("kpop")) || same_text(
            &key,
            &to_chars("jpop"),
        ) || same_text(&key, &to_chars("apop")) {
            Ok(ScoringProfile::Pop)
        } else if same_text(&key, &to_chars("broadcast")) {
            Ok(ScoringProfile::Broadcast)
        } else if same_text(&key, &to_chars("archive")) {
            Ok(ScoringProfile::Archive)
        } else {
            let mut message = "不支持的 profile: ".to_owned();
            message.append(word);
            message.append("，可选: pop/broadcast/archive");
            Err(message)
        }
    }
}

impl std::str::FromStr for ScoringProfile {
    type Err = String;

    fn from_str(s: &str) -> (parsed: Result<Self, String>)
        ensures
            match Self::named_by(s@) {
                Some(profile) => parsed == Ok::<ScoringProfile, String>(profile),
                None => parsed is Err && parsed->Err_0@ == Self::unknown_profile_message(s@),
            },
    {
        ScoringProfile::parse(s)
    }
}

/// The verdict on one track. The first rule of the decision list that
/// applies names it.
#[derive(Debug, Clone, Copy, PartialEq, Eq, Structural)]
pub enum QualityStatus {
    Good,
    Incomplete,
    Suspicious,
    Processed,
    Clipped,
    TruePeakRisk,
    LoudnessOffTarget,
    SeverelyCompressed,
    LowDynamic,
    LowBitrate,
    LowSampleRate,
    Mono,
}

impl QualityStatus {
    /// The status as shown to the user.
    pub open spec fn label(self) -> Seq<char> {
        match self {
            QualityStatus::Good => "质量良好"@,
            QualityStatus::Incomplete => "数据不完整"@,
            QualityStatus::Suspicious => "可疑 (伪造)"@,
            QualityStatus::Processed => "疑似处理"@,
            QualityStatus::Clipped => "已削波"@,
            QualityStatus::TruePeakRisk => "真峰值风险"@,
            QualityStatus::LoudnessOffTarget => "响度偏离目标"@,
            QualityStatus::SeverelyCompressed => "严重压缩"@,
            QualityStatus::LowDynamic => "低动态"@,
            QualityStatus::LowBitrate => "低码率"@,
            QualityStatus::LowSampleRate => "低采样率"@,
            QualityStatus::Mono => "单声道"@,
        }
    }

    /// The status as shown to the user.
    pub fn as_str(self) -> (label: &'static str)
        ensures
            label@ == self.label(),
    {
        match self {
            QualityStatus::Good => "质量良好",
            QualityStatus::Incomplete => "数据不完整",
            QualityStatus::Suspicious => "可疑 (伪造)",
            QualityStatus::Processed => "疑似处理",
            QualityStatus::Clipped => "已削波",
            QualityStatus::TruePeakRisk => "真峰值风险",
            QualityStatus::LoudnessOffTarget => "响度偏离目标",
            QualityStatus::SeverelyCompressed => "严重压缩",
            QualityStatus::LowDynamic => "低动态",
            QualityStatus::LowBitrate => "低码率",
            QualityStatus::LowSampleRate => "低采样率",
            QualityStatus::Mono => "单声道",
        }
    }

    /// The status as shown to the user, as an owned string.
    pub fn to_string(&self) -> (label: String)
        ensures
            label@ == self.label(),
    {
        self.as_str().to_owned()
    }
}

/// Turns metrics records into quality analyses under one profile.
pub struct QualityScorer {
    pub(crate) profile: ScoringProfile,
    pub(crate) config: ProfileConfig,
}

impl QualityScorer {
    /// The thresholds held are those of the profile held.
    #[verifier::type_invariant]
    pub closed spec fn consistent(self) -> bool {
        self.config == ProfileConfig::of(self.profile)
    }

    /// The profile that the scorer was made for.
    pub closed spec fn selected(self) -> ScoringProfile {
        self.profile
    }

    /// The thresholds that the scorer applies: those of its profile.
    pub open spec fn thresholds(self) -> ProfileConfig {
        ProfileConfig::of(self.selected())
    }

    /// A scorer for the default profile, Pop.
    pub fn new() -> (scorer: Self)
        ensures
            scorer.selected() == ScoringProfile::Pop,
    {
        Self::with_profile(ScoringProfile::Pop)
    }

    /// A scorer for `profile`.
    pub fn with_profile(profile: ScoringProfile) -> (scorer: Self)
        ensures
            scorer.selected() == profile,
    {
        QualityScorer { profile, config: ProfileConfig::from_profile(profile) }
    }

    /// The profile that the scorer was made for.
    pub fn profile(&self) -> (profile: ScoringProfile)
        ensures
            profile == self.selected(),
    {
        self.profile
    }

    /// The scorer's thresholds.
    pub fn config(&self) -> (config: ProfileConfig)
        ensures
            config == self.thresholds(),
            config.ordered(),
    {
        proof {
            use_type_invariant(self);
            ProfileConfig::lemma_table_ordered(self.profile);
        }
        self.config
    }
}

impl Default for QualityScorer {
    fn default() -> (scorer: Self)
        ensures
            scorer.selected() == ScoringProfile::Pop,
    {
        Self::new()
    }
}

/// The hard ceiling of every score: 100 is never given.
pub const HARD_MAX_SCORE: i32 = 99;

/// The sample rate, in Hz, below which a track is marked and penalised.
pub const MIN_SAMPLE_RATE_HZ: u32 = 44_100;

/// The record's peak is at or beyond the clipping point: the true peak at or
/// above the critical threshold or, where no true peak was measured, the
/// sample peak at or above -0.1 dB.
pub open spec fn clipped(cfg: ProfileConfig, m: MetricsView) -> bool {
    match m.true_peak_dbtp {
        Some(tp) => !tp.below(cfg.true_peak_critical as int),
        None => m.peak_amplitude_db matches Some(peak) && !peak.below(-100_000),
    }
}

/// A lossy file whose bitrate is below the profile's low threshold.
pub open spec fn low_bitrate(cfg: ProfileConfig, m: MetricsView) -> bool {
    lossy(m) && (m.bitrate_kbps matches Some(b) && b < cfg.bitrate_low_kbps)
}

/// A lossy file above the high bitrate whose high band is nevertheless
/// below the processed threshold.
pub open spec fn suspicious_high_bitrate(cfg: ProfileConfig, m: MetricsView) -> bool {
    lossy(m) && (m.bitrate_kbps matches Some(b) && b > cfg.bitrate_high_kbps) && high_band_below(
        m,
        cfg.spectrum_processed_threshold as int,
    )
}

/// The sample rate was measured and is below 44.1 kHz.
pub open spec fn low_sample_rate(m: MetricsView) -> bool {
    m.sample_rate_hz matches Some(rate) && rate < MIN_SAMPLE_RATE_HZ
}

/// The channel count was measured and is below two.
pub open spec fn mono(m: MetricsView) -> bool {
    m.channels matches Some(ch) && ch < 2
}

/// The decision list. The first rule that applies gives the status.
pub open spec fn status_of(cfg: ProfileConfig, m: MetricsView) -> QualityStatus {
    if missing_critical_fields(m) >= 2 {
        QualityStatus::Incomplete
    } else if lossless(m) && high_band_below(m, cfg.spectrum_fake_threshold as int) {
        QualityStatus::Suspicious
    } else if high_band_below(m, cfg.spectrum_processed_threshold as int) {
        QualityStatus::Processed
    } else if clipped(cfg, m) {
        QualityStatus::Clipped
    } else if m.true_peak_dbtp matches Some(tp) && !tp.below(cfg.true_peak_warn as int) {
        QualityStatus::TruePeakRisk
    } else if m.integrated_loudness_lufs matches Some(i) && (i.below(
        cfg.loudness_soft_range_low as int,
    ) || i.above(cfg.loudness_soft_range_high as int)) {
        QualityStatus::LoudnessOffTarget
    } else if low_bitrate(cfg, m) {
        QualityStatus::LowBitrate
    } else if low_sample_rate(m) {
        QualityStatus::LowSampleRate
    } else if mono(m) {
        QualityStatus::Mono
    } else if m.lra matches Some(lra) && lra.below(cfg.lra_poor_max as int) {
        QualityStatus::SeverelyCompressed
    } else if m.lra matches Some(lra) && lra.below(cfg.lra_low_max as int) {
        QualityStatus::LowDynamic
    } else {
        QualityStatus::Good
    }
}

/// The sum of the five sub-scores, at most 100 points.
pub open spec fn weighted_sum(cfg: ProfileConfig, m: MetricsView) -> int {
    compliance_score(cfg, m) + dynamics_score(cfg, m) + spectrum_score(cfg, m) + authenticity_score(
        cfg,
        m,
    ) + integrity_score(m)
}

/// The flat deductions: 12 for a low bitrate, 8 for a high bitrate with a
/// suspicious spectrum, 10 for a low sample rate, 3 for mono.
pub open spec fn deductions(cfg: ProfileConfig, m: MetricsView) -> int {
    (if low_bitrate(cfg, m) { 12 * UNIT } else { 0 })
    + (if suspicious_high_bitrate(cfg, m) { 8 * UNIT } else { 0 })
    + (if low_sample_rate(m) { 10 * UNIT } else { 0 })
    + (if mono(m) { 3 * UNIT } else { 0 })
}

/// The highest score, in points, that a status allows.
pub open spec fn status_cap(status: QualityStatus) -> int {
    match status {
        QualityStatus::Suspicious => 25,
        QualityStatus::Incomplete => 45,
        QualityStatus::Clipped => 85,
        QualityStatus::TruePeakRisk => 92,
        _ => HARD_MAX_SCORE as int,
    }
}

/// The score before the elite gate: the weighted sum less the deductions,
/// held under the cap of the status where it has one.
pub open spec fn raw_score(cfg: ProfileConfig, m: MetricsView, status: QualityStatus) -> int {
    let total = weighted_sum(cfg, m) - deductions(cfg, m);
    match status {
        QualityStatus::Suspicious | QualityStatus::Incomplete | QualityStatus::Clipped
        | QualityStatus::TruePeakRisk => min_int(total, status_cap(status) * UNIT),
        _ => total,
    }
}

/// The raw score is above 90 and the track does not pass the elite gate.
pub open spec fn gate_compresses(profile: ScoringProfile, m: MetricsView, status: QualityStatus) -> bool {
    raw_score(ProfileConfig::of(profile), m, status) > ELITE_GATE && !qualifies_for_elite(
        profile,
        m,
        status,
    )
}

/// The score after the elite gate, in millionths of a point.
pub open spec fn gated_score(profile: ScoringProfile, m: MetricsView, status: QualityStatus) -> int {
    let raw = raw_score(ProfileConfig::of(profile), m, status);
    if gate_compresses(profile, m, status) {
        compressed_score(profile, raw, m)
    } else {
        raw
    }
}

/// Millionths of a point as whole points: limited to [0, 99], then rounded
/// to the nearest point, halves upward.
pub open spec fn whole_points(total: int) -> int {
    (clamp_int(total, 0, HARD_MAX_SCORE * UNIT) + UNIT / 2) / (UNIT as int)
}

/// The quality score of a record under a profile and a status.
pub open spec fn quality_score(profile: ScoringProfile, m: MetricsView, status: QualityStatus) -> int {
    whole_points(gated_score(profile, m, status))
}

/// Confidence in millionths: one, less 0.18 for each missing critical field
/// and 0.08 for each error code, never under 0.1.
pub open spec fn confidence(m: MetricsView) -> int {
    clamp_int(
        UNIT - missing_critical_fields(m) * 180_000 - m.error_codes.len() * 80_000,
        100_000,
        UNIT as int,
    )
}

/// The score is a whole number from 0 to 99 for every record, profile and
/// status.
pub proof fn lemma_score_range(profile: ScoringProfile, m: MetricsView, status: QualityStatus)
    ensures
        0 <= quality_score(profile, m, status) <= HARD_MAX_SCORE,
{
}

/// A status with a cap bounds the score: Suspicious by 25, Incomplete by
/// 45, Clipped by 85, TruePeakRisk by 92, whatever the sub-scores are.
pub proof fn lemma_status_caps(profile: ScoringProfile, m: MetricsView, status: QualityStatus)
    ensures
        quality_score(profile, m, status) <= status_cap(status),
{
    lemma_compressed_band(profile, raw_score(ProfileConfig::of(profile), m, status), m);
}

/// A track whose raw score is above 90 and that fails the elite gate scores
/// from 85 to 89: never 90 or more.
pub proof fn lemma_gate_band(profile: ScoringProfile, m: MetricsView, status: QualityStatus)
    requires
        gate_compresses(profile, m, status),
    ensures
        85 <= quality_score(profile, m, status) <= 89,
{
    lemma_compressed_band(profile, raw_score(ProfileConfig::of(profile), m, status), m);
}

/// A score above 90 is only ever given to a track that passes the elite
/// gate; one of exactly 90 may also come from a raw score that rounds to it.
pub proof fn lemma_above_90_is_elite(profile: ScoringProfile, m: MetricsView, status: QualityStatus)
    requires
        quality_score(profile, m, status) > 90,
    ensures
        qualifies_for_elite(profile, m, status),
{
    lemma_compressed_band(profile, raw_score(ProfileConfig::of(profile), m, status), m);
}

/// A lossless file with at most one critical field missing whose energy
/// above 18 kHz is below the fake threshold is always Suspicious, and scores
/// at most 25.
pub proof fn lemma_suspicious(profile: ScoringProfile, m: MetricsView)
    requires
        missing_critical_fields(m) < 2,
        lossless(m),
        high_band_below(m, ProfileConfig::of(profile).spectrum_fake_threshold as int),
    ensures
        status_of(ProfileConfig::of(profile), m) == QualityStatus::Suspicious,
        quality_score(profile, m, QualityStatus::Suspicious) <= 25,
{
    lemma_status_caps(profile, m, QualityStatus::Suspicious);
}

/// A lossy file below the low bitrate is LowBitrate unless an earlier rule
/// of the decision list applies: it is never Good, nor any status that
/// comes later in the list.
pub proof fn lemma_low_bitrate(profile: ScoringProfile, m: MetricsView)
    requires
        low_bitrate(ProfileConfig::of(profile), m),
    ensures
        ({
            let status = status_of(ProfileConfig::of(profile), m);
            status == QualityStatus::LowBitrate || status == QualityStatus::Incomplete || status
                == QualityStatus::Suspicious || status == QualityStatus::Processed || status
                == QualityStatus::Clipped || status == QualityStatus::TruePeakRisk || status
                == QualityStatus::LoudnessOffTarget
        }),
        !qualifies_for_elite(profile, m, status_of(ProfileConfig::of(profile), m)),
{
}

/// Two or more missing critical fields always give Incomplete, and with it
/// a score of at most 45.
pub proof fn lemma_incomplete(profile: ScoringProfile, m: MetricsView)
    requires
        missing_critical_fields(m) >= 2,
    ensures
        status_of(ProfileConfig::of(profile), m) == QualityStatus::Incomplete,
        quality_score(profile, m, QualityStatus::Incomplete) <= 45,
{
    lemma_status_caps(profile, m, QualityStatus::Incomplete);
}

/// Confidence lies between 0.1 and one.
pub proof fn lemma_confidence_range(m: MetricsView)
    ensures
        100_000 <= confidence(m) <= UNIT,
{
}

/// What the scorer says of one file.
#[derive(Debug, PartialEq, Eq)]
pub struct QualityAnalysis {
    pub file_path: String,
    /// Whole points, 0 to 99.
    pub quality_score: i32,
    pub status: QualityStatus,
    pub notes: String,
    pub profile: String,
    /// Millionths, from 100 000 (0.1) to 1 000 000 (1.0).
    pub confidence: i64,
    pub metrics: FileMetrics,
}

/// An analysis as plain mathematical values.
pub struct AnalysisView {
    pub file_path: Seq<char>,
    pub quality_score: int,
    pub status: QualityStatus,
    pub notes: Seq<char>,
    pub profile: Seq<char>,
    pub confidence: int,
    pub metrics: MetricsView,
}

impl View for QualityAnalysis {
    type V = AnalysisView;

    open spec fn view(&self) -> AnalysisView {
        AnalysisView {
            file_path: self.file_path@,
            quality_score: self.quality_score as int,
            status: self.status,
            notes: self.notes@,
            profile: self.profile@,
            confidence: self.confidence as int,
            metrics: self.metrics@,
        }
    }
}

impl Clone for QualityAnalysis {
    fn clone(&self) -> (copy: Self)
        ensures
            copy@ == self@,
    {
        QualityAnalysis {
            file_path: self.file_path.clone(),
            quality_score: self.quality_score,
            status: self.status,
            notes: self.notes.clone(),
            profile: self.profile.clone(),
            confidence: self.confidence,
            metrics: self.metrics.clone(),
        }
    }
}

/// The analysis of a record under a profile.
pub open spec fn analysis_of(profile: ScoringProfile, m: MetricsView) -> AnalysisView {
    let status = status_of(ProfileConfig::of(profile), m);
    AnalysisView {
        file_path: m.file_path,
        quality_score: quality_score(profile, m, status),
        status,
        notes: notes_text(profile, m, status),
        profile: profile.name(),
        confidence: confidence(m),
        metrics: m,
    }
}

/// The analyses of a list of records, one for one.
pub open spec fn analyses_of(profile: ScoringProfile, list: Seq<FileMetrics>) -> Seq<AnalysisView> {
    Seq::new(list.len(), |i: int| analysis_of(profile, list[i]@))
}

/// The views of a list of analyses.
pub open spec fn analysis_views(list: Seq<QualityAnalysis>) -> Seq<AnalysisView> {
    Seq::new(list.len(), |i: int| list[i]@)
}

impl QualityScorer {
    /// The status of a record: the first rule of the decision list that
    /// applies.
    pub fn determine_status(&self, metrics: &FileMetrics) -> (status: QualityStatus)
        ensures
            status == status_of(self.thresholds(), metrics@),
    {
        let cfg = self.config();
        if self.count_missing_critical_fields(metrics) >= 2 {
            return QualityStatus::Incomplete;
        }
        match metrics.rms_db_above_18k {
            Some(rms_18k) => {
                if is_lossless(metrics) && rms_18k.is_below(cfg.spectrum_fake_threshold) {
                    return QualityStatus::Suspicious;
                }
                if rms_18k.is_below(cfg.spectrum_processed_threshold) {
                    return QualityStatus::Processed;
                }
            },
            None => {},
        }
        match metrics.true_peak_dbtp {
            Some(tp) => {
                if !tp.is_below(cfg.true_peak_critical) {
                    return QualityStatus::Clipped;
                }
                if !tp.is_below(cfg.true_peak_warn) {
                    return QualityStatus::TruePeakRisk;
                }
            },
            None => match metrics.peak_amplitude_db {
                Some(peak) => {
                    if !peak.is_below(-100_000) {
                        return QualityStatus::Clipped;
                    }
                },
                None => {},
            },
        }
        match metrics.integrated_loudness_lufs {
            Some(i_lufs) => {
                if i_lufs.is_below(cfg.loudness_soft_range_low) || i_lufs.is_above(
                    cfg.loudness_soft_range_high,
                ) {
                    return QualityStatus::LoudnessOffTarget;
                }
            },
            None => {},
        }
        if self.has_low_bitrate(metrics) {
            return QualityStatus::LowBitrate;
        }
        if Self::has_low_sample_rate(metrics) {
            return QualityStatus::LowSampleRate;
        }
        if Self::is_mono(metrics) {
            return QualityStatus::Mono;
        }
        match metrics.lra {
            Some(lra) => {
                if lra.is_below(cfg.lra_poor_max) {
                    return QualityStatus::SeverelyCompressed;
                }
                if lra.is_below(cfg.lra_low_max) {
                    return QualityStatus::LowDynamic;
                }
            },
            None => {},
        }
        QualityStatus::Good
    }

    fn has_low_bitrate(&self, metrics: &FileMetrics) -> (b: bool)
        ensures
            b == low_bitrate(self.thresholds(), metrics@),
    {
        let cfg = self.config();
        match metrics.bitrate_kbps {
            Some(bitrate) => bitrate < cfg.bitrate_low_kbps && is_lossy(metrics),
            None => false,
        }
    }

    fn has_suspicious_high_bitrate(&self, metrics: &FileMetrics) -> (b: bool)
        ensures
            b == suspicious_high_bitrate(self.thresholds(), metrics@),
    {
        let cfg = self.config();
        match metrics.bitrate_kbps {
            Some(bitrate) => bitrate > cfg.bitrate_high_kbps && Self::high_band_is_below(
                metrics,
                cfg.spectrum_processed_threshold,
            ) && is_lossy(metrics),
            None => false,
        }
    }

    fn has_low_sample_rate(metrics: &FileMetrics) -> (b: bool)
        ensures
            b == low_sample_rate(metrics@),
    {
        match metrics.sample_rate_hz {
            Some(rate) => rate < MIN_SAMPLE_RATE_HZ,
            None => false,
        }
    }

    fn is_mono(metrics: &FileMetrics) -> (b: bool)
        ensures
            b == mono(metrics@),
    {
        match metrics.channels {
            Some(ch) => ch < 2,
            None => false,
        }
    }

    /// The score of a record under a status, in whole points.
    pub fn calculate_quality_score(&self, metrics: &FileMetrics, status: &QualityStatus) -> (score: i32)
        ensures
            score == quality_score(self.selected(), metrics@, *status),
            0 <= score <= HARD_MAX_SCORE,
            score <= status_cap(*status),
            gate_compresses(self.selected(), metrics@, *status) ==> 85 <= score <= 89,
            score > 90 ==> qualifies_for_elite(self.selected(), metrics@, *status),
    {
        proof {
            lemma_status_caps(self.selected(), metrics@, *status);
            lemma_compressed_band(
                self.selected(),
                raw_score(self.thresholds(), metrics@, *status),
                metrics@,
            );
        }
        let compliance_score = self.calculate_compliance_score(metrics);
        let dynamics_score = self.calculate_dynamics_score(metrics);
        let spectrum_score = self.calculate_spectrum_score(metrics);
        let authenticity_score = self.calculate_authenticity_score(metrics);
        let integrity_score = self.calculate_integrity_score(metrics);
        let mut total_score: i64 = compliance_score + dynamics_score + spectrum_score
            + authenticity_score + integrity_score;
        if self.has_low_bitrate(metrics) {
            total_score = total_score - 12 * UNIT;
        }
        if self.has_suspicious_high_bitrate(metrics) {
            total_score = total_score - 8 * UNIT;
        }
        if Self::has_low_sample_rate(metrics) {
            total_score = total_score - 10 * UNIT;
        }
        if Self::is_mono(metrics) {
            total_score = total_score - 3 * UNIT;
        }
        let cap: i64 = match status {
            QualityStatus::Suspicious => 25 * UNIT,
            QualityStatus::Incomplete => 45 * UNIT,
            QualityStatus::Clipped => 85 * UNIT,
            QualityStatus::TruePeakRisk => 92 * UNIT,
            _ => 100 * UNIT,
        };
        if total_score > cap {
            total_score = cap;
        }
        if total_score > ELITE_GATE && !self.qualifies_for_elite_90(metrics, status) {
            total_score = self.compress_non_elite_high_score(total_score, metrics);
        }
        let limited: i64 = if total_score < 0 {
            0
        } else if total_score > (HARD_MAX_SCORE as i64) * UNIT {
            (HARD_MAX_SCORE as i64) * UNIT
        } else {
            total_score
        };
        ((limited + UNIT / 2) / UNIT) as i32
    }

    /// The confidence in an analysis of the record, in millionths.
    pub fn estimate_confidence(&self, metrics: &FileMetrics) -> (confidence_micros: i64)
        ensures
            confidence_micros == confidence(metrics@),
            100_000 <= confidence_micros <= UNIT,
    {
        let missing = self.count_missing_critical_fields(metrics) as i64;
        let errors: usize = metrics.error_codes.len();
        if errors > 12 {
            return 100_000;
        }
        let value: i64 = UNIT - missing * 180_000 - (errors as i64) * 80_000;
        if value < 100_000 {
            100_000
        } else {
            value
        }
    }

    /// Status, notes, score and confidence of one record.
    pub fn analyze_file(&self, metrics: &FileMetrics) -> (analysis: QualityAnalysis)
        ensures
            analysis@ == analysis_of(self.selected(), metrics@),
            0 <= analysis.quality_score <= HARD_MAX_SCORE,
            analysis.quality_score <= status_cap(analysis.status),
    {
        let status = self.determine_status(metrics);
        let notes = self.generate_notes(metrics, &status);
        let quality_score = self.calculate_quality_score(metrics, &status);
        let confidence = self.estimate_confidence(metrics);
        QualityAnalysis {
            file_path: metrics.file_path.clone(),
            quality_score,
            status,
            notes,
            profile: self.profile().as_str().to_owned(),
            confidence,
            metrics: metrics.clone(),
        }
    }

    /// The analyses of all records, in their order.
    pub fn analyze_files(&self, metrics_list: &Vec<FileMetrics>) -> (analyses: Vec<QualityAnalysis>)
        ensures
            analysis_views(analyses@) == analyses_of(self.selected(), metrics_list@),
    {
        let mut analyses: Vec<QualityAnalysis> = Vec::new();
        let mut i: usize = 0;
        while i < metrics_list.len()
            invariant
                i <= metrics_list.len(),
                analyses.len() == i,
                forall|k: int| 0 <= k < i ==> analyses@[k]@ == analysis_of(
                    self.selected(),
                    metrics_list@[k]@,
                ),
            decreases metrics_list.len() - i,
        {
            analyses.push(self.analyze_file(&metrics_list[i]));
            i = i + 1;
        }
        assert(analysis_views(analyses@) =~= analyses_of(self.selected(), metrics_list@));
        analyses
    }
}

} // verus!
