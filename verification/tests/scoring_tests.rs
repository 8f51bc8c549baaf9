use audio_quality::analyzer::metrics::FileMetrics;
use audio_quality::analyzer::reading::Reading;
use audio_quality::analyzer::scoring::{QualityScorer, QualityStatus, ScoringProfile};
use std::str::FromStr;

fn level(value: f64) -> Option<Reading> {
    Some(Reading::Finite((value * 1_000_000.0).round() as i64))
}

fn create_test_metrics() -> FileMetrics {
    FileMetrics {
        file_path: "test.flac".to_string(),
        file_size_bytes: 1_000_000,
        lra: level(8.5),
        peak_amplitude_db: level(-1.5),
        overall_rms_db: level(-18.0),
        rms_db_above_16k: level(-60.0),
        rms_db_above_18k: level(-75.0),
        rms_db_above_20k: level(-85.0),
        integrated_loudness_lufs: level(-9.5),
        true_peak_dbtp: level(-1.2),
        processing_time_ms: 1000,
        sample_rate_hz: Some(44_100),
        bitrate_kbps: Some(900),
        channels: Some(2),
        codec_name: Some("flac".to_string()),
        container_format: Some("flac".to_string()),
        duration_seconds: level(60.0),
        cache_hit: false,
        content_sha256: Some("abc".to_string()),
        error_codes: vec![],
    }
}

#[test]
fn test_profile_parse() {
    assert_eq!(ScoringProfile::from_str("pop").ok(), Some(ScoringProfile::Pop));
    assert_eq!(ScoringProfile::from_str("kpop").ok(), Some(ScoringProfile::Pop));
    assert!(ScoringProfile::from_str("unknown").is_err());
}

#[test]
fn test_default_profile_is_pop() {
    let scorer = QualityScorer::new();
    assert_eq!(scorer.profile(), ScoringProfile::Pop);
}

#[test]
fn test_determine_status_good_quality() {
    let scorer = QualityScorer::new();
    let metrics = create_test_metrics();
    let status = scorer.determine_status(&metrics);
    assert_eq!(status, QualityStatus::Good);
}

#[test]
fn test_determine_status_loudness_off_target() {
    let scorer = QualityScorer::new();
    let mut metrics = create_test_metrics();
    metrics.integrated_loudness_lufs = level(-4.0);
    let status = scorer.determine_status(&metrics);
    assert_eq!(status, QualityStatus::LoudnessOffTarget);
}

#[test]
fn test_determine_status_true_peak_risk() {
    let scorer = QualityScorer::new();
    let mut metrics = create_test_metrics();
    metrics.true_peak_dbtp = level(0.3);
    let status = scorer.determine_status(&metrics);
    assert_eq!(status, QualityStatus::TruePeakRisk);
}

#[test]
fn test_determine_status_clipped() {
    let scorer = QualityScorer::new();
    let mut metrics = create_test_metrics();
    metrics.true_peak_dbtp = level(1.2);
    let status = scorer.determine_status(&metrics);
    assert_eq!(status, QualityStatus::Clipped);
}

#[test]
fn test_determine_status_low_bitrate() {
    let scorer = QualityScorer::new();
    let mut metrics = create_test_metrics();
    metrics.file_path = "test.mp3".to_string();
    metrics.codec_name = Some("mp3".to_string());
    metrics.container_format = Some("mp3".to_string());
    metrics.bitrate_kbps = Some(128);
    metrics.integrated_loudness_lufs = level(-9.5);
    metrics.true_peak_dbtp = level(-2.0);
    let status = scorer.determine_status(&metrics);
    assert_eq!(status, QualityStatus::LowBitrate);
}

#[test]
fn test_determine_status_incomplete() {
    let scorer = QualityScorer::new();
    let mut metrics = create_test_metrics();
    metrics.lra = None;
    metrics.integrated_loudness_lufs = None;
    let status = scorer.determine_status(&metrics);
    assert_eq!(status, QualityStatus::Incomplete);
}

#[test]
fn test_calculate_quality_score() {
    let scorer = QualityScorer::new();
    let metrics = create_test_metrics();
    let status = QualityStatus::Good;
    let score = scorer.calculate_quality_score(&metrics, &status);
    assert!((70..=99).contains(&score));
}

#[test]
fn test_non_elite_high_scores_are_soft_compressed() {
    let scorer = QualityScorer::new();
    let mut metrics = create_test_metrics();
    metrics.true_peak_dbtp = level(0.3);
    let status = scorer.determine_status(&metrics);
    assert_eq!(status, QualityStatus::TruePeakRisk);

    let score = scorer.calculate_quality_score(&metrics, &status);
    assert!((85..=89).contains(&score));
}

#[test]
fn test_elite_track_can_stay_in_90_plus() {
    let scorer = QualityScorer::new();
    let metrics = create_test_metrics();
    let status = scorer.determine_status(&metrics);
    assert_eq!(status, QualityStatus::Good);

    let score = scorer.calculate_quality_score(&metrics, &status);
    assert!(score >= 90);
}

#[test]
fn test_analyze_file() {
    let scorer = QualityScorer::new();
    let metrics = create_test_metrics();
    let analysis = scorer.analyze_file(&metrics);

    assert_eq!(analysis.file_path, "test.flac");
    assert!(analysis.quality_score > 0);
    assert_eq!(analysis.status, QualityStatus::Good);
    assert_eq!(analysis.profile, "pop");
    assert!(analysis.confidence as f64 / 1_000_000.0 > 0.8);
}

#[test]
fn test_analyze_files_batch() {
    let scorer = QualityScorer::new();
    let metrics_list = vec![create_test_metrics(), create_test_metrics()];
    let analyses = scorer.analyze_files(&metrics_list);

    assert_eq!(analyses.len(), 2);
    for analysis in &analyses {
        assert!(analysis.quality_score > 0);
    }
}

#[test]
fn lossless_file_with_empty_high_band_is_suspicious() {
    let scorer = QualityScorer::new();
    let mut metrics = create_test_metrics();
    metrics.rms_db_above_18k = level(-90.0);
    let status = scorer.determine_status(&metrics);
    assert_eq!(status, QualityStatus::Suspicious);
    assert_eq!(scorer.calculate_quality_score(&metrics, &status), 25);
}

#[test]
fn lossy_file_at_128_kbps_is_low_bitrate_under_pop() {
    let scorer = QualityScorer::with_profile(ScoringProfile::Pop);
    let mut metrics = create_test_metrics();
    metrics.file_path = "album/track.mp3".to_string();
    metrics.codec_name = Some("mp3".to_string());
    metrics.container_format = Some("mp3".to_string());
    metrics.bitrate_kbps = Some(128);
    let status = scorer.determine_status(&metrics);
    assert_eq!(status, QualityStatus::LowBitrate);
    assert_eq!(scorer.calculate_quality_score(&metrics, &status), 84);
    assert_eq!(
        scorer.generate_notes(&metrics, &status),
        "评分档案: pop | 有损码率偏低 (128 kbps)。"
    );
}

#[test]
fn bitrate_at_the_threshold_is_not_low() {
    let scorer = QualityScorer::new();
    let mut metrics = create_test_metrics();
    metrics.file_path = "track.mp3".to_string();
    metrics.codec_name = Some("mp3".to_string());
    metrics.container_format = Some("mp3".to_string());
    metrics.bitrate_kbps = Some(192);
    assert_eq!(scorer.determine_status(&metrics), QualityStatus::Good);
    metrics.bitrate_kbps = Some(191);
    assert_eq!(scorer.determine_status(&metrics), QualityStatus::LowBitrate);
}

#[test]
fn two_missing_critical_fields_are_incomplete_and_capped() {
    let scorer = QualityScorer::new();
    let mut metrics = create_test_metrics();
    metrics.lra = None;
    metrics.rms_db_above_18k = None;
    assert_eq!(scorer.count_missing_critical_fields(&metrics), 2);
    let analysis = scorer.analyze_file(&metrics);
    assert_eq!(analysis.status, QualityStatus::Incomplete);
    assert!(analysis.quality_score <= 45);
    assert_eq!(analysis.quality_score, 45);
    assert_eq!(analysis.confidence, 640_000);
    assert_eq!(analysis.notes, "评分档案: pop | 关键数据缺失，分析置信度较低。");
}

#[test]
fn one_missing_critical_field_is_not_incomplete() {
    let scorer = QualityScorer::new();
    let mut metrics = create_test_metrics();
    metrics.lra = None;
    assert_eq!(scorer.count_missing_critical_fields(&metrics), 1);
    assert_eq!(scorer.determine_status(&metrics), QualityStatus::Good);
    metrics.true_peak_dbtp = None;
    assert_eq!(scorer.count_missing_critical_fields(&metrics), 1);
    metrics.peak_amplitude_db = None;
    assert_eq!(scorer.count_missing_critical_fields(&metrics), 2);
    assert_eq!(scorer.determine_status(&metrics), QualityStatus::Incomplete);
}

#[test]
fn exact_scores_of_the_reference_track() {
    let metrics = create_test_metrics();
    let pop = QualityScorer::with_profile(ScoringProfile::Pop);
    assert_eq!(pop.calculate_compliance_score(&metrics), 35_000_000);
    assert_eq!(pop.calculate_dynamics_score(&metrics), 20_000_000);
    assert_eq!(pop.calculate_spectrum_score(&metrics), 21_125_000);
    assert_eq!(pop.calculate_authenticity_score(&metrics), 10_000_000);
    assert_eq!(pop.calculate_integrity_score(&metrics), 10_000_000);
    assert_eq!(pop.analyze_file(&metrics).quality_score, 96);

    let broadcast = QualityScorer::with_profile(ScoringProfile::Broadcast);
    let analysis = broadcast.analyze_file(&metrics);
    assert_eq!(analysis.status, QualityStatus::TruePeakRisk);
    assert_eq!(broadcast.calculate_compliance_score(&metrics), 6_200_000);
    assert_eq!(broadcast.calculate_spectrum_score(&metrics), 21_925_000);
    assert_eq!(analysis.quality_score, 68);
    assert_eq!(analysis.profile, "broadcast");

    let archive = QualityScorer::with_profile(ScoringProfile::Archive);
    let analysis = archive.analyze_file(&metrics);
    assert_eq!(analysis.status, QualityStatus::LoudnessOffTarget);
    assert_eq!(analysis.quality_score, 76);
    assert_eq!(
        analysis.notes,
        "评分档案: archive | 综合响度偏离目标 (I: -9.5 LUFS, target: -18.0 LUFS)。"
    );
}

#[test]
fn interpolated_sub_scores_are_exact() {
    let scorer = QualityScorer::new();
    let mut metrics = create_test_metrics();
    metrics.integrated_loudness_lufs = level(-11.3);
    metrics.true_peak_dbtp = level(0.55);
    metrics.lra = level(12.3);
    metrics.rms_db_above_16k = level(-71.25);
    metrics.rms_db_above_18k = level(-77.5);
    assert_eq!(scorer.calculate_compliance_score(&metrics), 24_300_000);
    assert_eq!(scorer.calculate_dynamics_score(&metrics), 15_550_000);
    assert_eq!(scorer.calculate_spectrum_score(&metrics), 15_906_250);
    let status = scorer.determine_status(&metrics);
    assert_eq!(status, QualityStatus::TruePeakRisk);
    assert_eq!(scorer.calculate_quality_score(&metrics, &status), 76);
}

#[test]
fn true_peak_risk_note_and_compressed_score() {
    let scorer = QualityScorer::new();
    let mut metrics = create_test_metrics();
    metrics.true_peak_dbtp = level(0.3);
    let analysis = scorer.analyze_file(&metrics);
    assert_eq!(analysis.status, QualityStatus::TruePeakRisk);
    assert_eq!(scorer.calculate_compliance_score(&metrics), 32_555_556);
    assert_eq!(analysis.quality_score, 87);
    assert_eq!(analysis.notes, "评分档案: pop | 真峰值接近阈值 (TP: 0.30 dBTP)。");
    assert_eq!(
        scorer.compress_non_elite_high_score(92_000_000, &metrics),
        87_217_776
    );
}

#[test]
fn clipped_by_true_peak_and_by_sample_peak() {
    let scorer = QualityScorer::new();
    let mut metrics = create_test_metrics();
    metrics.true_peak_dbtp = level(1.2);
    let analysis = scorer.analyze_file(&metrics);
    assert_eq!(analysis.status, QualityStatus::Clipped);
    assert_eq!(analysis.quality_score, 81);
    assert_eq!(analysis.notes, "评分档案: pop | 真峰值过高 (TP: 1.20 dBTP)，存在削波风险。");

    metrics.true_peak_dbtp = None;
    metrics.peak_amplitude_db = level(-0.1);
    let analysis = scorer.analyze_file(&metrics);
    assert_eq!(analysis.status, QualityStatus::Clipped);
    assert_eq!(analysis.notes, "评分档案: pop | 峰值过高，存在削波风险。");
    assert!(analysis.quality_score <= 85);

    metrics.peak_amplitude_db = level(-0.5);
    let analysis = scorer.analyze_file(&metrics);
    assert_eq!(analysis.status, QualityStatus::Good);
    assert_eq!(analysis.quality_score, 86);
}

#[test]
fn flat_deductions_apply() {
    let scorer = QualityScorer::new();
    let mut metrics = create_test_metrics();
    metrics.channels = Some(1);
    let analysis = scorer.analyze_file(&metrics);
    assert_eq!(analysis.status, QualityStatus::Mono);
    assert_eq!(analysis.quality_score, 88);
    assert_eq!(analysis.notes, "评分档案: pop | 当前文件为单声道。");

    let mut metrics = create_test_metrics();
    metrics.sample_rate_hz = Some(22_050);
    let analysis = scorer.analyze_file(&metrics);
    assert_eq!(analysis.status, QualityStatus::LowSampleRate);
    assert_eq!(analysis.quality_score, 86);
    assert_eq!(analysis.notes, "评分档案: pop | 采样率偏低 (22050 Hz)。");
}

#[test]
fn dynamics_statuses_and_scores() {
    let scorer = QualityScorer::new();
    let mut metrics = create_test_metrics();
    metrics.lra = level(4.0);
    let analysis = scorer.analyze_file(&metrics);
    assert_eq!(analysis.status, QualityStatus::LowDynamic);
    assert_eq!(scorer.calculate_dynamics_score(&metrics), 8_500_000);
    assert_eq!(analysis.quality_score, 85);
    assert_eq!(analysis.notes, "评分档案: pop | 动态范围偏低 (LRA: 4.0 LU)。");

    metrics.lra = level(2.0);
    let analysis = scorer.analyze_file(&metrics);
    assert_eq!(analysis.status, QualityStatus::SeverelyCompressed);
    assert_eq!(scorer.calculate_dynamics_score(&metrics), 3_333_333);
    assert_eq!(analysis.quality_score, 79);
    assert_eq!(analysis.notes, "评分档案: pop | 动态范围极低 (LRA: 2.0 LU)。");

    metrics.lra = level(30.0);
    assert_eq!(scorer.calculate_dynamics_score(&metrics), 10_000_000);
}

#[test]
fn processed_status_for_a_weak_high_band() {
    let scorer = QualityScorer::new();
    let mut metrics = create_test_metrics();
    metrics.file_path = "track.bin".to_string();
    metrics.codec_name = None;
    metrics.container_format = None;
    metrics.rms_db_above_18k = level(-82.0);
    let analysis = scorer.analyze_file(&metrics);
    assert_eq!(analysis.status, QualityStatus::Processed);
    assert_eq!(scorer.calculate_authenticity_score(&metrics), 4_000_000);
    assert_eq!(scorer.calculate_spectrum_score(&metrics), 17_525_000);
    assert_eq!(analysis.quality_score, 87);
    assert_eq!(analysis.notes, "评分档案: pop | 高频能量偏低，可能存在软截止或后期处理。");
}

#[test]
fn silence_in_the_high_bands_is_a_value() {
    let scorer = QualityScorer::new();
    let mut metrics = create_test_metrics();
    metrics.file_path = "track.bin".to_string();
    metrics.codec_name = None;
    metrics.container_format = None;
    metrics.rms_db_above_16k = Some(Reading::NegInfinity);
    metrics.rms_db_above_18k = Some(Reading::NegInfinity);
    assert_eq!(scorer.count_missing_critical_fields(&metrics), 0);
    assert_eq!(scorer.calculate_spectrum_score(&metrics), 0);
    assert_eq!(scorer.determine_status(&metrics), QualityStatus::Processed);
    metrics.true_peak_dbtp = Some(Reading::PosInfinity);
    metrics.rms_db_above_18k = level(-75.0);
    let analysis = scorer.analyze_file(&metrics);
    assert_eq!(analysis.status, QualityStatus::Clipped);
    assert_eq!(analysis.notes, "评分档案: pop | 真峰值过高 (TP: inf dBTP)，存在削波风险。");
}

#[test]
fn integrity_and_confidence_fall_with_errors() {
    let scorer = QualityScorer::new();
    let mut metrics = create_test_metrics();
    assert_eq!(scorer.estimate_confidence(&metrics), 1_000_000);
    metrics.error_codes = vec!["E_TIMEOUT".to_string()];
    assert_eq!(scorer.calculate_integrity_score(&metrics), 9_000_000);
    assert_eq!(scorer.estimate_confidence(&metrics), 920_000);
    metrics.error_codes = vec!["E_A".to_string(), "E_B".to_string(), "E_C".to_string()];
    assert_eq!(scorer.calculate_integrity_score(&metrics), 8_000_000);
    assert_eq!(scorer.estimate_confidence(&metrics), 760_000);
    assert_eq!(scorer.analyze_file(&metrics).quality_score, 94);
    metrics.error_codes = (0..40).map(|i| format!("E_{i}")).collect();
    assert_eq!(scorer.estimate_confidence(&metrics), 100_000);
    metrics.lra = None;
    metrics.integrated_loudness_lufs = None;
    metrics.rms_db_above_18k = None;
    metrics.true_peak_dbtp = None;
    metrics.peak_amplitude_db = None;
    metrics.error_codes = vec![];
    assert_eq!(scorer.calculate_integrity_score(&metrics), 0);
    assert_eq!(scorer.estimate_confidence(&metrics), 280_000);
}

#[test]
fn score_stays_in_range_on_extreme_readings() {
    let extremes = [
        Some(Reading::NegInfinity),
        Some(Reading::PosInfinity),
        Some(Reading::Finite(i64::MIN)),
        Some(Reading::Finite(i64::MAX)),
        Some(Reading::Finite(0)),
        None,
    ];
    for profile in [ScoringProfile::Pop, ScoringProfile::Broadcast, ScoringProfile::Archive] {
        let scorer = QualityScorer::with_profile(profile);
        for a in extremes {
            for b in extremes {
                let mut metrics = create_test_metrics();
                metrics.lra = a;
                metrics.integrated_loudness_lufs = b;
                metrics.true_peak_dbtp = a;
                metrics.rms_db_above_16k = b;
                metrics.rms_db_above_18k = a;
                metrics.peak_amplitude_db = b;
                let analysis = scorer.analyze_file(&metrics);
                assert!((0..=99).contains(&analysis.quality_score));
                assert!((100_000..=1_000_000).contains(&analysis.confidence));
                match analysis.status {
                    QualityStatus::Suspicious => assert!(analysis.quality_score <= 25),
                    QualityStatus::Incomplete => assert!(analysis.quality_score <= 45),
                    QualityStatus::Clipped => assert!(analysis.quality_score <= 85),
                    QualityStatus::TruePeakRisk => assert!(analysis.quality_score <= 92),
                    _ => {}
                }
            }
        }
    }
}

#[test]
fn high_scores_outside_the_elite_bands_are_compressed() {
    let scorer = QualityScorer::new();
    let mut metrics = create_test_metrics();
    metrics.file_path = "track.mp3".to_string();
    metrics.codec_name = Some("mp3".to_string());
    metrics.container_format = Some("mp3".to_string());
    metrics.bitrate_kbps = Some(224);
    let status = scorer.determine_status(&metrics);
    assert_eq!(status, QualityStatus::Good);
    assert!(!scorer.qualifies_for_elite_90(&metrics, &status));
    assert_eq!(scorer.calculate_quality_score(&metrics, &status), 88);
    metrics.bitrate_kbps = Some(320);
    assert!(scorer.qualifies_for_elite_90(&metrics, &status));
    assert_eq!(scorer.estimate_elite_readiness(&metrics), 970_000);
    assert_eq!(scorer.calculate_quality_score(&metrics, &status), 96);
    assert!(!scorer.qualifies_for_elite_90(&metrics, &QualityStatus::Mono));
    for raw in [i64::MIN, 0, 90_000_000, 90_000_001, 95_000_000, 99_000_000, i64::MAX] {
        let compressed = scorer.compress_non_elite_high_score(raw, &metrics);
        assert!((85_000_000..=89_000_000).contains(&compressed));
    }
}

#[test]
fn elite_bands_per_profile() {
    let pop = QualityScorer::with_profile(ScoringProfile::Pop);
    assert_eq!(pop.elite_loudness_range(), (-10_500_000, -7_500_000));
    assert_eq!(pop.elite_true_peak_max(), -200_000);
    assert_eq!(pop.elite_lra_range(), (4_500_000, 11_000_000));
    let broadcast = QualityScorer::with_profile(ScoringProfile::Broadcast);
    assert_eq!(broadcast.elite_loudness_range(), (-24_000_000, -22_000_000));
    assert_eq!(broadcast.elite_true_peak_max(), -1_000_000);
    assert_eq!(broadcast.config().target_lufs, -23_000_000);
    assert_eq!(broadcast.config().bitrate_low_kbps, 192);
    let archive = QualityScorer::with_profile(ScoringProfile::Archive);
    assert_eq!(archive.elite_lra_range(), (4_000_000, 16_000_000));
    assert_eq!(archive.config().bitrate_low_kbps, 160);
    assert_eq!(archive.config().lra_poor_max, 2_500_000);
}

#[test]
fn profile_names_and_parsing() {
    assert_eq!(ScoringProfile::Pop.as_str(), "pop");
    assert_eq!(ScoringProfile::Broadcast.as_str(), "broadcast");
    assert_eq!(ScoringProfile::Archive.as_str(), "archive");
    assert_eq!(ScoringProfile::parse("  JPop\n"), Ok(ScoringProfile::Pop));
    assert_eq!(ScoringProfile::parse("apop"), Ok(ScoringProfile::Pop));
    assert_eq!(ScoringProfile::parse("BROADCAST"), Ok(ScoringProfile::Broadcast));
    assert_eq!(ScoringProfile::parse("\tArchive "), Ok(ScoringProfile::Archive));
    assert_eq!(
        ScoringProfile::parse(" rock "),
        Err("不支持的 profile:  rock ，可选: pop/broadcast/archive".to_string())
    );
    assert!(ScoringProfile::parse("").is_err());
    assert!(ScoringProfile::parse("po p").is_err());
}

#[test]
fn status_labels() {
    assert_eq!(QualityStatus::Good.to_string(), "质量良好");
    assert_eq!(QualityStatus::Incomplete.as_str(), "数据不完整");
    assert_eq!(QualityStatus::Suspicious.as_str(), "可疑 (伪造)");
    assert_eq!(QualityStatus::Processed.as_str(), "疑似处理");
    assert_eq!(QualityStatus::Clipped.as_str(), "已削波");
    assert_eq!(QualityStatus::TruePeakRisk.as_str(), "真峰值风险");
    assert_eq!(QualityStatus::LoudnessOffTarget.as_str(), "响度偏离目标");
    assert_eq!(QualityStatus::SeverelyCompressed.as_str(), "严重压缩");
    assert_eq!(QualityStatus::LowDynamic.as_str(), "低动态");
    assert_eq!(QualityStatus::LowBitrate.as_str(), "低码率");
    assert_eq!(QualityStatus::LowSampleRate.as_str(), "低采样率");
    assert_eq!(QualityStatus::Mono.as_str(), "单声道");
}

#[test]
fn notes_without_the_measurement_hold_the_profile_only() {
    let scorer = QualityScorer::new();
    let mut metrics = create_test_metrics();
    metrics.true_peak_dbtp = None;
    metrics.bitrate_kbps = None;
    assert_eq!(scorer.generate_notes(&metrics, &QualityStatus::TruePeakRisk), "评分档案: pop");
    assert_eq!(scorer.generate_notes(&metrics, &QualityStatus::LowBitrate), "评分档案: pop");
    assert_eq!(
        scorer.generate_notes(&metrics, &QualityStatus::Good),
        "评分档案: pop | 关键技术指标在目标范围内。"
    );
    assert_eq!(
        scorer.generate_notes(&metrics, &QualityStatus::Suspicious),
        "评分档案: pop | 无损容器下高频能量异常，疑似有损升频来源。"
    );
}

#[test]
fn analyses_keep_the_order_of_the_records() {
    let scorer = QualityScorer::default();
    let mut second = create_test_metrics();
    second.file_path = "b.flac".to_string();
    second.channels = Some(1);
    let list = vec![create_test_metrics(), second];
    let analyses = scorer.analyze_files(&list);
    assert_eq!(analyses[0].file_path, "test.flac");
    assert_eq!(analyses[1].file_path, "b.flac");
    assert_eq!(analyses[1].status, QualityStatus::Mono);
    assert_eq!(analyses[0], scorer.analyze_file(&list[0]));
    assert_eq!(analyses[1].metrics, list[1]);
    assert!(scorer.analyze_files(&vec![]).is_empty());
}
