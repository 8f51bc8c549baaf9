use audio_quality::analyzer::metrics::FileMetrics;
use audio_quality::analyzer::reading::Reading;
use audio_quality::analyzer::report::{
    CsvRecord, RankedFile, ReportGenerator, ScoreStatistics, StatusCount,
};
use audio_quality::analyzer::scoring::{QualityAnalysis, QualityStatus};

fn level(value: f64) -> Option<Reading> {
    Some(Reading::Finite((value * 1_000_000.0).round() as i64))
}

fn create_test_analysis() -> QualityAnalysis {
    let metrics = FileMetrics {
        file_path: "test.flac".to_string(),
        file_size_bytes: 1000000,
        lra: level(8.5),
        peak_amplitude_db: level(-3.0),
        overall_rms_db: level(-18.0),
        rms_db_above_16k: level(-60.0),
        rms_db_above_18k: level(-75.0),
        rms_db_above_20k: level(-85.0),
        processing_time_ms: 1000,
        ..FileMetrics::default()
    };

    QualityAnalysis {
        file_path: "test.flac".to_string(),
        quality_score: 85,
        status: QualityStatus::Good,
        notes: "未发现明显的硬性技术问题。".to_string(),
        profile: "pop".to_string(),
        confidence: 1_000_000,
        metrics,
    }
}

fn scored(path: &str, score: i32, status: QualityStatus) -> QualityAnalysis {
    let mut analysis = create_test_analysis();
    analysis.file_path = path.to_string();
    analysis.quality_score = score;
    analysis.status = status;
    analysis
}

#[test]
fn test_report_generator_creation() {
    let generator = ReportGenerator::new();
    // Just test that it can be created
    assert_eq!(std::mem::size_of_val(&generator), 0); // Zero-sized struct
}

#[test]
fn test_csv_record_from_analysis() {
    let analysis = create_test_analysis();
    let csv_record = CsvRecord::from_analysis(&analysis);

    assert_eq!(csv_record.quality_score, 85);
    assert_eq!(csv_record.status, "质量良好");
    assert_eq!(csv_record.file_path, "test.flac");
    assert_eq!(csv_record.lra, level(8.5));
    assert_eq!(csv_record.peak_amplitude_db, level(-3.0));
}

#[test]
fn test_display_summary() {
    let generator = ReportGenerator::new();
    let analyses = vec![create_test_analysis()];

    let summary = generator.display_summary(&analyses).expect("a summary");
    assert_eq!(
        summary.distribution,
        vec![StatusCount { status: QualityStatus::Good, count: 1, share_permille: 1000 }]
    );
    assert_eq!(summary.top.len(), 1);
    assert_eq!(summary.statistics.total_files, 1);
}

#[test]
fn test_display_summary_empty() {
    let generator = ReportGenerator::new();
    let analyses = vec![];

    assert!(generator.display_summary(&analyses).is_none());
}

#[test]
fn rows_are_ranked_by_score_and_stable() {
    let generator = ReportGenerator::default();
    let analyses = vec![
        scored("a", 50, QualityStatus::Mono),
        scored("b", 90, QualityStatus::Good),
        scored("c", 50, QualityStatus::Clipped),
        scored("d", 99, QualityStatus::Good),
        scored("e", 0, QualityStatus::Incomplete),
        scored("f", 90, QualityStatus::Good),
    ];
    assert_eq!(generator.rank_by_score(&analyses), vec![3, 1, 5, 0, 2, 4]);
    let rows = generator.generate_csv_report(&analyses);
    let paths: Vec<&str> = rows.iter().map(|r| r.file_path.as_str()).collect();
    assert_eq!(paths, vec!["d", "b", "f", "a", "c", "e"]);
    assert_eq!(rows[3], CsvRecord::from_analysis(&analyses[0]));
    assert_eq!(rows[4].status, "已削波");
    assert!(generator.generate_csv_report(&vec![]).is_empty());
    assert!(generator.rank_by_score(&vec![]).is_empty());
}

#[test]
fn top_rankings_show_the_file_names() {
    let generator = ReportGenerator::new();
    let analyses = vec![
        scored("/music/one.flac", 50, QualityStatus::Mono),
        scored("C:\\music\\two.mp3", 90, QualityStatus::Good),
        scored("/music/dir/", 70, QualityStatus::Clipped),
    ];
    let top = generator.top_rankings(&analyses, 10);
    assert_eq!(
        top,
        vec![
            RankedFile {
                rank: 1,
                quality_score: 90,
                status: QualityStatus::Good,
                file_name: "two.mp3".to_string(),
            },
            RankedFile {
                rank: 2,
                quality_score: 70,
                status: QualityStatus::Clipped,
                file_name: "Unknown".to_string(),
            },
            RankedFile {
                rank: 3,
                quality_score: 50,
                status: QualityStatus::Mono,
                file_name: "one.flac".to_string(),
            },
        ]
    );
    assert_eq!(generator.top_rankings(&analyses, 2).len(), 2);
    assert_eq!(generator.top_rankings(&analyses, 0).len(), 0);
    assert_eq!(ReportGenerator::file_name_of("plain"), "plain");
    assert_eq!(ReportGenerator::file_name_of(""), "Unknown");
}

#[test]
fn status_distribution_counts_and_shares() {
    let generator = ReportGenerator::new();
    let analyses = vec![
        scored("a", 50, QualityStatus::Mono),
        scored("b", 90, QualityStatus::Good),
        scored("c", 50, QualityStatus::Good),
    ];
    assert_eq!(
        generator.status_distribution(&analyses),
        vec![
            StatusCount { status: QualityStatus::Good, count: 2, share_permille: 667 },
            StatusCount { status: QualityStatus::Mono, count: 1, share_permille: 333 },
        ]
    );
    assert_eq!(ReportGenerator::count_of(&analyses, QualityStatus::Good), 2);
    assert_eq!(ReportGenerator::count_of(&analyses, QualityStatus::Clipped), 0);
    assert!(generator.status_distribution(&vec![]).is_empty());
}

#[test]
fn score_statistics_of_a_report() {
    let generator = ReportGenerator::new();
    assert_eq!(generator.score_statistics(&vec![]), None);
    let analyses = vec![
        scored("a", 50, QualityStatus::Mono),
        scored("b", 90, QualityStatus::Good),
        scored("c", 51, QualityStatus::Good),
    ];
    assert_eq!(
        generator.score_statistics(&analyses),
        Some(ScoreStatistics { total_files: 3, average_tenths: 637, max_score: 90, min_score: 50 })
    );
    let negative = vec![scored("a", -1, QualityStatus::Mono), scored("b", -2, QualityStatus::Good)];
    assert_eq!(
        generator.score_statistics(&negative),
        Some(ScoreStatistics { total_files: 2, average_tenths: -15, max_score: -1, min_score: -2 })
    );
}
