use audio_quality::analyzer::codes::{
    code_of_failure, compare_texts, extract_error_code, insert_code, TextOrder,
};
use audio_quality::analyzer::ffmpeg::{
    band_rms_from_matches, highpass_args, loudness_args, loudness_from_matches,
    measurement_from_matches, parse_band_rms, parse_loudness, parse_stats, probe_args,
    process_file, stats_args, stats_from_matches, LoudnessReport, Operation, OperationOutcomes,
    ReportPattern, BAND_16K_HZ, BAND_18K_HZ, BAND_20K_HZ,
};
use audio_quality::analyzer::metrics::AudioStats;
use audio_quality::analyzer::probe::{
    parse_probe, probe_from_fields, JsonField, ProbeField, ProbeInfo,
};
use audio_quality::analyzer::reading::Reading;
use audio_quality::analyzer::token::{parse_measurement, parse_token, Token};

const LOUDNESS_REPORT: &str = "\
[Parsed_ebur128_0 @ 0x5581] t: 0.1        TARGET:-23 LUFS    M: -18.2 S:-120.7     I: -18.2 LUFS       LRA:   0.0 LU  FTPK: -3.1 -3.4 dBFS  TPK: -3.1 -3.4 dBFS
[Parsed_ebur128_0 @ 0x5581] t: 0.2        TARGET:-23 LUFS    M: -17.9 S:-120.7     I: -18.0 LUFS       LRA:   1.2 LU  FTPK: -2.9 -3.0 dBFS  TPK: -2.9 -3.0 dBFS
[Parsed_ebur128_0 @ 0x5581] Summary:

  Integrated loudness:
    I:          -9.5 LUFS
    Threshold: -19.8 LUFS

  Loudness range:
    LRA:         8.5 LU
    Threshold: -29.8 LUFS
    LRA low:   -14.2 LUFS
    LRA high:   -5.7 LUFS

  True peak:
    Peak:       -1.2 dBFS
";

const STREAMING_ONLY_REPORT: &str = "\
[Parsed_ebur128_0 @ 0x5581] t: 0.1  M: -18.2 S:-120.7  I: -18.2 LUFS  LRA:   0.0 LU  FTPK: -3.1 -3.4 dBFS  TPK: -3.1 -3.4 dBFS
[Parsed_ebur128_0 @ 0x5581] t: 0.2  M: -17.9 S:-120.7  I: -18.0 LUFS  LRA:   1.2 LU  FTPK: -2.9 -3.0 dBFS  TPK: -2.9 -3.0 dBFS
";

const STATS_REPORT: &str = "\
[Parsed_astats_0 @ 0x7f1] Channel: 1
[Parsed_astats_0 @ 0x7f1] Peak level dB: -2.500000
[Parsed_astats_0 @ 0x7f1] RMS level dB: -20.000000
[Parsed_astats_0 @ 0x7f1] Overall
[Parsed_astats_0 @ 0x7f1] DC offset: 0.000012
[Parsed_astats_0 @ 0x7f1] Peak level dB: -1.500000
[Parsed_astats_0 @ 0x7f1] RMS peak dB: -9.123456
[Parsed_astats_0 @ 0x7f1] RMS level dB: -18.000000
";

const HIGHPASS_REPORT: &str = "\
[Parsed_astats_1 @ 0x7f2] Channel: 1
[Parsed_astats_1 @ 0x7f2] RMS level dB: -70.000000
[Parsed_astats_1 @ 0x7f2] Overall
[Parsed_astats_1 @ 0x7f2] Peak level dB: -40.250000
[Parsed_astats_1 @ 0x7f2] RMS level dB: -75.125000
";

const PROBE_DOCUMENT: &str = r#"{
    "streams": [
        {
            "codec_name": "flac",
            "sample_rate": "44100",
            "channels": 2,
            "bit_rate": "912345"
        }
    ],
    "format": {
        "format_name": "flac",
        "duration": "215.306667",
        "bit_rate": "915000"
    }
}"#;

fn finite(micros: i64) -> Option<Reading> {
    Some(Reading::Finite(micros))
}

fn one_match(groups: &[Option<&str>]) -> Option<Vec<Vec<Option<String>>>> {
    Some(vec![groups.iter().map(|g| g.map(|s| s.to_string())).collect()])
}

fn tokens(list: &[&str]) -> Option<Vec<Vec<Option<String>>>> {
    Some(
        list.iter()
            .map(|t| vec![Some(format!("X: {t}")), Some(t.to_string())])
            .collect(),
    )
}

fn all_fine() -> OperationOutcomes {
    OperationOutcomes {
        loudness: Ok(LoudnessReport {
            lra: finite(8_500_000),
            integrated_loudness_lufs: finite(-9_500_000),
            true_peak_dbtp: finite(-1_200_000),
        }),
        stats: Ok(AudioStats { peak_db: finite(-1_500_000), rms_db: finite(-18_000_000) }),
        rms_16k: Ok(finite(-60_000_000)),
        rms_18k: Ok(finite(-75_000_000)),
        rms_20k: Ok(finite(-85_000_000)),
        probe: Ok(ProbeInfo {
            sample_rate_hz: Some(44_100),
            bitrate_kbps: Some(900),
            channels: Some(2),
            codec_name: Some("flac".to_string()),
            container_format: Some("flac".to_string()),
            duration_seconds: finite(60_000_000),
        }),
    }
}

#[test]
fn numeric_tokens() {
    assert_eq!(parse_token("-9.5"), Token::Value(Reading::Finite(-9_500_000)));
    assert_eq!(parse_token("+0.3"), Token::Value(Reading::Finite(300_000)));
    assert_eq!(parse_token("12"), Token::Value(Reading::Finite(12_000_000)));
    assert_eq!(parse_token("12."), Token::Value(Reading::Finite(12_000_000)));
    assert_eq!(parse_token(".5"), Token::Value(Reading::Finite(500_000)));
    assert_eq!(parse_token("-.25"), Token::Value(Reading::Finite(-250_000)));
    assert_eq!(parse_token("-18.123456"), Token::Value(Reading::Finite(-18_123_456)));
    assert_eq!(parse_token("0.1234569"), Token::Value(Reading::Finite(123_456)));
    assert_eq!(parse_token("-0.0000009"), Token::Value(Reading::Finite(0)));
    assert_eq!(parse_token("007"), Token::Value(Reading::Finite(7_000_000)));
    assert_eq!(
        parse_token("9000000000000.999999"),
        Token::Value(Reading::Finite(9_000_000_000_000_999_999))
    );
    assert_eq!(parse_token("9000000000001"), Token::Value(Reading::PosInfinity));
    assert_eq!(
        parse_token("-99999999999999999999999999999999999999999999"),
        Token::Value(Reading::NegInfinity)
    );
}

#[test]
fn infinity_is_a_value_and_nan_is_absent() {
    assert_eq!(parse_token("inf"), Token::Value(Reading::PosInfinity));
    assert_eq!(parse_token("+inf"), Token::Value(Reading::PosInfinity));
    assert_eq!(parse_token("-inf"), Token::Value(Reading::NegInfinity));
    assert_eq!(parse_token("-Infinity"), Token::Value(Reading::NegInfinity));
    assert_eq!(parse_token("nan"), Token::NotANumber);
    assert_eq!(parse_token("-NaN"), Token::NotANumber);
    assert_eq!(parse_measurement("-inf"), Ok(Some(Reading::NegInfinity)));
    assert_eq!(parse_measurement("nan"), Ok(None));
    assert_eq!(parse_measurement("1.5"), Ok(Some(Reading::Finite(1_500_000))));
    assert_eq!(parse_measurement("abc"), Err(()));
}

#[test]
fn invalid_tokens() {
    for token in ["", "-", "+", ".", "-.", "1.2.3", "--1", "1-", "1e5", "1,5", " 1", "1 ", "in", "infinit", "٣"] {
        assert_eq!(parse_token(token), Token::Invalid, "{token:?}");
    }
}

#[test]
fn error_codes_in_messages() {
    assert_eq!(
        extract_error_code("E_TIMEOUT: command timed out after 30000 ms"),
        Some("E_TIMEOUT".to_string())
    );
    assert_eq!(
        extract_error_code("failed (E_PARSE_LRA) then E_OTHER"),
        Some("E_PARSE_LRA".to_string())
    );
    assert_eq!(extract_error_code("code E_RMS_20K"), Some("E_RMS_20K".to_string()));
    assert_eq!(extract_error_code("E_Ab"), Some("E_A".to_string()));
    assert_eq!(extract_error_code("E_"), None);
    assert_eq!(extract_error_code("E_x"), None);
    assert_eq!(extract_error_code("FILE_NAME is wrong"), None);
    assert_eq!(extract_error_code("nameE_X"), None);
    assert_eq!(extract_error_code("_E_X"), None);
    assert_eq!(extract_error_code("é E_É E_2"), Some("E_2".to_string()));
    assert_eq!(extract_error_code(""), None);
    assert_eq!(code_of_failure("no code here", "E_PROBE"), "E_PROBE");
    assert_eq!(code_of_failure("E_EXIT: status 1", "E_PROBE"), "E_EXIT");
}

#[test]
fn codes_are_kept_sorted_and_unique() {
    let mut codes: Vec<String> = Vec::new();
    for code in ["E_STATS", "E_EXIT", "E_TIMEOUT", "E_EXIT", "E_A", "E_STATS", "E_EXIT_2", "E_"] {
        insert_code(&mut codes, code.to_string());
    }
    assert_eq!(codes, vec!["E_", "E_A", "E_EXIT", "E_EXIT_2", "E_STATS", "E_TIMEOUT"]);
    let chars = |s: &str| s.chars().collect::<Vec<char>>();
    assert_eq!(compare_texts(&chars("a"), &chars("b")), TextOrder::Before);
    assert_eq!(compare_texts(&chars("b"), &chars("a")), TextOrder::After);
    assert_eq!(compare_texts(&chars("ab"), &chars("ab")), TextOrder::Same);
    assert_eq!(compare_texts(&chars("ab"), &chars("abc")), TextOrder::Before);
    assert_eq!(compare_texts(&chars(""), &chars("")), TextOrder::Same);
    assert_eq!(compare_texts(&chars("z"), &chars("é")), TextOrder::Before);
}

#[test]
fn loudness_report_is_read_from_the_summary() {
    assert_eq!(
        parse_loudness(LOUDNESS_REPORT),
        Ok(LoudnessReport {
            lra: finite(8_500_000),
            integrated_loudness_lufs: finite(-9_500_000),
            true_peak_dbtp: finite(-1_200_000),
        })
    );
}

#[test]
fn loudness_report_falls_back_to_the_last_streaming_line() {
    assert_eq!(
        parse_loudness(STREAMING_ONLY_REPORT),
        Ok(LoudnessReport {
            lra: finite(1_200_000),
            integrated_loudness_lufs: finite(-18_000_000),
            true_peak_dbtp: finite(-2_900_000),
        })
    );
}

#[test]
fn loudness_report_without_a_loudness_range_fails() {
    assert_eq!(
        parse_loudness("Conversion failed!"),
        Err("E_PARSE_LRA: the loudness report holds no loudness range".to_string())
    );
    assert_eq!(
        parse_loudness("    LRA:         7.0 LU\n"),
        Ok(LoudnessReport {
            lra: finite(7_000_000),
            integrated_loudness_lufs: None,
            true_peak_dbtp: None,
        })
    );
    assert_eq!(
        parse_loudness("    I:  -inf LUFS\n    LRA:  nan LU\n    Peak:  -inf dBFS\n"),
        Ok(LoudnessReport {
            lra: None,
            integrated_loudness_lufs: Some(Reading::NegInfinity),
            true_peak_dbtp: Some(Reading::NegInfinity),
        })
    );
}

#[test]
fn measurements_from_given_matches() {
    let none: Option<Vec<Vec<Option<String>>>> = None;
    assert_eq!(measurement_from_matches(&tokens(&["1.5"]), &tokens(&["2.5"])), Ok(finite(1_500_000)));
    assert_eq!(measurement_from_matches(&tokens(&["nan"]), &tokens(&["2.5"])), Ok(None));
    assert_eq!(measurement_from_matches(&tokens(&["1.2.3"]), &tokens(&["2.5"])), Ok(finite(2_500_000)));
    assert_eq!(
        measurement_from_matches(&tokens(&["1.5", "9.9"]), &tokens(&["2.5"])),
        Ok(finite(1_500_000))
    );
    assert_eq!(
        measurement_from_matches(&tokens(&[]), &tokens(&["2.5", "3.5", "x", ".."])),
        Ok(finite(3_500_000))
    );
    assert_eq!(measurement_from_matches(&none, &tokens(&["2.5", "nan"])), Ok(None));
    assert_eq!(measurement_from_matches(&none, &tokens(&["x"])), Err(()));
    assert_eq!(measurement_from_matches(&none, &tokens(&[])), Err(()));
    assert_eq!(measurement_from_matches(&none, &none), Err(()));
    assert_eq!(measurement_from_matches(&one_match(&[Some("w")]), &one_match(&[Some("w"), None])), Err(()));
    assert_eq!(
        loudness_from_matches(&none, &tokens(&["4.0"]), &none, &none, &tokens(&["-inf"]), &none),
        Ok(LoudnessReport {
            lra: finite(4_000_000),
            integrated_loudness_lufs: None,
            true_peak_dbtp: Some(Reading::NegInfinity),
        })
    );
    assert_eq!(
        loudness_from_matches(&none, &none, &tokens(&["4.0"]), &none, &none, &none),
        Err("E_PARSE_LRA: the loudness report holds no loudness range".to_string())
    );
}

#[test]
fn overall_statistics_are_read_from_the_overall_block() {
    assert_eq!(
        parse_stats(STATS_REPORT),
        Ok(AudioStats { peak_db: finite(-1_500_000), rms_db: finite(-18_000_000) })
    );
    assert_eq!(
        parse_stats("[Parsed_astats_0 @ 0x1] Overall\nPeak level dB: -inf\nRMS level dB: nan\n"),
        Ok(AudioStats { peak_db: Some(Reading::NegInfinity), rms_db: None })
    );
    assert_eq!(
        parse_stats(HIGHPASS_REPORT),
        Err("the statistics report holds no overall peak and RMS levels".to_string())
    );
    assert_eq!(
        stats_from_matches(&one_match(&[Some("all"), Some("-1.5"), Some("1.2.3")])),
        Ok(AudioStats { peak_db: finite(-1_500_000), rms_db: None })
    );
    assert_eq!(
        stats_from_matches(&one_match(&[Some("all")])),
        Ok(AudioStats { peak_db: None, rms_db: None })
    );
    assert!(stats_from_matches(&Some(vec![])).is_err());
    assert!(stats_from_matches(&None).is_err());
}

#[test]
fn band_rms_is_read_from_the_filtered_overall_block() {
    assert_eq!(parse_band_rms(HIGHPASS_REPORT), Ok(finite(-75_125_000)));
    assert_eq!(
        parse_band_rms("[Parsed_astats_1 @ 0x1] Overall\nRMS level dB: -inf\n"),
        Ok(Some(Reading::NegInfinity))
    );
    assert_eq!(parse_band_rms("[Parsed_astats_1 @ 0x1] Overall\nRMS level dB: nan\n"), Ok(None));
    assert_eq!(
        parse_band_rms(STATS_REPORT),
        Err("the band-limited statistics report holds no RMS level".to_string())
    );
    assert_eq!(band_rms_from_matches(&one_match(&[Some("all"), Some("-70")])), Ok(finite(-70_000_000)));
    assert!(band_rms_from_matches(&one_match(&[Some("all"), Some("1.2.3")])).is_err());
    assert!(band_rms_from_matches(&one_match(&[Some("all"), None])).is_err());
    assert!(band_rms_from_matches(&None).is_err());
}

#[test]
fn searches_give_all_matches_with_their_groups() {
    let found = ReportPattern::StreamingLra.find_in("LRA: 1.0 LU ... LRA:2.5 LU").expect("pattern");
    assert_eq!(
        found,
        vec![
            vec![Some("LRA: 1.0".to_string()), Some("1.0".to_string())],
            vec![Some("LRA:2.5".to_string()), Some("2.5".to_string())],
        ]
    );
    assert_eq!(ReportPattern::StreamingTruePeak.find_in("FTPK: -1.0"), Some(vec![]));
    for pattern in [
        ReportPattern::SummaryLra,
        ReportPattern::StreamingLra,
        ReportPattern::SummaryLoudness,
        ReportPattern::StreamingLoudness,
        ReportPattern::SummaryTruePeak,
        ReportPattern::StreamingTruePeak,
        ReportPattern::OverallStats,
        ReportPattern::HighpassRms,
    ] {
        assert_eq!(pattern.find_in(""), Some(vec![]));
    }
}

#[test]
fn probe_document_is_read() {
    assert_eq!(
        parse_probe(PROBE_DOCUMENT),
        Ok(ProbeInfo {
            sample_rate_hz: Some(44_100),
            bitrate_kbps: Some(912),
            channels: Some(2),
            codec_name: Some("flac".to_string()),
            container_format: Some("flac".to_string()),
            duration_seconds: finite(215_306_667),
        })
    );
    assert_eq!(
        parse_probe(r#"{"streams":[{"codec_name":"mp3"}],"format":{"bit_rate":"127500"}}"#),
        Ok(ProbeInfo {
            sample_rate_hz: None,
            bitrate_kbps: Some(128),
            channels: None,
            codec_name: Some("mp3".to_string()),
            container_format: None,
            duration_seconds: None,
        })
    );
    assert_eq!(
        parse_probe("{}"),
        Ok(ProbeInfo {
            sample_rate_hz: None,
            bitrate_kbps: None,
            channels: None,
            codec_name: None,
            container_format: None,
            duration_seconds: None,
        })
    );
    assert_eq!(
        parse_probe("not json"),
        Err("the probe's output is not a JSON document".to_string())
    );
    assert_eq!(parse_probe(""), Err("the probe's output is not a JSON document".to_string()));
}

#[test]
fn probe_fields_are_told_apart() {
    assert_eq!(ProbeField::CodecName.read(PROBE_DOCUMENT), JsonField::Text("flac".to_string()));
    assert_eq!(ProbeField::Channels.read(PROBE_DOCUMENT), JsonField::Whole(2));
    assert_eq!(ProbeField::Duration.read("{\"format\":{}}"), JsonField::Missing);
    assert_eq!(ProbeField::Duration.read("{\"format\":{\"duration\":-1}}"), JsonField::Other);
    assert_eq!(ProbeField::Duration.read("{\"format\":{\"duration\":1.5}}"), JsonField::Other);
    assert_eq!(ProbeField::Duration.read("{\"format\":{\"duration\":null}}"), JsonField::Other);
    assert_eq!(ProbeField::Duration.read("{"), JsonField::Malformed);
    assert_eq!(ProbeField::StreamBitRate.as_str(), "/streams/0/bit_rate");
}

#[test]
fn probe_from_given_fields() {
    let text = |s: &str| JsonField::Text(s.to_string());
    let probe = probe_from_fields(
        &JsonField::Missing,
        &JsonField::Whole(48_000),
        &text("2"),
        &text("abc"),
        &JsonField::Other,
        &JsonField::Whole(320_499),
        &JsonField::Whole(90),
    );
    assert_eq!(
        probe,
        Ok(ProbeInfo {
            sample_rate_hz: Some(48_000),
            bitrate_kbps: Some(320),
            channels: Some(2),
            codec_name: None,
            container_format: None,
            duration_seconds: finite(90_000_000),
        })
    );
    let probe = probe_from_fields(
        &text("aac"),
        &text("4294967296"),
        &JsonField::Whole(u64::MAX),
        &JsonField::Whole(u64::MAX),
        &text("mov,mp4"),
        &text("1234567890123456789"),
        &text("nan"),
    );
    assert_eq!(
        probe,
        Ok(ProbeInfo {
            sample_rate_hz: None,
            bitrate_kbps: None,
            channels: None,
            codec_name: Some("aac".to_string()),
            container_format: Some("mov,mp4".to_string()),
            duration_seconds: None,
        })
    );
    let probe = probe_from_fields(
        &text("aac"),
        &text("4294967295"),
        &text(""),
        &text("4294967295499"),
        &text(""),
        &text("1"),
        &text("-inf"),
    );
    assert_eq!(
        probe,
        Ok(ProbeInfo {
            sample_rate_hz: Some(u32::MAX),
            bitrate_kbps: Some(u32::MAX),
            channels: None,
            codec_name: Some("aac".to_string()),
            container_format: Some(String::new()),
            duration_seconds: Some(Reading::NegInfinity),
        })
    );
    assert!(probe_from_fields(
        &JsonField::Malformed,
        &JsonField::Malformed,
        &JsonField::Malformed,
        &JsonField::Malformed,
        &JsonField::Malformed,
        &JsonField::Malformed,
        &JsonField::Malformed,
    )
    .is_err());
}

#[test]
fn arguments_of_the_invocations() {
    assert_eq!(
        loudness_args("/m/a b.flac"),
        vec!["-i", "/m/a b.flac", "-filter_complex", "ebur128=peak=true", "-f", "null", "-"]
    );
    assert_eq!(
        stats_args("a.flac"),
        vec!["-i", "a.flac", "-filter:a", "astats=metadata=1", "-f", "null", "-"]
    );
    assert_eq!(
        highpass_args("a.flac", BAND_18K_HZ),
        vec!["-i", "a.flac", "-filter:a", "highpass=f=18000,astats=metadata=1", "-f", "null", "-"]
    );
    assert_eq!(highpass_args("a", BAND_16K_HZ)[3], "highpass=f=16000,astats=metadata=1");
    assert_eq!(highpass_args("a", BAND_20K_HZ)[3], "highpass=f=20000,astats=metadata=1");
    assert_eq!(
        probe_args("a.flac"),
        vec![
            "-v",
            "error",
            "-select_streams",
            "a:0",
            "-show_entries",
            "stream=codec_name,sample_rate,channels,bit_rate:format=format_name,bit_rate,duration",
            "-of",
            "json",
            "a.flac",
        ]
    );
}

#[test]
fn a_record_from_six_successes() {
    let metrics = process_file("a.flac".to_string(), 10, 1234, Some("ff".to_string()), all_fine());
    assert_eq!(metrics.file_path, "a.flac");
    assert_eq!(metrics.file_size_bytes, 10);
    assert_eq!(metrics.processing_time_ms, 1234);
    assert_eq!(metrics.content_sha256, Some("ff".to_string()));
    assert!(!metrics.cache_hit);
    assert_eq!(metrics.lra, finite(8_500_000));
    assert_eq!(metrics.integrated_loudness_lufs, finite(-9_500_000));
    assert_eq!(metrics.true_peak_dbtp, finite(-1_200_000));
    assert_eq!(metrics.peak_amplitude_db, finite(-1_500_000));
    assert_eq!(metrics.overall_rms_db, finite(-18_000_000));
    assert_eq!(metrics.rms_db_above_16k, finite(-60_000_000));
    assert_eq!(metrics.rms_db_above_18k, finite(-75_000_000));
    assert_eq!(metrics.rms_db_above_20k, finite(-85_000_000));
    assert_eq!(metrics.sample_rate_hz, Some(44_100));
    assert_eq!(metrics.bitrate_kbps, Some(900));
    assert_eq!(metrics.channels, Some(2));
    assert_eq!(metrics.codec_name, Some("flac".to_string()));
    assert_eq!(metrics.container_format, Some("flac".to_string()));
    assert_eq!(metrics.duration_seconds, finite(60_000_000));
    assert!(metrics.error_codes.is_empty());
}

#[test]
fn one_failed_operation_leaves_the_others_untouched() {
    let mut outcomes = all_fine();
    outcomes.rms_20k = Err("the band-limited statistics report holds no RMS level".to_string());
    let expected = process_file("a.flac".to_string(), 10, 5, None, all_fine());
    let metrics = process_file("a.flac".to_string(), 10, 5, None, outcomes);
    assert_eq!(metrics.rms_db_above_20k, None);
    assert_eq!(metrics.error_codes, vec!["E_RMS_20K"]);
    let mut restored = metrics.clone();
    restored.rms_db_above_20k = finite(-85_000_000);
    restored.error_codes = vec![];
    assert_eq!(restored, expected);
}

#[test]
fn failures_are_listed_by_code_sorted_and_once() {
    let outcomes = OperationOutcomes {
        loudness: Err("E_TIMEOUT: command timed out after 30000 ms".to_string()),
        stats: Err("the statistics report holds no overall peak and RMS levels".to_string()),
        rms_16k: Err("E_TIMEOUT: command timed out after 30000 ms".to_string()),
        rms_18k: Err("E_EXIT: command failed with status: 1. Stderr: ".to_string()),
        rms_20k: Err(String::new()),
        probe: Err("the probe's output is not a JSON document".to_string()),
    };
    let metrics = process_file("a.flac".to_string(), 10, 5, None, outcomes);
    assert_eq!(
        metrics.error_codes,
        vec!["E_EXIT", "E_PROBE", "E_RMS_20K", "E_STATS", "E_TIMEOUT"]
    );
    assert_eq!(metrics.lra, None);
    assert_eq!(metrics.integrated_loudness_lufs, None);
    assert_eq!(metrics.true_peak_dbtp, None);
    assert_eq!(metrics.peak_amplitude_db, None);
    assert_eq!(metrics.overall_rms_db, None);
    assert_eq!(metrics.rms_db_above_16k, None);
    assert_eq!(metrics.rms_db_above_18k, None);
    assert_eq!(metrics.rms_db_above_20k, None);
    assert_eq!(metrics.sample_rate_hz, None);
    assert_eq!(metrics.codec_name, None);
    assert_eq!(metrics.duration_seconds, None);
    assert_eq!(Operation::Loudness.fallback_code(), "E_LOUDNESS");
    assert_eq!(Operation::OverallStats.fallback_code(), "E_STATS");
    assert_eq!(Operation::Band16k.fallback_code(), "E_RMS_16K");
    assert_eq!(Operation::Band18k.fallback_code(), "E_RMS_18K");
    assert_eq!(Operation::Band20k.fallback_code(), "E_RMS_20K");
    assert_eq!(Operation::Probe.fallback_code(), "E_PROBE");
}
