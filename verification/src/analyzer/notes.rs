//! The explanatory notes of an analysis: the profile, then one sentence
//! that names the measurement behind the status.

use vstd::prelude::*;
use vstd::string::*;
use crate::analyzer::decimal::{
    decimal_digits, push_decimal, push_reading, reading_text, Precision,
};
use crate::analyzer::metrics::{text_of, FileMetrics, MetricsView};
use crate::analyzer::profile::ProfileConfig;
use crate::analyzer::reading::Reading;
use crate::analyzer::scoring::{QualityScorer, QualityStatus, ScoringProfile};

verus! {

/// The sentence of a status that names no measurement.
pub open spec fn fixed_sentence(status: QualityStatus) -> Option<Seq<char>> {
    match status {
        QualityStatus::Incomplete => Some("关键数据缺失，分析置信度较低。"@),
        QualityStatus::Suspicious => Some("无损容器下高频能量异常，疑似有损升频来源。"@),
        QualityStatus::Processed => Some("高频能量偏低，可能存在软截止或后期处理。"@),
        QualityStatus::Mono => Some("当前文件为单声道。"@),
        QualityStatus::Good => Some("关键技术指标在目标范围内。"@),
        _ => None,
    }
}

/// The sentence of a status that names a measurement, while that
/// measurement is present. Clipped has a sentence without the true peak too.
pub open spec fn measured_sentence(cfg: ProfileConfig, m: MetricsView, status: QualityStatus) -> Option<
    Seq<char>,
> {
    match status {
        QualityStatus::Clipped => match m.true_peak_dbtp {
            Some(tp) => Some(
                "真峰值过高 (TP: "@ + reading_text(tp, Precision::Hundredths)
                    + " dBTP)，存在削波风险。"@,
            ),
            None => Some("峰值过高，存在削波风险。"@),
        },
        QualityStatus::TruePeakRisk => match m.true_peak_dbtp {
            Some(tp) => Some(
                "真峰值接近阈值 (TP: "@ + reading_text(tp, Precision::Hundredths) + " dBTP)。"@,
            ),
            None => None,
        },
        QualityStatus::LoudnessOffTarget => match m.integrated_loudness_lufs {
            Some(i) => Some(
                "综合响度偏离目标 (I: "@ + reading_text(i, Precision::Tenths) + " LUFS, target: "@
                    + reading_text(Reading::Finite(cfg.target_lufs), Precision::Tenths)
                    + " LUFS)。"@,
            ),
            None => None,
        },
        QualityStatus::SeverelyCompressed => match m.lra {
            Some(lra) => Some(
                "动态范围极低 (LRA: "@ + reading_text(lra, Precision::Tenths) + " LU)。"@,
            ),
            None => None,
        },
        QualityStatus::LowDynamic => match m.lra {
            Some(lra) => Some(
                "动态范围偏低 (LRA: "@ + reading_text(lra, Precision::Tenths) + " LU)。"@,
            ),
            None => None,
        },
        QualityStatus::LowBitrate => match m.bitrate_kbps {
            Some(bitrate) => Some("有损码率偏低 ("@ + decimal_digits(bitrate as nat) + " kbps)。"@),
            None => None,
        },
        QualityStatus::LowSampleRate => match m.sample_rate_hz {
            Some(rate) => Some("采样率偏低 ("@ + decimal_digits(rate as nat) + " Hz)。"@),
            None => None,
        },
        _ => None,
    }
}

/// The sentence for a status, where there is one.
pub open spec fn status_detail(cfg: ProfileConfig, m: MetricsView, status: QualityStatus) -> Option<
    Seq<char>,
> {
    match fixed_sentence(status) {
        Some(sentence) => Some(sentence),
        None => measured_sentence(cfg, m, status),
    }
}

/// The notes: the profile's name, then the status sentence after a bar.
pub open spec fn notes_text(profile: ScoringProfile, m: MetricsView, status: QualityStatus) -> Seq<
    char,
> {
    let header = "评分档案: "@ + profile.name();
    match status_detail(ProfileConfig::of(profile), m, status) {
        Some(detail) => header + " | "@ + detail,
        None => header,
    }
}

/// A sentence around one reading.
fn sentence_with_reading(before: &str, reading: Reading, precision: Precision, after: &str) -> (text:
    String)
    ensures
        text@ == before@ + reading_text(reading, precision) + after@,
{
    let mut text = before.to_owned();
    push_reading(&mut text, reading, precision);
    text.append(after);
    text
}

/// A sentence around one whole number.
fn sentence_with_count(before: &str, count: u32, after: &str) -> (text: String)
    ensures
        text@ == before@ + decimal_digits(count as nat) + after@,
{
    let mut text = before.to_owned();
    push_decimal(&mut text, count as u64);
    text.append(after);
    text
}

fn fixed_detail(status: &QualityStatus) -> (detail: Option<&'static str>)
    ensures
        match detail {
            Some(text) => fixed_sentence(*status) == Some(text@),
            None => fixed_sentence(*status) is None,
        },
{
    match status {
        QualityStatus::Incomplete => Some("关键数据缺失，分析置信度较低。"),
        QualityStatus::Suspicious => Some("无损容器下高频能量异常，疑似有损升频来源。"),
        QualityStatus::Processed => Some("高频能量偏低，可能存在软截止或后期处理。"),
        QualityStatus::Mono => Some("当前文件为单声道。"),
        QualityStatus::Good => Some("关键技术指标在目标范围内。"),
        _ => None,
    }
}

impl QualityScorer {
    fn measured_detail(&self, metrics: &FileMetrics, status: &QualityStatus) -> (detail: Option<String>)
        ensures
            text_of(detail) == measured_sentence(self.thresholds(), metrics@, *status),
    {
        let cfg = self.config();
        match status {
            QualityStatus::Clipped => match metrics.true_peak_dbtp {
                Some(tp) => Some(
                    sentence_with_reading(
                        "真峰值过高 (TP: ",
                        tp,
                        Precision::Hundredths,
                        " dBTP)，存在削波风险。",
                    ),
                ),
                None => Some("峰值过高，存在削波风险。".to_owned()),
            },
            QualityStatus::TruePeakRisk => match metrics.true_peak_dbtp {
                Some(tp) => Some(
                    sentence_with_reading(
                        "真峰值接近阈值 (TP: ",
                        tp,
                        Precision::Hundredths,
                        " dBTP)。",
                    ),
                ),
                None => None,
            },
            QualityStatus::LoudnessOffTarget => match metrics.integrated_loudness_lufs {
                Some(i) => {
                    let mut text = sentence_with_reading(
                        "综合响度偏离目标 (I: ",
                        i,
                        Precision::Tenths,
                        " LUFS, target: ",
                    );
                    push_reading(&mut text, Reading::Finite(cfg.target_lufs), Precision::Tenths);
                    text.append(" LUFS)。");
                    Some(text)
                },
                None => None,
            },
            QualityStatus::SeverelyCompressed => match metrics.lra {
                Some(lra) => Some(
                    sentence_with_reading("动态范围极低 (LRA: ", lra, Precision::Tenths, " LU)。"),
                ),
                None => None,
            },
            QualityStatus::LowDynamic => match metrics.lra {
                Some(lra) => Some(
                    sentence_with_reading("动态范围偏低 (LRA: ", lra, Precision::Tenths, " LU)。"),
                ),
                None => None,
            },
            QualityStatus::LowBitrate => match metrics.bitrate_kbps {
                Some(bitrate) => Some(sentence_with_count("有损码率偏低 (", bitrate, " kbps)。")),
                None => None,
            },
            QualityStatus::LowSampleRate => match metrics.sample_rate_hz {
                Some(rate) => Some(sentence_with_count("采样率偏低 (", rate, " Hz)。")),
                None => None,
            },
            _ => None,
        }
    }

    /// The notes of an analysis with the given status.
    pub fn generate_notes(&self, metrics: &FileMetrics, status: &QualityStatus) -> (notes: String)
        ensures
            notes@ == notes_text(self.selected(), metrics@, *status),
    {
        let mut notes = "评分档案: ".to_owned();
        notes.append(self.profile().as_str());
        match fixed_detail(status) {
            Some(sentence) => {
                notes.append(" | ");
                notes.append(sentence);
            },
            None => match self.measured_detail(metrics, status) {
                Some(sentence) => {
                    notes.append(" | ");
                    notes.append(sentence.as_str());
                },
                None => {},
            },
        }
        assert(notes@ =~= notes_text(self.selected(), metrics@, *status));
        notes
    }
}

} // verus!
