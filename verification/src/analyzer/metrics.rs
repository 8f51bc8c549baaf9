//! The per-file metrics record and its mathematical view.

use vstd::prelude::*;
use crate::analyzer::reading::Reading;

verus! {

/// Peak and RMS level of one statistics block of the analysis tool.
#[derive(Debug, Clone, Copy, PartialEq, Eq)]
pub struct AudioStats {
    pub peak_db: Option<Reading>,
    pub rms_db: Option<Reading>,
}

impl Default for AudioStats {
    fn default() -> (stats: Self)
        ensures
            stats.peak_db is None,
            stats.rms_db is None,
    {
        AudioStats { peak_db: None, rms_db: None }
    }
}

/// Everything measured for one file. Each measurement is optional on its
/// own: an absent value is not a zero.
#[derive(Debug, PartialEq, Eq)]
pub struct FileMetrics {
    pub file_path: String,
    pub file_size_bytes: u64,
    pub lra: Option<Reading>,
    pub peak_amplitude_db: Option<Reading>,
    pub overall_rms_db: Option<Reading>,
    pub rms_db_above_16k: Option<Reading>,
    pub rms_db_above_18k: Option<Reading>,
    pub rms_db_above_20k: Option<Reading>,
    pub integrated_loudness_lufs: Option<Reading>,
    pub true_peak_dbtp: Option<Reading>,
    pub processing_time_ms: u64,
    pub sample_rate_hz: Option<u32>,
    pub bitrate_kbps: Option<u32>,
    pub channels: Option<u32>,
    pub codec_name: Option<String>,
    pub container_format: Option<String>,
    pub duration_seconds: Option<Reading>,
    pub cache_hit: bool,
    pub content_sha256: Option<String>,
    pub error_codes: Vec<String>,
}

/// The record as plain mathematical values.
pub struct MetricsView {
    pub file_path: Seq<char>,
    pub file_size_bytes: u64,
    pub lra: Option<Reading>,
    pub peak_amplitude_db: Option<Reading>,
    pub overall_rms_db: Option<Reading>,
    pub rms_db_above_16k: Option<Reading>,
    pub rms_db_above_18k: Option<Reading>,
    pub rms_db_above_20k: Option<Reading>,
    pub integrated_loudness_lufs: Option<Reading>,
    pub true_peak_dbtp: Option<Reading>,
    pub processing_time_ms: u64,
    pub sample_rate_hz: Option<u32>,
    pub bitrate_kbps: Option<u32>,
    pub channels: Option<u32>,
    pub codec_name: Option<Seq<char>>,
    pub container_format: Option<Seq<char>>,
    pub duration_seconds: Option<Reading>,
    pub cache_hit: bool,
    pub content_sha256: Option<Seq<char>>,
    pub error_codes: Seq<Seq<char>>,
}

/// The characters of an optional string.
pub open spec fn text_of(s: Option<String>) -> Option<Seq<char>> {
    match s {
        Some(t) => Some(t@),
        None => None,
    }
}

/// The characters of each string of a list.
pub open spec fn texts_of(list: Seq<String>) -> Seq<Seq<char>> {
    Seq::new(list.len(), |i: int| list[i]@)
}

impl View for FileMetrics {
    type V = MetricsView;

    open spec fn view(&self) -> MetricsView {
        MetricsView {
            file_path: self.file_path@,
            file_size_bytes: self.file_size_bytes,
            lra: self.lra,
            peak_amplitude_db: self.peak_amplitude_db,
            overall_rms_db: self.overall_rms_db,
            rms_db_above_16k: self.rms_db_above_16k,
            rms_db_above_18k: self.rms_db_above_18k,
            rms_db_above_20k: self.rms_db_above_20k,
            integrated_loudness_lufs: self.integrated_loudness_lufs,
            true_peak_dbtp: self.true_peak_dbtp,
            processing_time_ms: self.processing_time_ms,
            sample_rate_hz: self.sample_rate_hz,
            bitrate_kbps: self.bitrate_kbps,
            channels: self.channels,
            codec_name: text_of(self.codec_name),
            container_format: text_of(self.container_format),
            duration_seconds: self.duration_seconds,
            cache_hit: self.cache_hit,
            content_sha256: text_of(self.content_sha256),
            error_codes: texts_of(self.error_codes@),
        }
    }
}

/// A copy of an optional string.
pub fn clone_text(s: &Option<String>) -> (copy: Option<String>)
    ensures
        text_of(copy) == text_of(*s),
{
    match s {
        Some(t) => Some(t.clone()),
        None => None,
    }
}

/// A copy of a list of strings.
pub fn clone_texts(list: &Vec<String>) -> (copy: Vec<String>)
    ensures
        texts_of(copy@) == texts_of(list@),
{
    let mut copy: Vec<String> = Vec::new();
    let mut i: usize = 0;
    while i < list.len()
        invariant
            i <= list.len(),
            copy.len() == i,
            forall|k: int| 0 <= k < i ==> copy@[k]@ == list@[k]@,
        decreases list.len() - i,
    {
        copy.push(list[i].clone());
        i = i + 1;
    }
    assert(texts_of(copy@) =~= texts_of(list@));
    copy
}

impl Clone for FileMetrics {
    fn clone(&self) -> (copy: Self)
        ensures
            copy@ == self@,
    {
        FileMetrics {
            file_path: self.file_path.clone(),
            file_size_bytes: self.file_size_bytes,
            lra: self.lra,
            peak_amplitude_db: self.peak_amplitude_db,
            overall_rms_db: self.overall_rms_db,
            rms_db_above_16k: self.rms_db_above_16k,
            rms_db_above_18k: self.rms_db_above_18k,
            rms_db_above_20k: self.rms_db_above_20k,
            integrated_loudness_lufs: self.integrated_loudness_lufs,
            true_peak_dbtp: self.true_peak_dbtp,
            processing_time_ms: self.processing_time_ms,
            sample_rate_hz: self.sample_rate_hz,
            bitrate_kbps: self.bitrate_kbps,
            channels: self.channels,
            codec_name: clone_text(&self.codec_name),
            container_format: clone_text(&self.container_format),
            duration_seconds: self.duration_seconds,
            cache_hit: self.cache_hit,
            content_sha256: clone_text(&self.content_sha256),
            error_codes: clone_texts(&self.error_codes),
        }
    }
}

impl Default for FileMetrics {
    /// An empty record: no path, nothing measured, no errors.
    fn default() -> (empty: Self)
        ensures
            empty@ == MetricsView::empty(),
    {
        let empty = FileMetrics {
            file_path: String::new(),
            file_size_bytes: 0,
            lra: None,
            peak_amplitude_db: None,
            overall_rms_db: None,
            rms_db_above_16k: None,
            rms_db_above_18k: None,
            rms_db_above_20k: None,
            integrated_loudness_lufs: None,
            true_peak_dbtp: None,
            processing_time_ms: 0,
            sample_rate_hz: None,
            bitrate_kbps: None,
            channels: None,
            codec_name: None,
            container_format: None,
            duration_seconds: None,
            cache_hit: false,
            content_sha256: None,
            error_codes: Vec::new(),
        };
        assert(empty@.error_codes =~= Seq::empty());
        empty
    }
}

impl MetricsView {
    /// The record in which nothing has been measured.
    pub open spec fn empty() -> MetricsView {
        MetricsView {
            file_path: Seq::empty(),
            file_size_bytes: 0,
            lra: None,
            peak_amplitude_db: None,
            overall_rms_db: None,
            rms_db_above_16k: None,
            rms_db_above_18k: None,
            rms_db_above_20k: None,
            integrated_loudness_lufs: None,
            true_peak_dbtp: None,
            processing_time_ms: 0,
            sample_rate_hz: None,
            bitrate_kbps: None,
            channels: None,
            codec_name: None,
            container_format: None,
            duration_seconds: None,
            cache_hit: false,
            content_sha256: None,
            error_codes: Seq::empty(),
        }
    }
}

} // verus!
