//! The analysis tool's side of the pipeline: the arguments of each of its
//! invocations, the reading of its reports, and the assembly of one metrics
//! record from the outcomes of the six operations, each of which may fail
//! on its own.

use vstd::prelude::*;
use vstd::string::*;
use crate::analyzer::codes::{ascending, code_of_failure, failure_code, insert_code};
use crate::analyzer::decimal::{decimal_digits, push_decimal};
use crate::analyzer::metrics::{text_of, texts_of, AudioStats, FileMetrics};
use crate::analyzer::probe::ProbeInfo;
use crate::analyzer::reading::Reading;
use crate::analyzer::token::{parse_measurement, token_measurement};

verus! {

/// The cut-off frequencies, in Hz, of the three band-limited measurements.
pub const BAND_16K_HZ: u32 = 16_000;

/// The middle cut-off.
pub const BAND_18K_HZ: u32 = 18_000;

/// The highest cut-off.
pub const BAND_20K_HZ: u32 = 20_000;

/// The capture groups of every match of a pattern in a text, in the order
/// of the matches; group 0 is the whole match, and a group that took no part
/// in a match is `None`. `None` altogether where the pattern does not
/// compile.
pub uninterp spec fn regex_captures(pattern: Seq<char>, text: Seq<char>) -> Option<
    Seq<Seq<Option<Seq<char>>>>,
>;

/// The groups of one match as plain text.
pub open spec fn match_view(groups: Vec<Option<String>>) -> Seq<Option<Seq<char>>> {
    Seq::new(groups@.len(), |j: int| text_of(groups@[j]))
}

/// The matches of a search as plain text.
pub open spec fn matches_view(matches: Vec<Vec<Option<String>>>) -> Seq<Seq<Option<Seq<char>>>> {
    Seq::new(matches@.len(), |i: int| match_view(matches@[i]))
}

/// The outcome of a search as plain text.
pub open spec fn search_view(found: Option<Vec<Vec<Option<String>>>>) -> Option<
    Seq<Seq<Option<Seq<char>>>>,
> {
    match found {
        Some(matches) => Some(matches_view(matches)),
        None => None,
    }
}

/// `regex::Regex::new` on the pattern, then `Regex::captures_iter` on the
/// text: all non-overlapping matches from left to right, each as the list
/// of its groups' texts (`Captures::iter`, `Match::as_str`). What comes out
/// depends on the pattern and the text alone.
#[verifier::external_body]
fn find_captures(pattern: &str, text: &str) -> (found: Option<Vec<Vec<Option<String>>>>)
    ensures
        search_view(found) == regex_captures(pattern@, text@),
{
    let compiled = regex::Regex::new(pattern).ok()?;
    Some(
        compiled.captures_iter(text).map(
            |c| c.iter().map(|g| g.map(|m| m.as_str().to_owned())).collect(),
        ).collect(),
    )
}

/// The lines of the reports that the library reads.
#[derive(Debug, Clone, Copy, PartialEq, Eq, Structural)]
pub enum ReportPattern {
    /// `LRA: <value> LU` on a line of its own, in the summary.
    SummaryLra,
    /// `LRA: <value>` anywhere, as in the streaming lines.
    StreamingLra,
    /// `I: <value> LUFS` on a line of its own, in the summary.
    SummaryLoudness,
    /// `I: <value> LUFS` anywhere.
    StreamingLoudness,
    /// `Peak: <value> dBFS` on a line of its own, in the summary.
    SummaryTruePeak,
    /// `TPK: <value>` anywhere.
    StreamingTruePeak,
    /// The overall block of the first statistics filter, with its peak and
    /// RMS levels.
    OverallStats,
    /// The overall block of the statistics filter behind a high-pass
    /// filter, with its RMS level.
    HighpassRms,
}

impl ReportPattern {
    /// The regular expression of the pattern. A value is a signed decimal,
    /// `inf` or `nan`.
    pub open spec fn source(self) -> Seq<char> {
        match self {
            ReportPattern::SummaryLra => "(?m)^[ \\t]*LRA:\\s*([-+]?(?:[0-9.]+|inf|nan))\\s*LU\\s*$"@,
            ReportPattern::StreamingLra => "LRA:\\s*([-+]?(?:[0-9.]+|inf|nan))"@,
            ReportPattern::SummaryLoudness => "(?m)^[ \\t]*I:\\s*([-+]?(?:[0-9.]+|inf|nan))\\s*LUFS\\s*$"@,
            ReportPattern::StreamingLoudness => "\\bI:\\s*([-+]?(?:[0-9.]+|inf|nan))\\s*LUFS"@,
            ReportPattern::SummaryTruePeak => "(?m)^[ \\t]*Peak:\\s*([-+]?(?:[0-9.]+|inf|nan))\\s*dBFS\\s*$"@,
            ReportPattern::StreamingTruePeak => "\\bTPK:\\s*([-+]?(?:[0-9.]+|inf|nan))"@,
            ReportPattern::OverallStats => "(?s)\\[Parsed_astats_0 @ [^\\]]+\\] Overall.*?Peak level dB:\\s*([-+]?(?:[0-9.]+|inf|nan)).*?RMS level dB:\\s*([-+]?(?:[0-9.]+|inf|nan))"@,
            ReportPattern::HighpassRms => "(?s)\\[Parsed_astats_1 @ [^\\]]+\\] Overall.*?RMS level dB:\\s*([-+]?(?:[0-9.]+|inf|nan))"@,
        }
    }

    /// What a search for the pattern in `text` finds.
    pub open spec fn search(self, text: Seq<char>) -> Option<Seq<Seq<Option<Seq<char>>>>> {
        regex_captures(self.source(), text)
    }

    /// The regular expression of the pattern.
    pub fn as_str(self) -> (source: &'static str)
        ensures
            source@ == self.source(),
    {
        match self {
            ReportPattern::SummaryLra => "(?m)^[ \\t]*LRA:\\s*([-+]?(?:[0-9.]+|inf|nan))\\s*LU\\s*$",
            ReportPattern::StreamingLra => "LRA:\\s*([-+]?(?:[0-9.]+|inf|nan))",
            ReportPattern::SummaryLoudness => "(?m)^[ \\t]*I:\\s*([-+]?(?:[0-9.]+|inf|nan))\\s*LUFS\\s*$",
            ReportPattern::StreamingLoudness => "\\bI:\\s*([-+]?(?:[0-9.]+|inf|nan))\\s*LUFS",
            ReportPattern::SummaryTruePeak => "(?m)^[ \\t]*Peak:\\s*([-+]?(?:[0-9.]+|inf|nan))\\s*dBFS\\s*$",
            ReportPattern::StreamingTruePeak => "\\bTPK:\\s*([-+]?(?:[0-9.]+|inf|nan))",
            ReportPattern::OverallStats => "(?s)\\[Parsed_astats_0 @ [^\\]]+\\] Overall.*?Peak level dB:\\s*([-+]?(?:[0-9.]+|inf|nan)).*?RMS level dB:\\s*([-+]?(?:[0-9.]+|inf|nan))",
            ReportPattern::HighpassRms => "(?s)\\[Parsed_astats_1 @ [^\\]]+\\] Overall.*?RMS level dB:\\s*([-+]?(?:[0-9.]+|inf|nan))",
        }
    }

    /// Searches `text` for the pattern.
    pub fn find_in(self, text: &str) -> (found: Option<Vec<Vec<Option<String>>>>)
        ensures
            search_view(found) == self.search(text@),
    {
        find_captures(self.as_str(), text)
    }
}

/// The text of one group of one match, if the match has that group and the
/// group took part.
pub open spec fn group_of(groups: Seq<Option<Seq<char>>>, group: int) -> Option<Seq<char>> {
    if 0 <= group < groups.len() {
        groups[group]
    } else {
        None
    }
}

/// The text of a group in the first match of a search.
pub open spec fn first_group(found: Option<Seq<Seq<Option<Seq<char>>>>>, group: int) -> Option<
    Seq<char>,
> {
    match found {
        Some(matches) => if matches.len() > 0 {
            group_of(matches[0], group)
        } else {
            None
        },
        None => None,
    }
}

/// The measurement that the summary gives, if its first match holds a
/// token that reads as one.
pub open spec fn summary_measurement(found: Option<Seq<Seq<Option<Seq<char>>>>>) -> Option<
    Option<Reading>,
> {
    match first_group(found, 1) {
        Some(token) => match token_measurement(token) {
            Ok(value) => Some(value),
            Err(_) => None,
        },
        None => None,
    }
}

/// The measurement of the last match whose token reads as one.
pub open spec fn last_measurement(matches: Seq<Seq<Option<Seq<char>>>>) -> Result<
    Option<Reading>,
    (),
>
    decreases matches.len(),
{
    if matches.len() == 0 {
        Err(())
    } else {
        match group_of(matches.last(), 1) {
            Some(token) => match token_measurement(token) {
                Ok(value) => Ok(value),
                Err(_) => last_measurement(matches.drop_last()),
            },
            None => last_measurement(matches.drop_last()),
        }
    }
}

/// The measurement that the streaming lines give: that of the last one
/// that reads.
pub open spec fn streaming_measurement(found: Option<Seq<Seq<Option<Seq<char>>>>>) -> Result<
    Option<Reading>,
    (),
> {
    match found {
        Some(matches) => last_measurement(matches),
        None => Err(()),
    }
}

/// One measurement of the loudness report: from the summary where it has
/// it, else from the streaming lines.
pub open spec fn report_measurement(
    summary: Option<Seq<Seq<Option<Seq<char>>>>>,
    streaming: Option<Seq<Seq<Option<Seq<char>>>>>,
) -> Result<Option<Reading>, ()> {
    match summary_measurement(summary) {
        Some(value) => Ok(value),
        None => streaming_measurement(streaming),
    }
}

fn group_text(groups: &Vec<Option<String>>, group: usize) -> (text: Option<&String>)
    ensures
        match text {
            Some(t) => group_of(match_view(*groups), group as int) == Some(t@),
            None => group_of(match_view(*groups), group as int) is None,
        },
{
    if group < groups.len() {
        groups[group].as_ref()
    } else {
        None
    }
}

fn first_group_text(found: &Option<Vec<Vec<Option<String>>>>, group: usize) -> (text: Option<&String>)
    ensures
        match text {
            Some(t) => first_group(search_view(*found), group as int) == Some(t@),
            None => first_group(search_view(*found), group as int) is None,
        },
{
    match found {
        Some(matches) => {
            if matches.len() > 0 {
                group_text(&matches[0], group)
            } else {
                None
            }
        },
        None => None,
    }
}

/// Reads one measurement of the loudness report from what the searches
/// for its summary line and its streaming lines found.
pub fn measurement_from_matches(
    summary: &Option<Vec<Vec<Option<String>>>>,
    streaming: &Option<Vec<Vec<Option<String>>>>,
) -> (value: Result<Option<Reading>, ()>)
    ensures
        value == report_measurement(search_view(*summary), search_view(*streaming)),
{
    match first_group_text(summary, 1) {
        Some(token) => match parse_measurement(token.as_str()) {
            Ok(value) => {
                return Ok(value);
            },
            Err(_) => {},
        },
        None => {},
    }
    let matches = match streaming {
        Some(matches) => matches,
        None => {
            return Err(());
        },
    };
    let ghost all = matches_view(*matches);
    let mut latest: Result<Option<Reading>, ()> = Err(());
    let mut i: usize = 0;
    while i < matches.len()
        invariant
            i <= matches.len(),
            all == matches_view(*matches),
            latest == last_measurement(all.take(i as int)),
        decreases matches.len() - i,
    {
        proof {
            assert(all.take(i + 1).drop_last() == all.take(i as int));
            assert(all.take(i + 1).last() == match_view(matches@[i as int]));
        }
        match group_text(&matches[i], 1) {
            Some(token) => match parse_measurement(token.as_str()) {
                Ok(value) => {
                    latest = Ok(value);
                },
                Err(_) => {},
            },
            None => {},
        }
        i = i + 1;
    }
    assert(all.take(matches.len() as int) == all);
    latest
}

/// Loudness range, integrated loudness and true peak of one file.
#[derive(Debug, Clone, Copy, PartialEq, Eq, Structural)]
pub struct LoudnessReport {
    pub lra: Option<Reading>,
    pub integrated_loudness_lufs: Option<Reading>,
    pub true_peak_dbtp: Option<Reading>,
}

/// A measurement that could not be read counts as absent.
pub open spec fn or_absent(value: Result<Option<Reading>, ()>) -> Option<Reading> {
    match value {
        Ok(v) => v,
        Err(_) => None,
    }
}

/// The message for a loudness report without a readable loudness range.
pub open spec fn no_lra_message() -> Seq<char> {
    "E_PARSE_LRA: the loudness report holds no loudness range"@
}

/// The message for a statistics report without an overall block.
pub open spec fn no_stats_message() -> Seq<char> {
    "the statistics report holds no overall peak and RMS levels"@
}

/// The message for a band-limited report without a readable RMS level.
pub open spec fn no_band_rms_message() -> Seq<char> {
    "the band-limited statistics report holds no RMS level"@
}

/// The loudness report that six searches describe. It fails only where no
/// loudness range can be read; the other two measurements are absent where
/// they cannot be.
pub open spec fn loudness_of(
    summary_lra: Option<Seq<Seq<Option<Seq<char>>>>>,
    streaming_lra: Option<Seq<Seq<Option<Seq<char>>>>>,
    summary_loudness: Option<Seq<Seq<Option<Seq<char>>>>>,
    streaming_loudness: Option<Seq<Seq<Option<Seq<char>>>>>,
    summary_true_peak: Option<Seq<Seq<Option<Seq<char>>>>>,
    streaming_true_peak: Option<Seq<Seq<Option<Seq<char>>>>>,
) -> Result<LoudnessReport, Seq<char>> {
    match report_measurement(summary_lra, streaming_lra) {
        Ok(lra) => Ok(
            LoudnessReport {
                lra,
                integrated_loudness_lufs: or_absent(
                    report_measurement(summary_loudness, streaming_loudness),
                ),
                true_peak_dbtp: or_absent(
                    report_measurement(summary_true_peak, streaming_true_peak),
                ),
            },
        ),
        Err(_) => Err(no_lra_message()),
    }
}

/// The outcome of an operation with its message as plain text.
pub open spec fn outcome_view<T>(outcome: Result<T, String>) -> Result<T, Seq<char>> {
    match outcome {
        Ok(value) => Ok(value),
        Err(message) => Err(message@),
    }
}

/// Builds the loudness report from what the six searches found.
pub fn loudness_from_matches(
    summary_lra: &Option<Vec<Vec<Option<String>>>>,
    streaming_lra: &Option<Vec<Vec<Option<String>>>>,
    summary_loudness: &Option<Vec<Vec<Option<String>>>>,
    streaming_loudness: &Option<Vec<Vec<Option<String>>>>,
    summary_true_peak: &Option<Vec<Vec<Option<String>>>>,
    streaming_true_peak: &Option<Vec<Vec<Option<String>>>>,
) -> (report: Result<LoudnessReport, String>)
    ensures
        outcome_view(report) == loudness_of(
            search_view(*summary_lra),
            search_view(*streaming_lra),
            search_view(*summary_loudness),
            search_view(*streaming_loudness),
            search_view(*summary_true_peak),
            search_view(*streaming_true_peak),
        ),
{
    let lra = match measurement_from_matches(summary_lra, streaming_lra) {
        Ok(lra) => lra,
        Err(_) => {
            return Err("E_PARSE_LRA: the loudness report holds no loudness range".to_owned());
        },
    };
    let integrated_loudness_lufs = match measurement_from_matches(
        summary_loudness,
        streaming_loudness,
    ) {
        Ok(value) => value,
        Err(_) => None,
    };
    let true_peak_dbtp = match measurement_from_matches(summary_true_peak, streaming_true_peak) {
        Ok(value) => value,
        Err(_) => None,
    };
    Ok(LoudnessReport { lra, integrated_loudness_lufs, true_peak_dbtp })
}

/// Reads the loudness report of the analysis tool.
pub fn parse_loudness(report: &str) -> (parsed: Result<LoudnessReport, String>)
    ensures
        outcome_view(parsed) == loudness_of(
            ReportPattern::SummaryLra.search(report@),
            ReportPattern::StreamingLra.search(report@),
            ReportPattern::SummaryLoudness.search(report@),
            ReportPattern::StreamingLoudness.search(report@),
            ReportPattern::SummaryTruePeak.search(report@),
            ReportPattern::StreamingTruePeak.search(report@),
        ),
{
    let summary_lra = ReportPattern::SummaryLra.find_in(report);
    let streaming_lra = ReportPattern::StreamingLra.find_in(report);
    let summary_loudness = ReportPattern::SummaryLoudness.find_in(report);
    let streaming_loudness = ReportPattern::StreamingLoudness.find_in(report);
    let summary_true_peak = ReportPattern::SummaryTruePeak.find_in(report);
    let streaming_true_peak = ReportPattern::StreamingTruePeak.find_in(report);
    loudness_from_matches(
        &summary_lra,
        &streaming_lra,
        &summary_loudness,
        &streaming_loudness,
        &summary_true_peak,
        &streaming_true_peak,
    )
}

/// A level from a group of the first match: absent unless the group holds
/// a number.
pub open spec fn level_of(found: Option<Seq<Seq<Option<Seq<char>>>>>, group: int) -> Option<
    Reading,
> {
    match first_group(found, group) {
        Some(token) => or_absent(token_measurement(token)),
        None => None,
    }
}

/// The overall statistics that a search describes: a failure where nothing
/// matched, else the two levels as far as they read.
pub open spec fn stats_of(found: Option<Seq<Seq<Option<Seq<char>>>>>) -> Result<
    AudioStats,
    Seq<char>,
> {
    match found {
        Some(matches) => if matches.len() > 0 {
            Ok(AudioStats { peak_db: level_of(found, 1), rms_db: level_of(found, 2) })
        } else {
            Err(no_stats_message())
        },
        None => Err(no_stats_message()),
    }
}

fn level_from_matches(found: &Option<Vec<Vec<Option<String>>>>, group: usize) -> (level: Option<Reading>)
    ensures
        level == level_of(search_view(*found), group as int),
{
    match first_group_text(found, group) {
        Some(token) => match parse_measurement(token.as_str()) {
            Ok(value) => value,
            Err(_) => None,
        },
        None => None,
    }
}

fn any_match(found: &Option<Vec<Vec<Option<String>>>>) -> (any: bool)
    ensures
        any == (search_view(*found) matches Some(matches) && matches.len() > 0),
{
    match found {
        Some(matches) => matches.len() > 0,
        None => false,
    }
}

/// Builds the overall statistics from what the search for their block
/// found.
pub fn stats_from_matches(found: &Option<Vec<Vec<Option<String>>>>) -> (stats: Result<
    AudioStats,
    String,
>)
    ensures
        outcome_view(stats) == stats_of(search_view(*found)),
{
    if !any_match(found) {
        return Err("the statistics report holds no overall peak and RMS levels".to_owned());
    }
    Ok(AudioStats { peak_db: level_from_matches(found, 1), rms_db: level_from_matches(found, 2) })
}

/// Reads the overall peak and RMS levels from the statistics report.
pub fn parse_stats(report: &str) -> (parsed: Result<AudioStats, String>)
    ensures
        outcome_view(parsed) == stats_of(ReportPattern::OverallStats.search(report@)),
{
    let found = ReportPattern::OverallStats.find_in(report);
    stats_from_matches(&found)
}

/// The band-limited RMS level that a search describes: a failure where
/// nothing matched or the token does not read, absent for not-a-number.
pub open spec fn band_rms_of(found: Option<Seq<Seq<Option<Seq<char>>>>>) -> Result<
    Option<Reading>,
    Seq<char>,
> {
    match first_group(found, 1) {
        Some(token) => match token_measurement(token) {
            Ok(value) => Ok(value),
            Err(_) => Err(no_band_rms_message()),
        },
        None => Err(no_band_rms_message()),
    }
}

/// Builds the band-limited RMS level from what the search for it found.
pub fn band_rms_from_matches(found: &Option<Vec<Vec<Option<String>>>>) -> (level: Result<
    Option<Reading>,
    String,
>)
    ensures
        outcome_view(level) == band_rms_of(search_view(*found)),
{
    match first_group_text(found, 1) {
        Some(token) => match parse_measurement(token.as_str()) {
            Ok(value) => {
                return Ok(value);
            },
            Err(_) => {},
        },
        None => {},
    }
    Err("the band-limited statistics report holds no RMS level".to_owned())
}

/// Reads the RMS level above a cut-off from the report of the high-pass
/// and statistics filters.
pub fn parse_band_rms(report: &str) -> (parsed: Result<Option<Reading>, String>)
    ensures
        outcome_view(parsed) == band_rms_of(ReportPattern::HighpassRms.search(report@)),
{
    let found = ReportPattern::HighpassRms.find_in(report);
    band_rms_from_matches(&found)
}

/// The six operations that are run for each file.
#[derive(Debug, Clone, Copy, PartialEq, Eq, Structural)]
pub enum Operation {
    Loudness,
    OverallStats,
    Band16k,
    Band18k,
    Band20k,
    Probe,
}

impl Operation {
    /// The code of a failure whose message names none.
    pub open spec fn fallback(self) -> Seq<char> {
        match self {
            Operation::Loudness => "E_LOUDNESS"@,
            Operation::OverallStats => "E_STATS"@,
            Operation::Band16k => "E_RMS_16K"@,
            Operation::Band18k => "E_RMS_18K"@,
            Operation::Band20k => "E_RMS_20K"@,
            Operation::Probe => "E_PROBE"@,
        }
    }

    /// The code of a failure whose message names none.
    pub fn fallback_code(self) -> (code: &'static str)
        ensures
            code@ == self.fallback(),
    {
        match self {
            Operation::Loudness => "E_LOUDNESS",
            Operation::OverallStats => "E_STATS",
            Operation::Band16k => "E_RMS_16K",
            Operation::Band18k => "E_RMS_18K",
            Operation::Band20k => "E_RMS_20K",
            Operation::Probe => "E_PROBE",
        }
    }
}

/// The text of each argument of a command line.
pub open spec fn analysis_arguments(path: Seq<char>, filter_flag: Seq<char>, filter: Seq<char>) -> Seq<
    Seq<char>,
> {
    seq!["-i"@, path, filter_flag, filter, "-f"@, "null"@, "-"@]
}

/// The filter of a band-limited measurement: a high-pass at `cutoff_hz`,
/// then the statistics.
pub open spec fn highpass_filter(cutoff_hz: u32) -> Seq<char> {
    "highpass=f="@ + decimal_digits(cutoff_hz as nat) + ",astats=metadata=1"@
}

/// The arguments of the probe.
pub open spec fn probe_arguments(path: Seq<char>) -> Seq<Seq<char>> {
    seq![
        "-v"@,
        "error"@,
        "-select_streams"@,
        "a:0"@,
        "-show_entries"@,
        "stream=codec_name,sample_rate,channels,bit_rate:format=format_name,bit_rate,duration"@,
        "-of"@,
        "json"@,
        path,
    ]
}

fn analysis_args(path: &str, filter_flag: &str, filter: &str) -> (args: Vec<String>)
    ensures
        texts_of(args@) == analysis_arguments(path@, filter_flag@, filter@),
{
    let mut args: Vec<String> = Vec::new();
    args.push("-i".to_owned());
    args.push(path.to_owned());
    args.push(filter_flag.to_owned());
    args.push(filter.to_owned());
    args.push("-f".to_owned());
    args.push("null".to_owned());
    args.push("-".to_owned());
    assert(texts_of(args@) =~= analysis_arguments(path@, filter_flag@, filter@));
    args
}

/// The arguments of the loudness and true-peak analysis of `path`.
pub fn loudness_args(path: &str) -> (args: Vec<String>)
    ensures
        texts_of(args@) == analysis_arguments(path@, "-filter_complex"@, "ebur128=peak=true"@),
{
    analysis_args(path, "-filter_complex", "ebur128=peak=true")
}

/// The arguments of the overall peak and RMS analysis of `path`.
pub fn stats_args(path: &str) -> (args: Vec<String>)
    ensures
        texts_of(args@) == analysis_arguments(path@, "-filter:a"@, "astats=metadata=1"@),
{
    analysis_args(path, "-filter:a", "astats=metadata=1")
}

/// The arguments of the RMS analysis of `path` above `cutoff_hz`.
pub fn highpass_args(path: &str, cutoff_hz: u32) -> (args: Vec<String>)
    ensures
        texts_of(args@) == analysis_arguments(path@, "-filter:a"@, highpass_filter(cutoff_hz)),
{
    let mut filter = "highpass=f=".to_owned();
    push_decimal(&mut filter, cutoff_hz as u64);
    filter.append(",astats=metadata=1");
    analysis_args(path, "-filter:a", filter.as_str())
}

/// The arguments of the metadata probe of `path`.
pub fn probe_args(path: &str) -> (args: Vec<String>)
    ensures
        texts_of(args@) == probe_arguments(path@),
{
    let mut args: Vec<String> = Vec::new();
    args.push("-v".to_owned());
    args.push("error".to_owned());
    args.push("-select_streams".to_owned());
    args.push("a:0".to_owned());
    args.push("-show_entries".to_owned());
    args.push(
        "stream=codec_name,sample_rate,channels,bit_rate:format=format_name,bit_rate,duration".to_owned(),
    );
    args.push("-of".to_owned());
    args.push("json".to_owned());
    args.push(path.to_owned());
    assert(texts_of(args@) =~= probe_arguments(path@));
    args
}

/// How the six operations on one file ended: each with its result, or with
/// the message of its failure.
pub struct OperationOutcomes {
    pub loudness: Result<LoudnessReport, String>,
    pub stats: Result<AudioStats, String>,
    pub rms_16k: Result<Option<Reading>, String>,
    pub rms_18k: Result<Option<Reading>, String>,
    pub rms_20k: Result<Option<Reading>, String>,
    pub probe: Result<ProbeInfo, String>,
}

/// The code of an operation that failed.
pub open spec fn outcome_code<T>(outcome: Result<T, String>, operation: Operation) -> Option<
    Seq<char>,
> {
    match outcome {
        Ok(_) => None,
        Err(message) => Some(failure_code(message@, operation.fallback())),
    }
}

impl OperationOutcomes {
    /// `code` is the code of one of the operations that failed.
    pub open spec fn has_failure_code(self, code: Seq<char>) -> bool {
        ||| outcome_code(self.loudness, Operation::Loudness) == Some(code)
        ||| outcome_code(self.stats, Operation::OverallStats) == Some(code)
        ||| outcome_code(self.rms_16k, Operation::Band16k) == Some(code)
        ||| outcome_code(self.rms_18k, Operation::Band18k) == Some(code)
        ||| outcome_code(self.rms_20k, Operation::Band20k) == Some(code)
        ||| outcome_code(self.probe, Operation::Probe) == Some(code)
    }

    /// The loudness report, or one with nothing in it where the operation
    /// failed.
    pub open spec fn loudness_or_absent(self) -> LoudnessReport {
        match self.loudness {
            Ok(report) => report,
            Err(_) => LoudnessReport {
                lra: None,
                integrated_loudness_lufs: None,
                true_peak_dbtp: None,
            },
        }
    }

    /// The overall statistics, or none where the operation failed.
    pub open spec fn stats_or_absent(self) -> AudioStats {
        match self.stats {
            Ok(stats) => stats,
            Err(_) => AudioStats { peak_db: None, rms_db: None },
        }
    }
}

/// A band-limited level, absent where its operation failed.
pub open spec fn level_or_absent(outcome: Result<Option<Reading>, String>) -> Option<Reading> {
    match outcome {
        Ok(level) => level,
        Err(_) => None,
    }
}

fn note_failure<T>(codes: &mut Vec<String>, outcome: &Result<T, String>, operation: Operation)
    requires
        ascending(texts_of(old(codes)@)),
    ensures
        ascending(texts_of(final(codes)@)),
        forall|t: Seq<char>|
            texts_of(final(codes)@).contains(t) <==> (texts_of(old(codes)@).contains(t)
                || outcome_code(*outcome, operation) == Some(t)),
{
    match outcome {
        Ok(_) => {},
        Err(message) => {
            let code = code_of_failure(message.as_str(), operation.fallback_code());
            insert_code(codes, code);
        },
    }
}

/// The metrics record of one file from the outcomes of its six
/// operations. An operation that failed leaves its measurements absent and
/// its code in the list of error codes, which is sorted and names each code
/// once; it never fails the record as a whole.
pub fn process_file(
    file_path: String,
    file_size_bytes: u64,
    processing_time_ms: u64,
    content_sha256: Option<String>,
    outcomes: OperationOutcomes,
) -> (metrics: FileMetrics)
    ensures
        metrics.file_path == file_path,
        metrics.file_size_bytes == file_size_bytes,
        metrics.processing_time_ms == processing_time_ms,
        metrics.content_sha256 == content_sha256,
        !metrics.cache_hit,
        metrics.lra == outcomes.loudness_or_absent().lra,
        metrics.integrated_loudness_lufs == outcomes.loudness_or_absent().integrated_loudness_lufs,
        metrics.true_peak_dbtp == outcomes.loudness_or_absent().true_peak_dbtp,
        metrics.peak_amplitude_db == outcomes.stats_or_absent().peak_db,
        metrics.overall_rms_db == outcomes.stats_or_absent().rms_db,
        metrics.rms_db_above_16k == level_or_absent(outcomes.rms_16k),
        metrics.rms_db_above_18k == level_or_absent(outcomes.rms_18k),
        metrics.rms_db_above_20k == level_or_absent(outcomes.rms_20k),
        match outcomes.probe {
            Ok(info) => metrics.sample_rate_hz == info.sample_rate_hz && metrics.bitrate_kbps
                == info.bitrate_kbps && metrics.channels == info.channels && metrics.codec_name
                == info.codec_name && metrics.container_format == info.container_format
                && metrics.duration_seconds == info.duration_seconds,
            Err(_) => metrics.sample_rate_hz is None && metrics.bitrate_kbps is None
                && metrics.channels is None && metrics.codec_name is None
                && metrics.container_format is None && metrics.duration_seconds is None,
        },
        ascending(metrics@.error_codes),
        forall|code: Seq<char>|
            metrics@.error_codes.contains(code) <==> outcomes.has_failure_code(code),
{
    let mut error_codes: Vec<String> = Vec::new();
    assert(texts_of(error_codes@) =~= Seq::<Seq<char>>::empty());
    note_failure(&mut error_codes, &outcomes.loudness, Operation::Loudness);
    note_failure(&mut error_codes, &outcomes.stats, Operation::OverallStats);
    note_failure(&mut error_codes, &outcomes.rms_16k, Operation::Band16k);
    note_failure(&mut error_codes, &outcomes.rms_18k, Operation::Band18k);
    note_failure(&mut error_codes, &outcomes.rms_20k, Operation::Band20k);
    note_failure(&mut error_codes, &outcomes.probe, Operation::Probe);
    let loudness = match outcomes.loudness {
        Ok(report) => report,
        Err(_) => LoudnessReport { lra: None, integrated_loudness_lufs: None, true_peak_dbtp: None },
    };
    let stats = match outcomes.stats {
        Ok(stats) => stats,
        Err(_) => AudioStats { peak_db: None, rms_db: None },
    };
    let rms_db_above_16k = match outcomes.rms_16k {
        Ok(level) => level,
        Err(_) => None,
    };
    let rms_db_above_18k = match outcomes.rms_18k {
        Ok(level) => level,
        Err(_) => None,
    };
    let rms_db_above_20k = match outcomes.rms_20k {
        Ok(level) => level,
        Err(_) => None,
    };
    let probe = match outcomes.probe {
        Ok(info) => info,
        Err(_) => ProbeInfo {
            sample_rate_hz: None,
            bitrate_kbps: None,
            channels: None,
            codec_name: None,
            container_format: None,
            duration_seconds: None,
        },
    };
    FileMetrics {
        file_path,
        file_size_bytes,
        lra: loudness.lra,
        peak_amplitude_db: stats.peak_db,
        overall_rms_db: stats.rms_db,
        rms_db_above_16k,
        rms_db_above_18k,
        rms_db_above_20k,
        integrated_loudness_lufs: loudness.integrated_loudness_lufs,
        true_peak_dbtp: loudness.true_peak_dbtp,
        processing_time_ms,
        sample_rate_hz: probe.sample_rate_hz,
        bitrate_kbps: probe.bitrate_kbps,
        channels: probe.channels,
        codec_name: probe.codec_name,
        container_format: probe.container_format,
        duration_seconds: probe.duration_seconds,
        cache_hit: false,
        content_sha256,
        error_codes,
    }
}

} // verus!
