//! What a report is made of: the rows of the table in ranking order, and
//! the figures of the summary. Writing them out is left to the caller.

use vstd::prelude::*;
use vstd::string::*;
use crate::analyzer::reading::Reading;
use crate::analyzer::scoring::{AnalysisView, QualityAnalysis, QualityStatus};
use crate::analyzer::text::{final_component, last_separator, to_chars};

verus! {

/// One row of the report table.
#[derive(Debug, Clone, PartialEq, Eq)]
pub struct CsvRecord {
    pub quality_score: i32,
    pub status: String,
    pub file_path: String,
    pub notes: String,
    pub lra: Option<Reading>,
    pub peak_amplitude_db: Option<Reading>,
    pub overall_rms_db: Option<Reading>,
    pub rms_db_above_16k: Option<Reading>,
    pub rms_db_above_18k: Option<Reading>,
    pub rms_db_above_20k: Option<Reading>,
    pub file_size_bytes: u64,
    pub processing_time_ms: u64,
}

/// A row as plain values.
pub struct RecordView {
    pub quality_score: int,
    pub status: Seq<char>,
    pub file_path: Seq<char>,
    pub notes: Seq<char>,
    pub lra: Option<Reading>,
    pub peak_amplitude_db: Option<Reading>,
    pub overall_rms_db: Option<Reading>,
    pub rms_db_above_16k: Option<Reading>,
    pub rms_db_above_18k: Option<Reading>,
    pub rms_db_above_20k: Option<Reading>,
    pub file_size_bytes: u64,
    pub processing_time_ms: u64,
}

impl View for CsvRecord {
    type V = RecordView;

    open spec fn view(&self) -> RecordView {
        RecordView {
            quality_score: self.quality_score as int,
            status: self.status@,
            file_path: self.file_path@,
            notes: self.notes@,
            lra: self.lra,
            peak_amplitude_db: self.peak_amplitude_db,
            overall_rms_db: self.overall_rms_db,
            rms_db_above_16k: self.rms_db_above_16k,
            rms_db_above_18k: self.rms_db_above_18k,
            rms_db_above_20k: self.rms_db_above_20k,
            file_size_bytes: self.file_size_bytes,
            processing_time_ms: self.processing_time_ms,
        }
    }
}

/// The row that shows an analysis.
pub open spec fn record_of(analysis: AnalysisView) -> RecordView {
    RecordView {
        quality_score: analysis.quality_score,
        status: analysis.status.label(),
        file_path: analysis.file_path,
        notes: analysis.notes,
        lra: analysis.metrics.lra,
        peak_amplitude_db: analysis.metrics.peak_amplitude_db,
        overall_rms_db: analysis.metrics.overall_rms_db,
        rms_db_above_16k: analysis.metrics.rms_db_above_16k,
        rms_db_above_18k: analysis.metrics.rms_db_above_18k,
        rms_db_above_20k: analysis.metrics.rms_db_above_20k,
        file_size_bytes: analysis.metrics.file_size_bytes,
        processing_time_ms: analysis.metrics.processing_time_ms,
    }
}

impl CsvRecord {
    /// The row that shows `analysis`.
    pub fn from_analysis(analysis: &QualityAnalysis) -> (record: Self)
        ensures
            record@ == record_of(analysis@),
    {
        CsvRecord {
            quality_score: analysis.quality_score,
            status: analysis.status.to_string(),
            file_path: analysis.file_path.clone(),
            notes: analysis.notes.clone(),
            lra: analysis.metrics.lra,
            peak_amplitude_db: analysis.metrics.peak_amplitude_db,
            overall_rms_db: analysis.metrics.overall_rms_db,
            rms_db_above_16k: analysis.metrics.rms_db_above_16k,
            rms_db_above_18k: analysis.metrics.rms_db_above_18k,
            rms_db_above_20k: analysis.metrics.rms_db_above_20k,
            file_size_bytes: analysis.metrics.file_size_bytes,
            processing_time_ms: analysis.metrics.processing_time_ms,
        }
    }
}

/// Position `a` ranks before position `b`: it has the higher score, or the
/// same score and comes first in the list.
pub open spec fn ranks_before(scores: Seq<int>, a: int, b: int) -> bool {
    scores[a] > scores[b] || (scores[a] == scores[b] && a < b)
}

/// `order` lists each position of `scores` below `count` once, best first.
pub open spec fn is_ranking(scores: Seq<int>, order: Seq<usize>, count: int) -> bool {
    &&& order.len() == count
    &&& forall|p: int| 0 <= p < order.len() ==> 0 <= #[trigger] order[p] < count
    &&& forall|p: int, q: int|
        0 <= p < q < order.len() ==> ranks_before(scores, #[trigger] order[p] as int, #[trigger] order[q] as int)
}

/// A ranking names every position: the positions in it are all different
/// and there are as many as positions.
pub proof fn lemma_ranking_is_permutation(scores: Seq<int>, order: Seq<usize>, count: int)
    requires
        is_ranking(scores, order, count),
        count <= usize::MAX,
    ensures
        order.no_duplicates(),
        forall|k: usize| k < count ==> order.contains(k),
{
    assert forall|p: int, q: int| 0 <= p < order.len() && 0 <= q < order.len() && p != q implies order[p]
        != order[q] by {
        if p < q {
            assert(ranks_before(scores, order[p] as int, order[q] as int));
        } else {
            assert(ranks_before(scores, order[q] as int, order[p] as int));
        }
    }
    if count > 0 {
        let positions = Set::new(|k: usize| 0 <= k < count);
        let all = Seq::new(count as nat, |k: int| k as usize);
        assert(all.no_duplicates());
        all.unique_seq_to_set();
        assert(all.to_set() =~= positions) by {
            assert forall|k: usize| positions.contains(k) implies all.to_set().contains(k) by {
                assert(all[k as int] == k);
            }
        }
        order.unique_seq_to_set();
        assert(order.to_set().subset_of(positions)) by {
            assert forall|k: usize| order.to_set().contains(k) implies positions.contains(k) by {
                let p = choose|p: int| 0 <= p < order.len() && order[p] == k;
                assert(0 <= order[p] < count);
            }
        }
        vstd::set_lib::lemma_subset_equality(order.to_set(), positions);
        assert forall|k: usize| k < count implies order.contains(k) by {
            assert(positions.contains(k));
            assert(order.to_set().contains(k));
        }
    }
}

/// The scores of a list of analyses.
pub open spec fn scores_of(analyses: Seq<QualityAnalysis>) -> Seq<int> {
    Seq::new(analyses.len(), |i: int| analyses[i].quality_score as int)
}

/// The statuses of a list of analyses.
pub open spec fn statuses_of(analyses: Seq<QualityAnalysis>) -> Seq<QualityStatus> {
    Seq::new(analyses.len(), |i: int| analyses[i].status)
}

/// How often `status` occurs in a list.
pub open spec fn count_status(statuses: Seq<QualityStatus>, status: QualityStatus) -> nat
    decreases statuses.len(),
{
    if statuses.len() == 0 {
        0
    } else {
        count_status(statuses.drop_last(), status) + if statuses.last() == status {
            1nat
        } else {
            0nat
        }
    }
}

/// The sum of a list of scores.
pub open spec fn sum_of(scores: Seq<int>) -> int
    decreases scores.len(),
{
    if scores.len() == 0 {
        0
    } else {
        sum_of(scores.drop_last()) + scores.last()
    }
}

/// `value` is an entry of `scores` and none is larger.
pub open spec fn is_max_of(scores: Seq<int>, value: int) -> bool {
    scores.contains(value) && forall|i: int| 0 <= i < scores.len() ==> scores[i] <= value
}

/// `value` is an entry of `scores` and none is smaller.
pub open spec fn is_min_of(scores: Seq<int>, value: int) -> bool {
    scores.contains(value) && forall|i: int| 0 <= i < scores.len() ==> scores[i] >= value
}

/// `part` of `whole` in thousandths, rounded to the nearest, halves upward.
pub open spec fn permille(part: int, whole: int) -> int {
    (part * 2000 + whole) / (2 * whole)
}

/// How often one status occurs.
#[derive(Debug, Clone, Copy, PartialEq, Eq)]
pub struct StatusCount {
    pub status: QualityStatus,
    pub count: usize,
    /// The share of all files, in tenths of a percent.
    pub share_permille: u64,
}

/// The figures on the scores of a report.
#[derive(Debug, Clone, Copy, PartialEq, Eq)]
pub struct ScoreStatistics {
    pub total_files: usize,
    /// The mean score in tenths of a point, rounded to the nearest.
    pub average_tenths: i64,
    pub max_score: i32,
    pub min_score: i32,
}

/// One line of the ranking.
#[derive(Debug, Clone, PartialEq, Eq)]
pub struct RankedFile {
    /// The rank, from 1.
    pub rank: usize,
    pub quality_score: i32,
    pub status: QualityStatus,
    /// The final component of the file's path, or `Unknown` if it is empty.
    pub file_name: String,
}

/// The figures of a report's summary.
#[derive(Debug, Clone, PartialEq, Eq)]
pub struct Summary {
    pub distribution: Vec<StatusCount>,
    pub top: Vec<RankedFile>,
    pub statistics: ScoreStatistics,
}

/// How many files the ranking of a summary shows.
pub const SUMMARY_TOP_N: usize = 10;

/// The name under which a file is listed.
pub open spec fn listed_name(path: Seq<char>) -> Seq<char> {
    if final_component(path).len() == 0 {
        "Unknown"@
    } else {
        final_component(path)
    }
}

/// The place of a status in the order in which a distribution lists the
/// statuses.
pub open spec fn status_index(status: QualityStatus) -> int {
    match status {
        QualityStatus::Good => 0,
        QualityStatus::Incomplete => 1,
        QualityStatus::Suspicious => 2,
        QualityStatus::Processed => 3,
        QualityStatus::Clipped => 4,
        QualityStatus::TruePeakRisk => 5,
        QualityStatus::LoudnessOffTarget => 6,
        QualityStatus::SeverelyCompressed => 7,
        QualityStatus::LowDynamic => 8,
        QualityStatus::LowBitrate => 9,
        QualityStatus::LowSampleRate => 10,
        QualityStatus::Mono => 11,
    }
}

/// The entry of a distribution for a status that occurs `count` times
/// among `total` files.
pub open spec fn is_count_entry(entry: StatusCount, statuses: Seq<QualityStatus>) -> bool {
    &&& entry.count > 0
    &&& entry.count == count_status(statuses, entry.status)
    &&& entry.share_permille == permille(entry.count as int, statuses.len() as int)
}

/// `distribution` lists each status that occurs in `statuses`, and no other,
/// once and in the order of [`status_index`], with its count and share.
pub open spec fn is_distribution(distribution: Seq<StatusCount>, statuses: Seq<QualityStatus>) -> bool {
    &&& forall|k: int|
        0 <= k < distribution.len() ==> is_count_entry(#[trigger] distribution[k], statuses)
    &&& forall|i: int, j: int|
        0 <= i < j < distribution.len() ==> status_index((#[trigger] distribution[i]).status)
            < status_index((#[trigger] distribution[j]).status)
    &&& forall|status: QualityStatus| #[trigger]
        count_status(statuses, status) > 0 ==> exists|k: int|
            0 <= k < distribution.len() && (#[trigger] distribution[k]).status == status
}

/// `entry` shows the analysis at rank `rank` (from 1).
pub open spec fn is_ranked_entry(entry: RankedFile, analysis: QualityAnalysis, rank: int) -> bool {
    &&& entry.rank == rank
    &&& entry.quality_score == analysis.quality_score
    &&& entry.status == analysis.status
    &&& entry.file_name@ == listed_name(analysis.file_path@)
}

/// `top` shows the best `shown` analyses in ranking order.
pub open spec fn is_top(top: Seq<RankedFile>, analyses: Seq<QualityAnalysis>, shown: int) -> bool {
    &&& top.len() == shown
    &&& exists|order: Seq<usize>|
        is_ranking(scores_of(analyses), order, analyses.len() as int) && forall|p: int|
            0 <= p < top.len() ==> is_ranked_entry(#[trigger] top[p], analyses[order[p] as int], p + 1)
}

/// How many files a ranking of at most `top_n` shows.
pub open spec fn shown_count(top_n: int, files: int) -> int {
    if top_n <= files {
        top_n
    } else {
        files
    }
}

/// `figures` are the count, the mean, the maximum and the minimum of
/// `scores`.
pub open spec fn is_statistics(figures: ScoreStatistics, scores: Seq<int>) -> bool {
    &&& figures.total_files == scores.len()
    &&& is_max_of(scores, figures.max_score as int)
    &&& is_min_of(scores, figures.min_score as int)
    &&& figures.average_tenths == mean_tenths(sum_of(scores), scores.len() as int)
}

/// The status at a place of that order.
fn status_by_index(index: usize) -> (status: QualityStatus)
    requires
        index < 12,
    ensures
        status_index(status) == index,
{
    if index == 0 {
        QualityStatus::Good
    } else if index == 1 {
        QualityStatus::Incomplete
    } else if index == 2 {
        QualityStatus::Suspicious
    } else if index == 3 {
        QualityStatus::Processed
    } else if index == 4 {
        QualityStatus::Clipped
    } else if index == 5 {
        QualityStatus::TruePeakRisk
    } else if index == 6 {
        QualityStatus::LoudnessOffTarget
    } else if index == 7 {
        QualityStatus::SeverelyCompressed
    } else if index == 8 {
        QualityStatus::LowDynamic
    } else if index == 9 {
        QualityStatus::LowBitrate
    } else if index == 10 {
        QualityStatus::LowSampleRate
    } else {
        QualityStatus::Mono
    }
}

/// Builds the parts of a report.
pub struct ReportGenerator;

impl ReportGenerator {
    /// A report generator; it holds no state.
    pub fn new() -> Self {
        ReportGenerator
    }

    /// The positions of the analyses in ranking order: higher scores first,
    /// equal scores in the order of the list.
    pub fn rank_by_score(&self, analyses: &Vec<QualityAnalysis>) -> (order: Vec<usize>)
        ensures
            is_ranking(scores_of(analyses@), order@, analyses.len() as int),
    {
        let ghost scores = scores_of(analyses@);
        let mut order: Vec<usize> = Vec::new();
        let mut i: usize = 0;
        while i < analyses.len()
            invariant
                i <= analyses.len(),
                scores == scores_of(analyses@),
                is_ranking(scores, order@, i as int),
            decreases analyses.len() - i,
        {
            let score = analyses[i].quality_score;
            let mut at: usize = 0;
            while at < order.len() && analyses[order[at]].quality_score >= score
                invariant
                    at <= order.len(),
                    i < analyses.len(),
                    scores == scores_of(analyses@),
                    score == scores[i as int],
                    is_ranking(scores, order@, i as int),
                    forall|p: int| 0 <= p < at ==> scores[order@[p] as int] >= score,
                decreases order.len() - at,
            {
                at = at + 1;
            }
            let ghost before = order@;
            order.insert(at, i);
            proof {
                assert(order@ == before.insert(at as int, i));
                assert forall|p: int, q: int| 0 <= p < q < order.len() implies ranks_before(
                    scores,
                    #[trigger] order[p] as int,
                    #[trigger] order[q] as int,
                ) by {
                    if q < at {
                        assert(ranks_before(scores, before[p] as int, before[q] as int));
                    } else if q == at {
                        assert(scores[before[p] as int] >= score);
                        assert(before[p] < i);
                    } else if p == at {
                        assert(before[q - 1] < i);
                        if at < before.len() {
                            assert(scores[before[at as int] as int] < score);
                            if q - 1 > at {
                                assert(ranks_before(
                                    scores,
                                    before[at as int] as int,
                                    before[q - 1] as int,
                                ));
                            }
                        }
                    } else if p < at {
                        assert(ranks_before(scores, before[p] as int, before[q - 1] as int));
                    } else {
                        assert(ranks_before(scores, before[p - 1] as int, before[q - 1] as int));
                    }
                }
            }
            i = i + 1;
        }
        order
    }

    /// The rows of the report table, best score first; analyses of equal
    /// score keep their order.
    pub fn generate_csv_report(&self, analyses: &Vec<QualityAnalysis>) -> (rows: Vec<CsvRecord>)
        ensures
            rows.len() == analyses.len(),
            exists|order: Seq<usize>|
                is_ranking(scores_of(analyses@), order, analyses.len() as int) && forall|p: int|
                    0 <= p < rows.len() ==> (#[trigger] rows[p])@ == record_of(
                        analyses[order[p] as int]@,
                    ),
    {
        let order = self.rank_by_score(analyses);
        let mut rows: Vec<CsvRecord> = Vec::new();
        let mut p: usize = 0;
        while p < order.len()
            invariant
                p <= order.len(),
                rows.len() == p,
                is_ranking(scores_of(analyses@), order@, analyses.len() as int),
                forall|k: int|
                    0 <= k < p ==> (#[trigger] rows[k])@ == record_of(analyses[order[k] as int]@),
            decreases order.len() - p,
        {
            rows.push(CsvRecord::from_analysis(&analyses[order[p]]));
            p = p + 1;
        }
        rows
    }

    /// The summary of a report: the distribution of the statuses, the ten
    /// best files and the figures on the scores. There is none for an empty
    /// report.
    pub fn display_summary(&self, analyses: &Vec<QualityAnalysis>) -> (summary: Option<Summary>)
        ensures
            summary is None <==> analyses.len() == 0,
            summary matches Some(shown) ==> {
                &&& is_statistics(shown.statistics, scores_of(analyses@))
                &&& is_top(
                    shown.top@,
                    analyses@,
                    shown_count(SUMMARY_TOP_N as int, analyses.len() as int),
                )
                &&& is_distribution(shown.distribution@, statuses_of(analyses@))
            },
    {
        match self.score_statistics(analyses) {
            Some(statistics) => Some(
                Summary {
                    distribution: self.status_distribution(analyses),
                    top: self.top_rankings(analyses, SUMMARY_TOP_N),
                    statistics,
                },
            ),
            None => None,
        }
    }

    /// The best `top_n` files, fewer if there are fewer, in ranking order.
    pub fn top_rankings(&self, analyses: &Vec<QualityAnalysis>, top_n: usize) -> (top: Vec<RankedFile>)
        ensures
            is_top(top@, analyses@, shown_count(top_n as int, analyses.len() as int)),
    {
        let order = self.rank_by_score(analyses);
        let shown: usize = if top_n <= order.len() {
            top_n
        } else {
            order.len()
        };
        let mut top: Vec<RankedFile> = Vec::new();
        let mut p: usize = 0;
        while p < shown
            invariant
                p <= shown <= order.len(),
                top.len() == p,
                is_ranking(scores_of(analyses@), order@, analyses.len() as int),
                forall|k: int|
                    0 <= k < p ==> is_ranked_entry(
                        #[trigger] top[k],
                        analyses[order[k] as int],
                        k + 1,
                    ),
            decreases shown - p,
        {
            let analysis = &analyses[order[p]];
            top.push(
                RankedFile {
                    rank: p + 1,
                    quality_score: analysis.quality_score,
                    status: analysis.status,
                    file_name: Self::file_name_of(analysis.file_path.as_str()),
                },
            );
            p = p + 1;
        }
        top
    }

    /// The final component of `path`, or `Unknown`.
    pub fn file_name_of(path: &str) -> (name: String)
        ensures
            name@ == listed_name(path@),
    {
        let chars = to_chars(path);
        let mut start: usize = 0;
        let mut i: usize = 0;
        while i < chars.len()
            invariant
                i <= chars.len(),
                start as int == last_separator(chars@.take(i as int)) + 1,
                start <= i,
            decreases chars.len() - i,
        {
            assert(chars@.take(i + 1).drop_last() == chars@.take(i as int));
            if chars[i] == '/' || chars[i] == '\\' {
                start = i + 1;
            }
            i = i + 1;
        }
        assert(chars@.take(chars.len() as int) == chars@);
        if start == chars.len() {
            "Unknown".to_owned()
        } else {
            path.substring_char(start, chars.len()).to_owned()
        }
    }

    /// How often each status occurs, for the statuses that occur at all, in
    /// the order of [`status_index`].
    pub fn status_distribution(&self, analyses: &Vec<QualityAnalysis>) -> (distribution: Vec<
        StatusCount,
    >)
        ensures
            is_distribution(distribution@, statuses_of(analyses@)),
    {
        let ghost statuses = statuses_of(analyses@);
        let mut distribution: Vec<StatusCount> = Vec::new();
        let mut index: usize = 0;
        while index < 12
            invariant
                index <= 12,
                statuses == statuses_of(analyses@),
                forall|k: int|
                    0 <= k < distribution.len() ==> is_count_entry(
                        #[trigger] distribution[k],
                        statuses,
                    ) && status_index(distribution[k].status) < index,
                forall|i: int, j: int|
                    0 <= i < j < distribution.len() ==> status_index(
                        (#[trigger] distribution[i]).status,
                    ) < status_index((#[trigger] distribution[j]).status),
                forall|status: QualityStatus| #[trigger]
                    count_status(statuses, status) > 0 && status_index(status) < index
                        ==> exists|k: int|
                        0 <= k < distribution.len() && (#[trigger] distribution[k]).status
                            == status,
            decreases 12 - index,
        {
            let status = status_by_index(index);
            let count = Self::count_of(analyses, status);
            let ghost before = distribution@;
            if count > 0 {
                let total: u128 = analyses.len() as u128;
                let share: u128 = (count as u128 * 2000 + total) / (2 * total);
                assert(share <= 1001) by (nonlinear_arith)
                    requires
                        share == (count as u128 * 2000 + total) / (2 * total),
                        0 < count <= total,
                ;
                distribution.push(StatusCount { status, count, share_permille: share as u64 });
            }
            proof {
                assert forall|other: QualityStatus| #[trigger]
                    count_status(statuses, other) > 0 && status_index(other) < index + 1 implies exists|
                    k: int,
                |
                    0 <= k < distribution.len() && (#[trigger] distribution[k]).status == other by {
                    if status_index(other) < index {
                        let k = choose|k: int|
                            0 <= k < before.len() && (#[trigger] before[k]).status == other;
                        assert(distribution[k].status == other);
                    } else {
                        assert(other == status);
                        assert(distribution[distribution.len() - 1].status == other);
                    }
                }
            }
            index = index + 1;
        }
        distribution
    }

    /// How many of the analyses have `status`.
    pub fn count_of(analyses: &Vec<QualityAnalysis>, status: QualityStatus) -> (count: usize)
        ensures
            count == count_status(statuses_of(analyses@), status),
            count <= analyses.len(),
    {
        let ghost statuses = statuses_of(analyses@);
        let mut count: usize = 0;
        let mut i: usize = 0;
        while i < analyses.len()
            invariant
                i <= analyses.len(),
                statuses == statuses_of(analyses@),
                count == count_status(statuses.take(i as int), status),
                count <= i,
            decreases analyses.len() - i,
        {
            assert(statuses.take(i + 1).drop_last() == statuses.take(i as int));
            if analyses[i].status == status {
                count = count + 1;
            }
            i = i + 1;
        }
        assert(statuses.take(analyses.len() as int) == statuses);
        count
    }

    /// The figures on the scores, if there is any analysis.
    pub fn score_statistics(&self, analyses: &Vec<QualityAnalysis>) -> (statistics: Option<
        ScoreStatistics,
    >)
        ensures
            statistics is None <==> analyses.len() == 0,
            statistics matches Some(figures) ==> is_statistics(figures, scores_of(analyses@)),
    {
        if analyses.len() == 0 {
            return None;
        }
        let ghost scores = scores_of(analyses@);
        let mut sum: i128 = analyses[0].quality_score as i128;
        let mut max_score: i32 = analyses[0].quality_score;
        let mut min_score: i32 = analyses[0].quality_score;
        let mut i: usize = 1;
        proof {
            let first = scores.take(1);
            assert(first.drop_last().len() == 0);
            assert(first.last() == scores[0]);
            assert(sum_of(first.drop_last()) == 0);
            assert(sum_of(first) == scores[0]);
            assert(first[0] == scores[0]);
        }
        while i < analyses.len()
            invariant
                1 <= i <= analyses.len(),
                scores == scores_of(analyses@),
                sum == sum_of(scores.take(i as int)),
                -0x8000_0000 * i <= sum <= 0x8000_0000 * i,
                is_max_of(scores.take(i as int), max_score as int),
                is_min_of(scores.take(i as int), min_score as int),
            decreases analyses.len() - i,
        {
            let score = analyses[i].quality_score;
            proof {
                let longer = scores.take(i + 1);
                let shorter = scores.take(i as int);
                assert(longer.drop_last() == shorter);
                assert(longer.last() == score);
                let old_max = choose|k: int| 0 <= k < shorter.len() && shorter[k] == max_score;
                assert(longer[old_max] == max_score);
                let old_min = choose|k: int| 0 <= k < shorter.len() && shorter[k] == min_score;
                assert(longer[old_min] == min_score);
                assert(longer[i as int] == score);
                assert forall|k: int| 0 <= k < longer.len() implies longer[k] <= (if score
                    > max_score {
                    score
                } else {
                    max_score
                }) && longer[k] >= (if score < min_score {
                    score
                } else {
                    min_score
                }) by {
                    if k < i {
                        assert(shorter[k] == longer[k]);
                    }
                }
            }
            sum = sum + score as i128;
            if score > max_score {
                max_score = score;
            }
            if score < min_score {
                min_score = score;
            }
            i = i + 1;
        }
        assert(scores.take(analyses.len() as int) == scores);
        let total: i128 = analyses.len() as i128;
        let average_tenths: i128 = if sum >= 0 {
            (sum * 20 + total) / (2 * total)
        } else {
            -((-sum * 20 + total) / (2 * total))
        };
        assert(-0x8000_0000 * 11 <= average_tenths <= 0x8000_0000 * 11) by (nonlinear_arith)
            requires
                -0x8000_0000 * total <= sum <= 0x8000_0000 * total,
                total > 0,
                average_tenths == (if sum >= 0 {
                    (sum * 20 + total) / (2 * total)
                } else {
                    -((-sum * 20 + total) / (2 * total))
                }),
        ;
        Some(
            ScoreStatistics {
                total_files: analyses.len(),
                average_tenths: average_tenths as i64,
                max_score,
                min_score,
            },
        )
    }
}

/// The mean of `count` values that sum to `sum`, in tenths, rounded to the
/// nearest, halves away from zero.
pub open spec fn mean_tenths(sum: int, count: int) -> int {
    if sum >= 0 {
        (sum * 20 + count) / (2 * count)
    } else {
        -((-sum * 20 + count) / (2 * count))
    }
}

impl Default for ReportGenerator {
    fn default() -> Self {
        Self::new()
    }
}

} // verus!
