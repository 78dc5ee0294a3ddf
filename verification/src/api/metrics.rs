//! Metric listings and champion/challenger comparisons: which rows a response
//! yields, and the table printed for them.

use vstd::prelude::*;
use vstd::string::StringExecFns;
use crate::api::error::OpsmlError;
use crate::api::render::colour_off;
use crate::api::render::green;
use crate::api::render::green_on;
use crate::api::render::grid;
use crate::api::render::red;
use crate::api::render::red_on;
use crate::api::render::render_table;
use crate::api::render::sharp_table;
use crate::api::text::copy_texts;
use crate::api::text::opt_str;
use crate::api::text::opt_text;
use crate::api::text::owned;
use crate::api::text::texts;
use crate::api::types::BattleReport;
use crate::api::types::CardRequest;
use crate::api::types::CompareMetricRequest;
use crate::api::types::CompareMetricResponse;
use crate::api::types::CompareMetricTable;
use crate::api::types::ListMetricResponse;
use crate::api::types::Metric;
use crate::api::types::MetricTable;
use crate::api::utils::is_success;
use crate::api::utils::query_output;
use crate::api::utils::response_output;
use crate::api::utils::text_result;

verus! {

/// The column titles of the metric table.
pub open spec fn metric_header() -> Seq<Seq<char>> {
    seq!["metric"@, "value"@, "step"@, "timestamp"@]
}

/// The column titles of the comparison table.
pub open spec fn compare_header() -> Seq<Seq<char>> {
    seq![
        "Champion Name"@,
        "Champion Version"@,
        "Metric"@,
        "Champion Value"@,
        "Challenger Value"@,
        "Challenger Win"@,
    ]
}

/// An optional text as a cell shows it: the text, or `None`.
pub open spec fn or_none(text: Option<String>) -> Seq<char> {
    match text {
        Some(given) => given@,
        None => "None"@,
    }
}

/// The win indicator: `true` in green, `false` in red.
pub open spec fn win_text(win: bool) -> Seq<char> {
    if win {
        green_on() + "true"@ + colour_off()
    } else {
        red_on() + "false"@ + colour_off()
    }
}

impl Metric {
    /// The metric's row of the metric table.
    pub open spec fn cells(&self) -> Seq<Seq<char>> {
        seq![self.name@, self.value@, or_none(self.step), or_none(self.timestamp)]
    }
}

impl MetricTable {
    /// The row's cells, left to right.
    pub open spec fn cells(&self) -> Seq<Seq<char>> {
        seq![self.metric@, self.value@, self.step@, self.timestamp@]
    }

    /// The row's cells as a record for the table.
    pub fn record(&self) -> (cells: Vec<String>)
        ensures
            texts(cells@) == self.cells(),
    {
        let mut cells: Vec<String> = Vec::new();
        cells.push(self.metric.clone());
        cells.push(self.value.clone());
        cells.push(self.step.clone());
        cells.push(self.timestamp.clone());
        assert(texts(cells@) =~= self.cells());
        cells
    }
}

impl BattleReport {
    /// Both sides of the comparison carry a metric.
    pub open spec fn complete(&self) -> bool {
        self.champion_metric is Some && self.challenger_metric is Some
    }

    /// The report's row of the comparison table, where it is complete. The
    /// metric named is the champion's.
    pub open spec fn cells(&self) -> Seq<Seq<char>> {
        seq![
            self.champion_name@,
            self.champion_version@,
            self.champion_metric->0.name@,
            self.champion_metric->0.value@,
            self.challenger_metric->0.value@,
            win_text(self.challenger_win),
        ]
    }

    /// The rows a report contributes: its own when it is complete, none
    /// when either metric is missing.
    pub open spec fn rows(&self) -> Seq<Seq<Seq<char>>> {
        if self.complete() {
            seq![self.cells()]
        } else {
            Seq::empty()
        }
    }
}

impl CompareMetricTable {
    /// The row's cells, left to right.
    pub open spec fn cells(&self) -> Seq<Seq<char>> {
        seq![
            self.champion_name@,
            self.champion_version@,
            self.metric@,
            self.champion_value@,
            self.challenger_value@,
            win_text(self.challenger_win),
        ]
    }

    /// The row's cells as a record for the table.
    pub fn record(&self) -> (cells: Vec<String>)
        ensures
            texts(cells@) == self.cells(),
    {
        let mut cells: Vec<String> = Vec::new();
        cells.push(self.champion_name.clone());
        cells.push(self.champion_version.clone());
        cells.push(self.metric.clone());
        cells.push(self.champion_value.clone());
        cells.push(self.challenger_value.clone());
        cells.push(win_indicator(self.challenger_win));
        assert(texts(cells@) =~= self.cells());
        cells
    }
}

/// The rows of the first `n` metrics of a list.
pub open spec fn metric_rows(metrics: Seq<Metric>, n: int) -> Seq<Seq<Seq<char>>>
    decreases n,
{
    if n <= 0 {
        Seq::empty()
    } else {
        metric_rows(metrics, n - 1).push(metrics[n - 1].cells())
    }
}

/// The rows of the first `n` groups of a metric response: group after group,
/// each group's metrics in their order.
pub open spec fn metric_table_rows(groups: Seq<(String, Vec<Metric>)>, n: int) -> Seq<
    Seq<Seq<char>>,
>
    decreases n,
{
    if n <= 0 {
        Seq::empty()
    } else {
        metric_table_rows(groups, n - 1) + metric_rows(
            groups[n - 1].1@,
            groups[n - 1].1@.len() as int,
        )
    }
}

/// The rows of the first `n` reports of a list: those of the complete ones, in
/// order.
pub open spec fn report_rows(reports: Seq<BattleReport>, n: int) -> Seq<Seq<Seq<char>>>
    decreases n,
{
    if n <= 0 {
        Seq::empty()
    } else {
        report_rows(reports, n - 1) + reports[n - 1].rows()
    }
}

/// The rows of the first `n` champions of a comparison.
pub open spec fn compare_table_rows(groups: Seq<(String, Vec<BattleReport>)>, n: int) -> Seq<
    Seq<Seq<char>>,
>
    decreases n,
{
    if n <= 0 {
        Seq::empty()
    } else {
        compare_table_rows(groups, n - 1) + report_rows(
            groups[n - 1].1@,
            groups[n - 1].1@.len() as int,
        )
    }
}

/// The win indicator as printed: coloured green for a win, red otherwise.
pub fn win_indicator(win: bool) -> (cell: String)
    ensures
        cell@ == win_text(win),
{
    if win {
        green("true")
    } else {
        red("false")
    }
}

/// The row that a metric contributes to the metric table.
pub fn metric_row(metric: &Metric) -> (row: MetricTable)
    ensures
        row.cells() == metric.cells(),
{
    let step = match &metric.step {
        Some(given) => given.clone(),
        None => String::from_str("None"),
    };
    let timestamp = match &metric.timestamp {
        Some(given) => given.clone(),
        None => String::from_str("None"),
    };
    MetricTable { metric: metric.name.clone(), value: metric.value.clone(), step, timestamp }
}

/// The row that a report contributes to the comparison table: none unless
/// both metrics are there.
pub fn battle_row(report: &BattleReport) -> (row: Option<CompareMetricTable>)
    ensures
        row is Some <==> report.complete(),
        row matches Some(made) ==> made.cells() == report.cells() && made.challenger_win
            == report.challenger_win,
{
    match (&report.champion_metric, &report.challenger_metric) {
        (Some(champion), Some(challenger)) => Some(
            CompareMetricTable {
                champion_name: report.champion_name.clone(),
                champion_version: report.champion_version.clone(),
                metric: champion.name.clone(),
                champion_value: champion.value.clone(),
                challenger_value: challenger.value.clone(),
                challenger_win: report.challenger_win,
            },
        ),
        _ => None,
    }
}

/// A report with a metric missing yields no row; a complete one yields exactly
/// one, whose last cell is the indicator of the report's own `challenger_win`.
/// The two indicators differ.
pub proof fn lemma_report_rows(report: BattleReport)
    ensures
        !report.complete() ==> report.rows().len() == 0,
        report.complete() ==> report.rows().len() == 1 && report.rows()[0].len() == 6
            && report.rows()[0][5] == win_text(report.challenger_win),
        win_text(true) != win_text(false),
{
    assert(win_text(true)[3] == '2');
    assert(win_text(false)[3] == '1');
}

/// The records of the metric table, without its header.
pub fn metric_records(response: &ListMetricResponse) -> (records: Vec<Vec<String>>)
    ensures
        grid(records@) == metric_table_rows(response.metrics@, response.metrics@.len() as int),
{
    let mut records: Vec<Vec<String>> = Vec::new();
    assert(grid(records@) =~= metric_table_rows(response.metrics@, 0));
    let mut i: usize = 0;
    while i < response.metrics.len()
        invariant
            i <= response.metrics.len(),
            grid(records@) == metric_table_rows(response.metrics@, i as int),
        decreases response.metrics.len() - i,
    {
        let metrics = &response.metrics[i].1;
        let ghost done = grid(records@);
        let mut j: usize = 0;
        assert(grid(records@) =~= done + metric_rows(metrics@, 0));
        while j < metrics.len()
            invariant
                j <= metrics.len(),
                grid(records@) == done + metric_rows(metrics@, j as int),
            decreases metrics.len() - j,
        {
            let row = metric_row(&metrics[j]);
            let record = row.record();
            let ghost before = records@;
            records.push(record);
            assert(grid(records@) =~= grid(before).push(metrics@[j as int].cells()));
            assert(grid(records@) =~= done + metric_rows(metrics@, j + 1));
            j = j + 1;
        }
        i = i + 1;
    }
    records
}

/// The records of the comparison table, without its header.
pub fn compare_metric_records(response: &CompareMetricResponse) -> (records: Vec<Vec<String>>)
    ensures
        grid(records@) == compare_table_rows(response.report@, response.report@.len() as int),
{
    let mut records: Vec<Vec<String>> = Vec::new();
    assert(grid(records@) =~= compare_table_rows(response.report@, 0));
    let mut i: usize = 0;
    while i < response.report.len()
        invariant
            i <= response.report.len(),
            grid(records@) == compare_table_rows(response.report@, i as int),
        decreases response.report.len() - i,
    {
        let reports = &response.report[i].1;
        let ghost done = grid(records@);
        let mut j: usize = 0;
        assert(grid(records@) =~= done + report_rows(reports@, 0));
        while j < reports.len()
            invariant
                j <= reports.len(),
                grid(records@) == done + report_rows(reports@, j as int),
            decreases reports.len() - j,
        {
            let ghost before = records@;
            match battle_row(&reports[j]) {
                Some(row) => {
                    let record = row.record();
                    records.push(record);
                    assert(grid(records@) =~= grid(before).push(reports@[j as int].cells()));
                },
                None => {},
            }
            assert(grid(records@) =~= done + report_rows(reports@, j + 1));
            j = j + 1;
        }
        i = i + 1;
    }
    records
}

/// The metric table of a response: one row per metric under the metric
/// titles, laid out by the table renderer.
pub fn parse_metric_response(response: &ListMetricResponse) -> (table: String)
    ensures
        table@ == sharp_table(
            metric_header(),
            metric_table_rows(response.metrics@, response.metrics@.len() as int),
        ),
{
    let mut header: Vec<String> = Vec::new();
    header.push(String::from_str("metric"));
    header.push(String::from_str("value"));
    header.push(String::from_str("step"));
    header.push(String::from_str("timestamp"));
    assert(texts(header@) =~= metric_header());
    render_table(header, metric_records(response))
}

/// The comparison table of a response: one row per complete report under the
/// comparison titles, laid out by the table renderer. Incomplete reports are
/// passed over in silence.
pub fn parse_compare_metric_response(response: &CompareMetricResponse) -> (table: String)
    ensures
        table@ == sharp_table(
            compare_header(),
            compare_table_rows(response.report@, response.report@.len() as int),
        ),
{
    let mut header: Vec<String> = Vec::new();
    header.push(String::from_str("Champion Name"));
    header.push(String::from_str("Champion Version"));
    header.push(String::from_str("Metric"));
    header.push(String::from_str("Champion Value"));
    header.push(String::from_str("Challenger Value"));
    header.push(String::from_str("Challenger Win"));
    assert(texts(header@) =~= compare_header());
    render_table(header, compare_metric_records(response))
}

/// The body of a metric query for one model.
pub fn metric_request(name: Option<&str>, version: Option<&str>, uid: Option<&str>) -> (request:
    CardRequest)
    ensures
        opt_text(request.name) == opt_str(name),
        opt_text(request.version) == opt_str(version),
        opt_text(request.uid) == opt_str(uid),
{
    CardRequest { name: owned(name), version: owned(version), uid: owned(uid) }
}

/// The body of a comparison query: the arguments as given.
pub fn compare_metric_request(
    metric_name: &Vec<String>,
    lower_is_better: &Vec<bool>,
    challenger_uid: &str,
    champion_uid: &Vec<String>,
) -> (request: CompareMetricRequest)
    ensures
        request.metric_name@ == metric_name@,
        request.lower_is_better@ == lower_is_better@,
        request.challenger_uid@ == challenger_uid@,
        request.champion_uid@ == champion_uid@,
{
    CompareMetricRequest {
        metric_name: copy_texts(metric_name),
        lower_is_better: lower_is_better.clone(),
        challenger_uid: challenger_uid.to_string(),
        champion_uid: copy_texts(champion_uid),
    }
}

/// What a metric query ends in: the table for a decoded success response, an
/// error for any other status or for a body that did not decode.
pub fn model_metrics_output(status: u16, response: Option<&ListMetricResponse>) -> (output: Result<
    String,
    OpsmlError,
>)
    ensures
        text_result(output) == response_output(
            status,
            match response {
                Some(decoded) => Some(
                    sharp_table(
                        metric_header(),
                        metric_table_rows(decoded.metrics@, decoded.metrics@.len() as int),
                    ),
                ),
                None => None,
            },
        ),
{
    let table = match response {
        Some(decoded) if is_success(status) => Some(parse_metric_response(decoded)),
        _ => None,
    };
    query_output(status, table)
}

/// What a comparison query ends in: the table for a decoded success response,
/// an error for any other status or for a body that did not decode.
pub fn compare_metrics_output(status: u16, response: Option<&CompareMetricResponse>) -> (output:
    Result<String, OpsmlError>)
    ensures
        text_result(output) == response_output(
            status,
            match response {
                Some(decoded) => Some(
                    sharp_table(
                        compare_header(),
                        compare_table_rows(decoded.report@, decoded.report@.len() as int),
                    ),
                ),
                None => None,
            },
        ),
{
    let table = match response {
        Some(decoded) if is_success(status) => Some(parse_compare_metric_response(decoded)),
        _ => None,
    };
    query_output(status, table)
}

} // verus!
