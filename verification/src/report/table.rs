//! Summary tables of reports.
use vstd::prelude::*;
use crate::decimal::{decimal, decimal_text, one_place, one_place_text};
use crate::latency::{format_ns, ns_text, LatencyStats};
use crate::report::kinds::{backend_name, backend_text, codec_name, codec_text};
use crate::report::model::{
    LayoutOutcome, ReportBundle, ScenarioOutcome, ScenarioReport, ThroughputOutcome,
};
use crate::table::{ascii_table_text, draw_ascii_table, push_cell, push_row, row_views};
use crate::text::views;

verus! {

/// The measured quantities of a throughput scenario in the notation of the
/// summary: the average access time, the access speedup, and the throughputs
/// of producer and consumers.
#[derive(Clone, Debug)]
pub struct SummaryNumbers {
    pub access_avg: String,
    pub access_speedup: String,
    pub prod_ops: String,
    pub cons_ops: String,
}

/// A number of bytes in the unit that suits it.
pub open spec fn alloc_bytes_text(bytes: nat) -> Seq<char> {
    if bytes >= 1_000_000 {
        one_place_text(bytes, 1_000_000) + "MB"@
    } else if bytes >= 1_000 {
        one_place_text(bytes, 1_000) + "KB"@
    } else {
        decimal_text(bytes) + "B"@
    }
}

/// A number of bytes in the unit that suits it.
pub fn human_alloc_bytes(bytes: u64) -> (r: String)
    ensures
        r@ == alloc_bytes_text(bytes as nat),
{
    if bytes >= 1_000_000 {
        let mut out = one_place(bytes, 1_000_000);
        out.append("MB");
        out
    } else if bytes >= 1_000 {
        let mut out = one_place(bytes, 1_000);
        out.append("KB");
        out
    } else {
        let mut out = decimal(bytes);
        out.append("B");
        out
    }
}

/// Every scenario is a layout scenario.
pub open spec fn all_layout(scenarios: Seq<ScenarioReport>) -> bool {
    forall|i: int| 0 <= i < scenarios.len() ==> (#[trigger] scenarios[i]).outcome is Layout
}

/// Every scenario is a throughput scenario.
pub open spec fn all_throughput(scenarios: Seq<ScenarioReport>) -> bool {
    forall|i: int| 0 <= i < scenarios.len() ==> (#[trigger] scenarios[i]).outcome is Throughput
}

/// The header of a layout summary.
pub open spec fn layout_header() -> Seq<Seq<char>> {
    seq![
        "Target"@,
        "Backend"@,
        "Layer"@,
        "Avg (ns/op)"@,
        "Budget (ns)"@,
        "Result"@,
    ]
}

/// The row of a layout scenario.
pub open spec fn layout_row(scenario: ScenarioReport, layout: LayoutOutcome) -> Seq<Seq<char>> {
    seq![
        scenario.identity.scenario@,
        backend_text(scenario.identity.backend),
        scenario.identity.layer@,
        decimal_text(layout.avg_ns as nat),
        decimal_text(layout.budget_ns as nat),
        if layout.pass {
            "PASS"@
        } else {
            "FAIL"@
        },
    ]
}

/// The header of a throughput summary.
pub open spec fn throughput_header() -> Seq<Seq<char>> {
    seq![
        "Scenario"@,
        "Bknd"@,
        "Layer"@,
        "Codec"@,
        "Cons"@,
        "Access"@,
        "Access x"@,
        "Allocs"@,
        "Alloc bytes"@,
        "Prod ops/s"@,
        "Cons ops/s"@,
        "P50"@,
        "P99"@,
        "P99.9"@,
        "P99.99"@,
        "P99.999"@,
    ]
}

/// The notation of a latency figure; a dash where none was measured.
pub open spec fn latency_text(latency: Option<LatencyStats>, ns: nat) -> Seq<char> {
    match latency {
        Some(_) => ns_text(ns),
        None => "-"@,
    }
}

/// The row of a throughput scenario.
pub open spec fn throughput_row(
    scenario: ScenarioReport,
    outcome: ThroughputOutcome,
    numbers: SummaryNumbers,
) -> Seq<Seq<char>> {
    let derived = outcome.derived;
    let latency = outcome.latency;
    seq![
        scenario.identity.scenario@,
        backend_text(scenario.identity.backend),
        scenario.identity.layer@,
        match scenario.identity.codec {
            Some(kind) => codec_text(kind),
            None => "-"@,
        },
        decimal_text(scenario.config.workload.num_consumers as nat),
        if derived.access_avg_ns is Some {
            numbers.access_avg@
        } else {
            "-"@
        },
        if derived.access_vs_decode_speedup is Some {
            numbers.access_speedup@
        } else {
            "-"@
        },
        match derived.alloc_count {
            Some(count) => decimal_text(count as nat),
            None => "-"@,
        },
        match derived.alloc_bytes {
            Some(bytes) => alloc_bytes_text(bytes as nat),
            None => "-"@,
        },
        numbers.prod_ops@,
        numbers.cons_ops@,
        latency_text(latency, latency->0.p50_ns as nat),
        latency_text(latency, latency->0.p99_ns as nat),
        latency_text(latency, latency->0.p999_ns as nat),
        latency_text(latency, latency->0.p9999_ns as nat),
        latency_text(latency, latency->0.p99999_ns as nat),
    ]
}

/// The rows of a layout summary, header first.
pub open spec fn layout_table(scenarios: Seq<ScenarioReport>) -> Seq<Seq<Seq<char>>> {
    seq![layout_header()] + Seq::new(
        scenarios.len(),
        |i: int| layout_row(scenarios[i], scenarios[i].outcome->Layout_0),
    )
}

/// The rows of a throughput summary, header first.
pub open spec fn throughput_table(
    scenarios: Seq<ScenarioReport>,
    numbers: Seq<SummaryNumbers>,
) -> Seq<Seq<Seq<char>>> {
    seq![throughput_header()] + Seq::new(
        scenarios.len(),
        |i: int| throughput_row(scenarios[i], scenarios[i].outcome->Throughput_0, numbers[i]),
    )
}

/// The cells of a layout scenario.
fn layout_cells(scenario: &ScenarioReport, layout: &LayoutOutcome) -> (r: Vec<String>)
    ensures
        views(r@) == layout_row(*scenario, *layout),
{
    let mut row: Vec<String> = Vec::new();
    assert(views(row@) =~= Seq::empty());
    push_cell(&mut row, scenario.identity.scenario.clone());
    push_cell(&mut row, backend_name(&scenario.identity.backend));
    push_cell(&mut row, scenario.identity.layer.clone());
    push_cell(&mut row, decimal(layout.avg_ns));
    push_cell(&mut row, decimal(layout.budget_ns));
    let verdict: String = if layout.pass {
        "PASS".to_owned()
    } else {
        "FAIL".to_owned()
    };
    push_cell(&mut row, verdict);
    row
}

/// The notation of a latency figure; a dash where none was measured.
fn latency_cell(ns: Option<u64>) -> (r: String)
    ensures
        r@ == match ns {
            Some(ns) => ns_text(ns as nat),
            None => "-"@,
        },
{
    match ns {
        Some(ns) => format_ns(ns),
        None => "-".to_owned(),
    }
}

/// The cells of a throughput scenario.
fn throughput_cells(
    scenario: &ScenarioReport,
    outcome: &ThroughputOutcome,
    numbers: &SummaryNumbers,
) -> (r: Vec<String>)
    ensures
        views(r@) == throughput_row(*scenario, *outcome, *numbers),
{
    let (p50, p99, p999, p9999, p99999): (
        Option<u64>,
        Option<u64>,
        Option<u64>,
        Option<u64>,
        Option<u64>,
    ) = match &outcome.latency {
        Some(stats) => (
            Some(stats.p50_ns),
            Some(stats.p99_ns),
            Some(stats.p999_ns),
            Some(stats.p9999_ns),
            Some(stats.p99999_ns),
        ),
        None => (None, None, None, None, None),
    };
    let mut row: Vec<String> = Vec::new();
    assert(views(row@) =~= Seq::empty());
    push_cell(&mut row, scenario.identity.scenario.clone());
    push_cell(&mut row, backend_name(&scenario.identity.backend));
    push_cell(&mut row, scenario.identity.layer.clone());
    let codec = match &scenario.identity.codec {
        Some(kind) => codec_name(kind),
        None => "-".to_owned(),
    };
    push_cell(&mut row, codec);
    push_cell(&mut row, decimal(scenario.config.workload.num_consumers as u64));
    let access_avg = if outcome.derived.access_avg_ns.is_some() {
        numbers.access_avg.clone()
    } else {
        "-".to_owned()
    };
    push_cell(&mut row, access_avg);
    let access_speedup = if outcome.derived.access_vs_decode_speedup.is_some() {
        numbers.access_speedup.clone()
    } else {
        "-".to_owned()
    };
    push_cell(&mut row, access_speedup);
    let alloc_count = match outcome.derived.alloc_count {
        Some(count) => decimal(count),
        None => "-".to_owned(),
    };
    push_cell(&mut row, alloc_count);
    let alloc_bytes = match outcome.derived.alloc_bytes {
        Some(bytes) => human_alloc_bytes(bytes),
        None => "-".to_owned(),
    };
    push_cell(&mut row, alloc_bytes);
    push_cell(&mut row, numbers.prod_ops.clone());
    push_cell(&mut row, numbers.cons_ops.clone());
    push_cell(&mut row, latency_cell(p50));
    push_cell(&mut row, latency_cell(p99));
    push_cell(&mut row, latency_cell(p999));
    push_cell(&mut row, latency_cell(p9999));
    push_cell(&mut row, latency_cell(p99999));
    row
}

/// The rows of a layout summary, header first.
pub fn layout_rows(report: &ReportBundle) -> (r: Vec<Vec<String>>)
    requires
        all_layout(report.scenarios@),
    ensures
        row_views(r@) == layout_table(report.scenarios@),
{
    let mut row: Vec<String> = Vec::new();
    assert(views(row@) =~= Seq::empty());
    push_cell(&mut row, "Target".to_owned());
    push_cell(&mut row, "Backend".to_owned());
    push_cell(&mut row, "Layer".to_owned());
    push_cell(&mut row, "Avg (ns/op)".to_owned());
    push_cell(&mut row, "Budget (ns)".to_owned());
    push_cell(&mut row, "Result".to_owned());
    assert(views(row@) == layout_header());
    let mut rows: Vec<Vec<String>> = Vec::new();
    assert(row_views(rows@) =~= Seq::empty());
    push_row(&mut rows, row);
    assert(row_views(rows@) =~= seq![layout_header()]);
    assert(row_views(rows@) =~= layout_table(report.scenarios@.take(0)));
    for i in 0..report.scenarios.len()
        invariant
            all_layout(report.scenarios@),
            row_views(rows@) == layout_table(report.scenarios@.take(i as int)),
    {
        let scenario = &report.scenarios[i];
        assert(report.scenarios@[i as int].outcome is Layout);
        if let ScenarioOutcome::Layout(layout) = &scenario.outcome {
            push_row(&mut rows, layout_cells(scenario, layout));
        }
        assert(row_views(rows@) =~= layout_table(report.scenarios@.take(i + 1)));
    }
    assert(report.scenarios@.take(report.scenarios@.len() as int) =~= report.scenarios@);
    rows
}

/// The rows of a throughput summary, header first.
pub fn throughput_rows(report: &ReportBundle, numbers: &Vec<SummaryNumbers>) -> (r: Vec<
    Vec<String>,
>)
    requires
        all_throughput(report.scenarios@),
        numbers@.len() == report.scenarios@.len(),
    ensures
        row_views(r@) == throughput_table(report.scenarios@, numbers@),
{
    let mut row: Vec<String> = Vec::new();
    assert(views(row@) =~= Seq::empty());
    push_cell(&mut row, "Scenario".to_owned());
    push_cell(&mut row, "Bknd".to_owned());
    push_cell(&mut row, "Layer".to_owned());
    push_cell(&mut row, "Codec".to_owned());
    push_cell(&mut row, "Cons".to_owned());
    push_cell(&mut row, "Access".to_owned());
    push_cell(&mut row, "Access x".to_owned());
    push_cell(&mut row, "Allocs".to_owned());
    push_cell(&mut row, "Alloc bytes".to_owned());
    push_cell(&mut row, "Prod ops/s".to_owned());
    push_cell(&mut row, "Cons ops/s".to_owned());
    push_cell(&mut row, "P50".to_owned());
    push_cell(&mut row, "P99".to_owned());
    push_cell(&mut row, "P99.9".to_owned());
    push_cell(&mut row, "P99.99".to_owned());
    push_cell(&mut row, "P99.999".to_owned());
    assert(views(row@) == throughput_header());
    let mut rows: Vec<Vec<String>> = Vec::new();
    assert(row_views(rows@) =~= Seq::empty());
    push_row(&mut rows, row);
    assert(row_views(rows@) =~= seq![throughput_header()]);
    assert(row_views(rows@) =~= throughput_table(report.scenarios@.take(0), numbers@));
    for i in 0..report.scenarios.len()
        invariant
            all_throughput(report.scenarios@),
            numbers@.len() == report.scenarios@.len(),
            row_views(rows@) == throughput_table(report.scenarios@.take(i as int), numbers@),
    {
        let scenario = &report.scenarios[i];
        assert(report.scenarios@[i as int].outcome is Throughput);
        if let ScenarioOutcome::Throughput(outcome) = &scenario.outcome {
            push_row(&mut rows, throughput_cells(scenario, outcome, &numbers[i]));
        }
        assert(row_views(rows@) =~= throughput_table(report.scenarios@.take(i + 1), numbers@));
    }
    assert(report.scenarios@.take(report.scenarios@.len() as int) =~= report.scenarios@);
    rows
}

impl ReportBundle {
    /// The rows of the summary that suits the scenarios.
    pub open spec fn summary_rows(&self, numbers: Seq<SummaryNumbers>) -> Seq<Seq<Seq<char>>> {
        if all_layout(self.scenarios@) {
            layout_table(self.scenarios@)
        } else {
            throughput_table(self.scenarios@, numbers)
        }
    }

    /// Whether every scenario is a layout scenario.
    pub fn is_layout_only(&self) -> (r: bool)
        ensures
            r == all_layout(self.scenarios@),
    {
        for i in 0..self.scenarios.len()
            invariant
                forall|k: int| 0 <= k < i ==> (#[trigger] self.scenarios@[k]).outcome is Layout,
        {
            if let ScenarioOutcome::Throughput(_) = &self.scenarios[i].outcome {
                assert(!(self.scenarios@[i as int].outcome is Layout));
                return false;
            }
        }
        true
    }

    /// The summary of a report whose scenarios are all of one sort, as a table.
    /// `numbers` holds the notation of the measured quantities of each
    /// scenario; a layout summary does not look at it.
    pub fn render_summary_table(&self, numbers: &Vec<SummaryNumbers>) -> (r: String)
        requires
            all_layout(self.scenarios@) || (all_throughput(self.scenarios@) && numbers@.len()
                == self.scenarios@.len()),
        ensures
            r@ == ascii_table_text(self.summary_rows(numbers@)),
    {
        if self.is_layout_only() {
            draw_ascii_table(layout_rows(self))
        } else {
            draw_ascii_table(throughput_rows(self, numbers))
        }
    }
}

/// In a layout summary each cell stands under the heading that names it, and the
/// scenarios follow the header in their order.
pub proof fn law_layout_cells_stand_under_their_headings(scenarios: Seq<ScenarioReport>, i: int)
    requires
        0 <= i < scenarios.len(),
    ensures
        layout_table(scenarios).len() == scenarios.len() + 1,
        ({
            let header = layout_table(scenarios)[0];
            let row = layout_table(scenarios)[i + 1];
            let layout = scenarios[i].outcome->Layout_0;
            &&& header.len() == 6 && row.len() == 6
            &&& header[0] == "Target"@ && row[0] == scenarios[i].identity.scenario@
            &&& header[1] == "Backend"@ && row[1] == backend_text(scenarios[i].identity.backend)
            &&& header[2] == "Layer"@ && row[2] == scenarios[i].identity.layer@
            &&& header[3] == "Avg (ns/op)"@ && row[3] == decimal_text(layout.avg_ns as nat)
            &&& header[4] == "Budget (ns)"@ && row[4] == decimal_text(layout.budget_ns as nat)
            &&& header[5] == "Result"@
            &&& layout.pass ==> row[5] == "PASS"@
            &&& !layout.pass ==> row[5] == "FAIL"@
        }),
{
}

/// In a throughput summary each cell stands under the heading that names it, a
/// dash where nothing was measured, and the scenarios follow the header in their
/// order.
pub proof fn law_throughput_cells_stand_under_their_headings(
    scenarios: Seq<ScenarioReport>,
    numbers: Seq<SummaryNumbers>,
    i: int,
)
    requires
        0 <= i < scenarios.len(),
    ensures
        throughput_table(scenarios, numbers).len() == scenarios.len() + 1,
        ({
            let header = throughput_table(scenarios, numbers)[0];
            let row = throughput_table(scenarios, numbers)[i + 1];
            let identity = scenarios[i].identity;
            let outcome = scenarios[i].outcome->Throughput_0;
            let derived = outcome.derived;
            &&& header.len() == 16 && row.len() == 16
            &&& header[0] == "Scenario"@ && row[0] == identity.scenario@
            &&& header[1] == "Bknd"@ && row[1] == backend_text(identity.backend)
            &&& header[2] == "Layer"@ && row[2] == identity.layer@
            &&& header[3] == "Codec"@
            &&& identity.codec is Some ==> row[3] == codec_text(identity.codec->0)
            &&& identity.codec is None ==> row[3] == "-"@
            &&& header[4] == "Cons"@
            &&& row[4] == decimal_text(scenarios[i].config.workload.num_consumers as nat)
            &&& header[5] == "Access"@
            &&& derived.access_avg_ns is Some ==> row[5] == numbers[i].access_avg@
            &&& derived.access_avg_ns is None ==> row[5] == "-"@
            &&& header[6] == "Access x"@
            &&& derived.access_vs_decode_speedup is Some ==> row[6] == numbers[i].access_speedup@
            &&& derived.access_vs_decode_speedup is None ==> row[6] == "-"@
            &&& header[7] == "Allocs"@
            &&& derived.alloc_count is Some ==> row[7] == decimal_text(derived.alloc_count->0 as nat)
            &&& derived.alloc_count is None ==> row[7] == "-"@
            &&& header[8] == "Alloc bytes"@
            &&& derived.alloc_bytes is Some ==> row[8] == alloc_bytes_text(
                derived.alloc_bytes->0 as nat,
            )
            &&& derived.alloc_bytes is None ==> row[8] == "-"@
            &&& header[9] == "Prod ops/s"@ && row[9] == numbers[i].prod_ops@
            &&& header[10] == "Cons ops/s"@ && row[10] == numbers[i].cons_ops@
        }),
{
}

/// In a throughput summary each percentile of the latency stands under the
/// heading that names it; dashes stand there where no latency was measured.
pub proof fn law_percentiles_stand_under_their_headings(
    scenarios: Seq<ScenarioReport>,
    numbers: Seq<SummaryNumbers>,
    i: int,
)
    requires
        0 <= i < scenarios.len(),
    ensures
        ({
            let header = throughput_table(scenarios, numbers)[0];
            &&& header[11] == "P50"@
            &&& header[12] == "P99"@
            &&& header[13] == "P99.9"@
            &&& header[14] == "P99.99"@
            &&& header[15] == "P99.999"@
        }),
        ({
            let row = throughput_table(scenarios, numbers)[i + 1];
            let latency = scenarios[i].outcome->Throughput_0.latency;
            if latency is Some {
                &&& row[11] == ns_text(latency->0.p50_ns as nat)
                &&& row[12] == ns_text(latency->0.p99_ns as nat)
                &&& row[13] == ns_text(latency->0.p999_ns as nat)
                &&& row[14] == ns_text(latency->0.p9999_ns as nat)
                &&& row[15] == ns_text(latency->0.p99999_ns as nat)
            } else {
                forall|k: int| 11 <= k < 16 ==> #[trigger] row[k] == "-"@
            }
        }),
{
}

/// Bytes are shown as they are below a thousand, in thousands with one place
/// below a million, and in millions with one place from there on.
pub proof fn law_bytes_are_shown_in_fitting_units(bytes: u64)
    ensures
        bytes < 1_000 ==> alloc_bytes_text(bytes as nat) == decimal_text(bytes as nat) + seq!['B'],
        1_000 <= bytes < 1_000_000 ==> alloc_bytes_text(bytes as nat) == one_place_text(
            bytes as nat,
            1_000,
        ) + seq!['K', 'B'],
        bytes >= 1_000_000 ==> alloc_bytes_text(bytes as nat) == one_place_text(
            bytes as nat,
            1_000_000,
        ) + seq!['M', 'B'],
{
    reveal_strlit("B");
    reveal_strlit("KB");
    reveal_strlit("MB");
    assert("B"@ =~= seq!['B']);
    assert("KB"@ =~= seq!['K', 'B']);
    assert("MB"@ =~= seq!['M', 'B']);
}

} // verus!
