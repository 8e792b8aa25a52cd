//! Reports as comma-separated values.
use vstd::prelude::*;
use crate::decimal::{decimal, decimal_text};
use crate::latency::LatencyStats;
use crate::metric::Metric;
use crate::report::kinds::{
    backend_name, backend_text, codec_name, codec_text, coordination_name, coordination_text,
    discovery_name, discovery_text, framing_name, framing_text, measurement_name,
    measurement_text, wait_strategy_name, wait_strategy_text, ZeroCopyKind,
};
use crate::report::model::{
    LayoutOutcome, ReportBundle, ScenarioOutcome, ScenarioReport, ThroughputOutcome,
};
use crate::table::push_cell;
use crate::text::{join_texts, joined, split_on, views};

verus! {

/// The measured quantities of a throughput scenario in decimal notation, as
/// the columns of the same names show them.
#[derive(Clone, Debug)]
pub struct CsvNumbers {
    pub prod_ops: String,
    pub cons_ops: String,
    pub mbps: String,
    pub cons_min_ops: String,
    pub cons_max_ops: String,
    pub cons_total_ops: String,
    pub pct_raw: String,
    pub delta_raw_pct: String,
    pub speedup_vs_bincode: String,
    pub delta_bincode_pct: String,
    pub access_avg_ns: String,
    pub access_vs_decode_speedup: String,
    pub hw_limit_gbps: String,
    pub hw_efficiency_pct: String,
}

/// The names of the columns.
pub open spec fn csv_header_text() -> Seq<char> {
    "scenario,backend,layer,codec,mode,strategy,msg_bytes,payload_bytes,buffer,consumers,coordination,discovery,zero_copy,framing,prod_ops,cons_ops,mbps,cons_min_ops,cons_max_ops,cons_total_ops,checksum_total,pct_raw,delta_raw_pct,speedup_vs_bincode,delta_bincode_pct,access_avg_ns,access_vs_decode_speedup,alloc_count,alloc_bytes,hw_limit_gbps,hw_efficiency_pct,p1_ns,p10_ns,p25_ns,p50_ns,p75_ns,p90_ns,p95_ns,p99_ns,p999_ns,p9999_ns,p99999_ns,p999999_ns,verified,layout_avg_ns,layout_budget_ns,layout_pass,layout_iterations\n"@
}

/// A truth value in text form.
pub open spec fn bool_text(value: bool) -> Seq<char> {
    if value {
        "true"@
    } else {
        "false"@
    }
}

/// The notation of a quantity, where there is one.
pub open spec fn shown_where(value: Option<Metric>, notation: Seq<char>) -> Seq<char> {
    match value {
        Some(_) => notation,
        None => ""@,
    }
}

/// The notation of a number, where there is one.
pub open spec fn optional_number(value: Option<u64>) -> Seq<char> {
    match value {
        Some(n) => decimal_text(n as nat),
        None => ""@,
    }
}

/// The cells that say what a scenario is.
pub open spec fn identity_cells(scenario: ScenarioReport) -> Seq<Seq<char>> {
    let transport = scenario.config.transport;
    let workload = scenario.config.workload;
    seq![
        scenario.identity.scenario@,
        backend_text(scenario.identity.backend),
        scenario.identity.layer@,
        match scenario.identity.codec {
            Some(kind) => codec_text(kind),
            None => ""@,
        },
        measurement_text(scenario.config.measurement),
        wait_strategy_text(transport.wait_strategy),
        decimal_text(workload.message_size_bytes as nat),
        decimal_text(workload.payload_bytes as nat),
        decimal_text(workload.buffer_depth as nat),
        decimal_text(workload.num_consumers as nat),
        match transport.coordination {
            Some(kind) => coordination_text(kind),
            None => ""@,
        },
        match transport.discovery {
            Some(kind) => discovery_text(kind),
            None => ""@,
        },
        match transport.zero_copy {
            Some(kind) => bool_text(kind == ZeroCopyKind::Enabled),
            None => ""@,
        },
        match transport.framing {
            Some(kind) => framing_text(kind),
            None => ""@,
        },
    ]
}

/// The cells of a scenario's throughput.
pub open spec fn throughput_cells(outcome: ThroughputOutcome, numbers: CsvNumbers) -> Seq<
    Seq<char>,
> {
    seq![
        numbers.prod_ops@,
        numbers.cons_ops@,
        numbers.mbps@,
        shown_where(outcome.consumers.min_throughput_ops_sec, numbers.cons_min_ops@),
        shown_where(outcome.consumers.max_throughput_ops_sec, numbers.cons_max_ops@),
        shown_where(outcome.consumers.total_throughput_ops_sec, numbers.cons_total_ops@),
        optional_number(outcome.consumers.checksum_total),
        shown_where(outcome.derived.pct_of_raw_ring, numbers.pct_raw@),
        shown_where(outcome.derived.delta_vs_raw_ring_pct, numbers.delta_raw_pct@),
        shown_where(outcome.derived.speedup_vs_bincode, numbers.speedup_vs_bincode@),
        shown_where(outcome.derived.delta_vs_bincode_pct, numbers.delta_bincode_pct@),
        shown_where(outcome.derived.access_avg_ns, numbers.access_avg_ns@),
        shown_where(outcome.derived.access_vs_decode_speedup, numbers.access_vs_decode_speedup@),
        optional_number(outcome.derived.alloc_count),
        optional_number(outcome.derived.alloc_bytes),
        shown_where(outcome.derived.hw_bandwidth_limit_gbps, numbers.hw_limit_gbps@),
        shown_where(outcome.derived.hw_efficiency_pct, numbers.hw_efficiency_pct@),
    ]
}

/// The cells of a scenario's latency; empty where none was measured.
pub open spec fn latency_cells(latency: Option<LatencyStats>) -> Seq<Seq<char>> {
    match latency {
        Some(stats) => seq![
            decimal_text(stats.p1_ns as nat),
            decimal_text(stats.p10_ns as nat),
            decimal_text(stats.p25_ns as nat),
            decimal_text(stats.p50_ns as nat),
            decimal_text(stats.p75_ns as nat),
            decimal_text(stats.p90_ns as nat),
            decimal_text(stats.p95_ns as nat),
            decimal_text(stats.p99_ns as nat),
            decimal_text(stats.p999_ns as nat),
            decimal_text(stats.p9999_ns as nat),
            decimal_text(stats.p99999_ns as nat),
            decimal_text(stats.p999999_ns as nat),
        ],
        None => Seq::new(12, |i: int| ""@),
    }
}

/// The cells of a layout scenario after those that say what it is. They are
/// fewer than the columns.
pub open spec fn layout_cells(layout: LayoutOutcome) -> Seq<Seq<char>> {
    Seq::new(20, |i: int| ""@) + seq![
        bool_text(layout.pass),
        decimal_text(layout.avg_ns as nat),
        decimal_text(layout.budget_ns as nat),
        bool_text(layout.pass),
        decimal_text(layout.iterations as nat),
    ]
}

/// The cells of a scenario.
pub open spec fn csv_cells(scenario: ScenarioReport, numbers: CsvNumbers) -> Seq<Seq<char>> {
    match scenario.outcome {
        ScenarioOutcome::Throughput(outcome) => identity_cells(scenario) + throughput_cells(
            outcome,
            numbers,
        ) + latency_cells(outcome.latency) + seq![
            bool_text(outcome.verification.passed),
            ""@,
            ""@,
            ""@,
            ""@,
        ],
        ScenarioOutcome::Layout(layout) => identity_cells(scenario) + layout_cells(layout),
    }
}

/// The lines of the scenarios.
pub open spec fn csv_lines(scenarios: Seq<ScenarioReport>, numbers: Seq<CsvNumbers>) -> Seq<char>
    decreases scenarios.len(),
{
    if scenarios.len() == 0 {
        Seq::empty()
    } else {
        csv_lines(scenarios.drop_last(), numbers) + joined(
            csv_cells(scenarios.last(), numbers[scenarios.len() - 1]),
            ","@,
        ) + "\n"@
    }
}

/// A truth value in text form.
pub fn bool_name(value: bool) -> (r: String)
    ensures
        r@ == bool_text(value),
{
    if value {
        "true".to_owned()
    } else {
        "false".to_owned()
    }
}

/// The notation of a quantity, where there is one.
fn shown(value: &Option<Metric>, notation: &String) -> (r: String)
    ensures
        r@ == shown_where(*value, notation@),
{
    match value {
        Some(_) => notation.clone(),
        None => "".to_owned(),
    }
}

/// The notation of a number, where there is one.
fn shown_number(value: Option<u64>) -> (r: String)
    ensures
        r@ == optional_number(value),
{
    match value {
        Some(n) => decimal(n),
        None => "".to_owned(),
    }
}

/// Adds `count` empty cells.
fn push_empty(cells: &mut Vec<String>, count: usize)
    ensures
        views(final(cells)@) == views(old(cells)@) + Seq::new(count as nat, |i: int| ""@),
{
    let ghost before = views(cells@);
    assert(views(cells@) =~= before + Seq::new(0, |i: int| ""@));
    for k in 0..count
        invariant
            views(cells@) == before + Seq::new(k as nat, |i: int| ""@),
    {
        let ghost now = views(cells@);
        cells.push("".to_owned());
        assert(views(cells@) =~= now.push(""@));
        assert(views(cells@) =~= before + Seq::new((k + 1) as nat, |i: int| ""@));
    }
}

/// Adds the cells that say what a scenario is to an empty row.
fn push_identity(cells: &mut Vec<String>, scenario: &ScenarioReport)
    requires
        old(cells)@.len() == 0,
    ensures
        views(final(cells)@) == identity_cells(*scenario),
{
    assert(views(cells@) =~= Seq::empty());
    let transport = &scenario.config.transport;
    let workload = &scenario.config.workload;
    push_cell(cells, scenario.identity.scenario.clone());
    push_cell(cells, backend_name(&scenario.identity.backend));
    push_cell(cells, scenario.identity.layer.clone());
    let codec = match &scenario.identity.codec {
        Some(kind) => codec_name(kind),
        None => "".to_owned(),
    };
    push_cell(cells, codec);
    push_cell(cells, measurement_name(&scenario.config.measurement));
    push_cell(cells, wait_strategy_name(&transport.wait_strategy));
    push_cell(cells, decimal(workload.message_size_bytes as u64));
    push_cell(cells, decimal(workload.payload_bytes as u64));
    push_cell(cells, decimal(workload.buffer_depth as u64));
    push_cell(cells, decimal(workload.num_consumers as u64));
    let coordination = match &transport.coordination {
        Some(kind) => coordination_name(kind),
        None => "".to_owned(),
    };
    push_cell(cells, coordination);
    let discovery = match &transport.discovery {
        Some(kind) => discovery_name(kind),
        None => "".to_owned(),
    };
    push_cell(cells, discovery);
    let zero_copy = match &transport.zero_copy {
        Some(kind) => bool_name(matches!(kind, ZeroCopyKind::Enabled)),
        None => "".to_owned(),
    };
    push_cell(cells, zero_copy);
    let framing = match &transport.framing {
        Some(kind) => framing_name(kind),
        None => "".to_owned(),
    };
    push_cell(cells, framing);
}

/// Adds the cells of another row.
fn append_cells(cells: &mut Vec<String>, more: Vec<String>)
    ensures
        views(final(cells)@) == views(old(cells)@) + views(more@),
{
    let ghost before = views(cells@);
    let mut more = more;
    let ghost added = views(more@);
    cells.append(&mut more);
    assert(views(cells@) =~= before + added);
}

/// The cells of a scenario's throughput.
fn throughput_row(outcome: &ThroughputOutcome, numbers: &CsvNumbers) -> (r: Vec<String>)
    ensures
        views(r@) == throughput_cells(*outcome, *numbers),
{
    let mut cells: Vec<String> = Vec::new();
    assert(views(cells@) =~= Seq::empty());
    push_cell(&mut cells, numbers.prod_ops.clone());
    push_cell(&mut cells, numbers.cons_ops.clone());
    push_cell(&mut cells, numbers.mbps.clone());
    push_cell(&mut cells, shown(&outcome.consumers.min_throughput_ops_sec, &numbers.cons_min_ops));
    push_cell(&mut cells, shown(&outcome.consumers.max_throughput_ops_sec, &numbers.cons_max_ops));
    push_cell(
        &mut cells,
        shown(&outcome.consumers.total_throughput_ops_sec, &numbers.cons_total_ops),
    );
    push_cell(&mut cells, shown_number(outcome.consumers.checksum_total));
    push_cell(&mut cells, shown(&outcome.derived.pct_of_raw_ring, &numbers.pct_raw));
    push_cell(&mut cells, shown(&outcome.derived.delta_vs_raw_ring_pct, &numbers.delta_raw_pct));
    push_cell(&mut cells, shown(&outcome.derived.speedup_vs_bincode, &numbers.speedup_vs_bincode));
    push_cell(&mut cells, shown(&outcome.derived.delta_vs_bincode_pct, &numbers.delta_bincode_pct));
    push_cell(&mut cells, shown(&outcome.derived.access_avg_ns, &numbers.access_avg_ns));
    push_cell(
        &mut cells,
        shown(&outcome.derived.access_vs_decode_speedup, &numbers.access_vs_decode_speedup),
    );
    push_cell(&mut cells, shown_number(outcome.derived.alloc_count));
    push_cell(&mut cells, shown_number(outcome.derived.alloc_bytes));
    push_cell(&mut cells, shown(&outcome.derived.hw_bandwidth_limit_gbps, &numbers.hw_limit_gbps));
    push_cell(&mut cells, shown(&outcome.derived.hw_efficiency_pct, &numbers.hw_efficiency_pct));
    cells
}

/// The cells of a scenario's latency.
fn latency_row(latency: &Option<LatencyStats>) -> (r: Vec<String>)
    ensures
        views(r@) == latency_cells(*latency),
{
    let mut cells: Vec<String> = Vec::new();
    assert(views(cells@) =~= Seq::empty());
    match latency {
        Some(stats) => {
            push_cell(&mut cells, decimal(stats.p1_ns));
            push_cell(&mut cells, decimal(stats.p10_ns));
            push_cell(&mut cells, decimal(stats.p25_ns));
            push_cell(&mut cells, decimal(stats.p50_ns));
            push_cell(&mut cells, decimal(stats.p75_ns));
            push_cell(&mut cells, decimal(stats.p90_ns));
            push_cell(&mut cells, decimal(stats.p95_ns));
            push_cell(&mut cells, decimal(stats.p99_ns));
            push_cell(&mut cells, decimal(stats.p999_ns));
            push_cell(&mut cells, decimal(stats.p9999_ns));
            push_cell(&mut cells, decimal(stats.p99999_ns));
            push_cell(&mut cells, decimal(stats.p999999_ns));
        },
        None => {
            push_empty(&mut cells, 12);
            assert(views(cells@) =~= latency_cells(*latency));
        },
    }
    cells
}

/// The line of a scenario.
pub fn csv_line(scenario: &ScenarioReport, numbers: &CsvNumbers) -> (r: String)
    ensures
        r@ == joined(csv_cells(*scenario, *numbers), ","@),
{
    let mut cells: Vec<String> = Vec::new();
    push_identity(&mut cells, scenario);
    match &scenario.outcome {
        ScenarioOutcome::Throughput(outcome) => {
            append_cells(&mut cells, throughput_row(outcome, numbers));
            append_cells(&mut cells, latency_row(&outcome.latency));
            push_cell(&mut cells, bool_name(outcome.verification.passed));
            push_empty(&mut cells, 4);
        },
        ScenarioOutcome::Layout(layout) => {
            push_empty(&mut cells, 20);
            push_cell(&mut cells, bool_name(layout.pass));
            push_cell(&mut cells, decimal(layout.avg_ns));
            push_cell(&mut cells, decimal(layout.budget_ns));
            push_cell(&mut cells, bool_name(layout.pass));
            push_cell(&mut cells, decimal(layout.iterations as u64));
        },
    }
    assert(views(cells@) =~= csv_cells(*scenario, *numbers));
    join_texts(&cells, ",")
}

impl ReportBundle {
    /// The report as comma-separated values: a line of column names, then a
    /// line for each scenario. `numbers` holds the notation of the measured
    /// quantities of each; that of a layout scenario is not looked at.
    pub fn write_csv(&self, numbers: &Vec<CsvNumbers>) -> (r: String)
        requires
            numbers@.len() == self.scenarios@.len(),
        ensures
            r@ == csv_header_text() + csv_lines(self.scenarios@, numbers@),
    {
        let mut csv: String =
            "scenario,backend,layer,codec,mode,strategy,msg_bytes,payload_bytes,buffer,consumers,coordination,discovery,zero_copy,framing,prod_ops,cons_ops,mbps,cons_min_ops,cons_max_ops,cons_total_ops,checksum_total,pct_raw,delta_raw_pct,speedup_vs_bincode,delta_bincode_pct,access_avg_ns,access_vs_decode_speedup,alloc_count,alloc_bytes,hw_limit_gbps,hw_efficiency_pct,p1_ns,p10_ns,p25_ns,p50_ns,p75_ns,p90_ns,p95_ns,p99_ns,p999_ns,p9999_ns,p99999_ns,p999999_ns,verified,layout_avg_ns,layout_budget_ns,layout_pass,layout_iterations\n".to_owned();
        assert(csv@ =~= csv_header_text() + csv_lines(self.scenarios@.take(0), numbers@));
        for i in 0..self.scenarios.len()
            invariant
                numbers@.len() == self.scenarios@.len(),
                csv@ == csv_header_text() + csv_lines(self.scenarios@.take(i as int), numbers@),
        {
            let ghost taken = self.scenarios@.take(i + 1);
            assert(taken.drop_last() =~= self.scenarios@.take(i as int));
            csv.append(csv_line(&self.scenarios[i], &numbers[i]).as_str());
            csv.append("\n");
            assert(csv@ =~= csv_header_text() + csv_lines(taken, numbers@));
        }
        assert(self.scenarios@.take(self.scenarios@.len() as int) =~= self.scenarios@);
        csv
    }
}

/// A throughput line has a cell for every column.
pub proof fn law_throughput_line_fills_columns(scenario: ScenarioReport, numbers: CsvNumbers)
    requires
        scenario.outcome is Throughput,
    ensures
        csv_cells(scenario, numbers).len() == 48,
{
}

/// The columns, in order.
pub open spec fn csv_columns() -> Seq<Seq<char>> {
    seq![
        "scenario"@,
        "backend"@,
        "layer"@,
        "codec"@,
        "mode"@,
        "strategy"@,
        "msg_bytes"@,
        "payload_bytes"@,
        "buffer"@,
        "consumers"@,
        "coordination"@,
        "discovery"@,
        "zero_copy"@,
        "framing"@,
        "prod_ops"@,
        "cons_ops"@,
        "mbps"@,
        "cons_min_ops"@,
        "cons_max_ops"@,
        "cons_total_ops"@,
        "checksum_total"@,
        "pct_raw"@,
        "delta_raw_pct"@,
        "speedup_vs_bincode"@,
        "delta_bincode_pct"@,
        "access_avg_ns"@,
        "access_vs_decode_speedup"@,
        "alloc_count"@,
        "alloc_bytes"@,
        "hw_limit_gbps"@,
        "hw_efficiency_pct"@,
        "p1_ns"@,
        "p10_ns"@,
        "p25_ns"@,
        "p50_ns"@,
        "p75_ns"@,
        "p90_ns"@,
        "p95_ns"@,
        "p99_ns"@,
        "p999_ns"@,
        "p9999_ns"@,
        "p99999_ns"@,
        "p999999_ns"@,
        "verified"@,
        "layout_avg_ns"@,
        "layout_budget_ns"@,
        "layout_pass"@,
        "layout_iterations"@,
    ]
}

/// The line of column names, without its end.
spec fn header_line() -> Seq<char> {
    csv_header_text().drop_last()
}

/// A text without a comma is one field.
proof fn lemma_first_column(text: Seq<char>, to: int, name: Seq<char>)
    requires
        0 <= to <= text.len(),
        text.take(to) == name,
        forall|i: int| 0 <= i < name.len() ==> #[trigger] name[i] != ',',
    ensures
        split_on(text.take(to), ',') == seq![name],
    decreases to,
{
    if to == 0 {
        assert(name =~= Seq::empty());
        assert(split_on(text.take(to), ',') =~= seq![name]);
    } else {
        let shorter = name.drop_last();
        assert(text.take(to - 1) =~= shorter);
        assert forall|i: int| 0 <= i < shorter.len() implies #[trigger] shorter[i] != ',' by {
            assert(name[i] != ',');
        }
        lemma_first_column(text, to - 1, shorter);
        assert(text.take(to).drop_last() =~= text.take(to - 1));
        assert(name[name.len() - 1] != ',');
        assert(shorter.push(name.last()) =~= name);
        assert(split_on(text.take(to), ',') =~= seq![name]);
    }
}

/// A column name after a comma is a field of its own.
proof fn lemma_next_column(
    text: Seq<char>,
    fields: Seq<Seq<char>>,
    from: int,
    to: int,
    name: Seq<char>,
)
    requires
        0 < from <= to <= text.len(),
        split_on(text.take(from - 1), ',') == fields,
        text[from - 1] == ',',
        text.subrange(from, to) == name,
        forall|i: int| 0 <= i < name.len() ==> #[trigger] name[i] != ',',
    ensures
        split_on(text.take(to), ',') == fields.push(name),
    decreases to - from,
{
    if to == from {
        assert(text.take(to).drop_last() =~= text.take(from - 1));
        assert(name =~= Seq::empty());
    } else {
        let shorter = name.drop_last();
        assert(text.subrange(from, to - 1) =~= shorter);
        assert forall|i: int| 0 <= i < shorter.len() implies #[trigger] shorter[i] != ',' by {
            assert(name[i] != ',');
        }
        lemma_next_column(text, fields, from, to - 1, shorter);
        assert(text.take(to).drop_last() =~= text.take(to - 1));
        assert(text.take(to).last() == name.last());
        assert(name.last() != ',') by {
            assert(name[name.len() - 1] != ',');
        }
        let before = split_on(text.take(to - 1), ',');
        assert(before == fields.push(shorter));
        assert(before.drop_last() =~= fields);
        assert(shorter.push(name.last()) =~= name);
        assert(split_on(text.take(to), ',') =~= fields.push(name));
    }
}

/// Columns of the line of column names.
proof fn lemma_columns_first()
    ensures
        split_on(header_line().take(106), ',') == csv_columns().take(12),
{
    let text = header_line();
    let all = csv_columns();
    reveal_strlit("scenario,backend,layer,codec,mode,strategy,msg_bytes,payload_bytes,buffer,consumers,coordination,discovery,zero_copy,framing,prod_ops,cons_ops,mbps,cons_min_ops,cons_max_ops,cons_total_ops,checksum_total,pct_raw,delta_raw_pct,speedup_vs_bincode,delta_bincode_pct,access_avg_ns,access_vs_decode_speedup,alloc_count,alloc_bytes,hw_limit_gbps,hw_efficiency_pct,p1_ns,p10_ns,p25_ns,p50_ns,p75_ns,p90_ns,p95_ns,p99_ns,p999_ns,p9999_ns,p99999_ns,p999999_ns,verified,layout_avg_ns,layout_budget_ns,layout_pass,layout_iterations\n");
    reveal_strlit("scenario");
    assert(text.take(8) =~= "scenario"@);
    lemma_first_column(text, 8, "scenario"@);
    assert(all.take(1) =~= seq!["scenario"@]);
    reveal_strlit("backend");
    assert(text.subrange(9, 16) =~= "backend"@);
    lemma_next_column(text, all.take(1), 9, 16, "backend"@);
    assert(all.take(2) =~= all.take(1).push("backend"@));
    reveal_strlit("layer");
    assert(text.subrange(17, 22) =~= "layer"@);
    lemma_next_column(text, all.take(2), 17, 22, "layer"@);
    assert(all.take(3) =~= all.take(2).push("layer"@));
    reveal_strlit("codec");
    assert(text.subrange(23, 28) =~= "codec"@);
    lemma_next_column(text, all.take(3), 23, 28, "codec"@);
    assert(all.take(4) =~= all.take(3).push("codec"@));
    reveal_strlit("mode");
    assert(text.subrange(29, 33) =~= "mode"@);
    lemma_next_column(text, all.take(4), 29, 33, "mode"@);
    assert(all.take(5) =~= all.take(4).push("mode"@));
    reveal_strlit("strategy");
    assert(text.subrange(34, 42) =~= "strategy"@);
    lemma_next_column(text, all.take(5), 34, 42, "strategy"@);
    assert(all.take(6) =~= all.take(5).push("strategy"@));
    reveal_strlit("msg_bytes");
    assert(text.subrange(43, 52) =~= "msg_bytes"@);
    lemma_next_column(text, all.take(6), 43, 52, "msg_bytes"@);
    assert(all.take(7) =~= all.take(6).push("msg_bytes"@));
    reveal_strlit("payload_bytes");
    assert(text.subrange(53, 66) =~= "payload_bytes"@);
    lemma_next_column(text, all.take(7), 53, 66, "payload_bytes"@);
    assert(all.take(8) =~= all.take(7).push("payload_bytes"@));
    reveal_strlit("buffer");
    assert(text.subrange(67, 73) =~= "buffer"@);
    lemma_next_column(text, all.take(8), 67, 73, "buffer"@);
    assert(all.take(9) =~= all.take(8).push("buffer"@));
    reveal_strlit("consumers");
    assert(text.subrange(74, 83) =~= "consumers"@);
    lemma_next_column(text, all.take(9), 74, 83, "consumers"@);
    assert(all.take(10) =~= all.take(9).push("consumers"@));
    reveal_strlit("coordination");
    assert(text.subrange(84, 96) =~= "coordination"@);
    lemma_next_column(text, all.take(10), 84, 96, "coordination"@);
    assert(all.take(11) =~= all.take(10).push("coordination"@));
    reveal_strlit("discovery");
    assert(text.subrange(97, 106) =~= "discovery"@);
    lemma_next_column(text, all.take(11), 97, 106, "discovery"@);
    assert(all.take(12) =~= all.take(11).push("discovery"@));
}

/// Columns of the line of column names.
proof fn lemma_columns_second()
    ensures
        split_on(header_line().take(244), ',') == csv_columns().take(24),
{
    let text = header_line();
    let all = csv_columns();
    reveal_strlit("scenario,backend,layer,codec,mode,strategy,msg_bytes,payload_bytes,buffer,consumers,coordination,discovery,zero_copy,framing,prod_ops,cons_ops,mbps,cons_min_ops,cons_max_ops,cons_total_ops,checksum_total,pct_raw,delta_raw_pct,speedup_vs_bincode,delta_bincode_pct,access_avg_ns,access_vs_decode_speedup,alloc_count,alloc_bytes,hw_limit_gbps,hw_efficiency_pct,p1_ns,p10_ns,p25_ns,p50_ns,p75_ns,p90_ns,p95_ns,p99_ns,p999_ns,p9999_ns,p99999_ns,p999999_ns,verified,layout_avg_ns,layout_budget_ns,layout_pass,layout_iterations\n");
    lemma_columns_first();
    reveal_strlit("zero_copy");
    assert(text.subrange(107, 116) =~= "zero_copy"@);
    lemma_next_column(text, all.take(12), 107, 116, "zero_copy"@);
    assert(all.take(13) =~= all.take(12).push("zero_copy"@));
    reveal_strlit("framing");
    assert(text.subrange(117, 124) =~= "framing"@);
    lemma_next_column(text, all.take(13), 117, 124, "framing"@);
    assert(all.take(14) =~= all.take(13).push("framing"@));
    reveal_strlit("prod_ops");
    assert(text.subrange(125, 133) =~= "prod_ops"@);
    lemma_next_column(text, all.take(14), 125, 133, "prod_ops"@);
    assert(all.take(15) =~= all.take(14).push("prod_ops"@));
    reveal_strlit("cons_ops");
    assert(text.subrange(134, 142) =~= "cons_ops"@);
    lemma_next_column(text, all.take(15), 134, 142, "cons_ops"@);
    assert(all.take(16) =~= all.take(15).push("cons_ops"@));
    reveal_strlit("mbps");
    assert(text.subrange(143, 147) =~= "mbps"@);
    lemma_next_column(text, all.take(16), 143, 147, "mbps"@);
    assert(all.take(17) =~= all.take(16).push("mbps"@));
    reveal_strlit("cons_min_ops");
    assert(text.subrange(148, 160) =~= "cons_min_ops"@);
    lemma_next_column(text, all.take(17), 148, 160, "cons_min_ops"@);
    assert(all.take(18) =~= all.take(17).push("cons_min_ops"@));
    reveal_strlit("cons_max_ops");
    assert(text.subrange(161, 173) =~= "cons_max_ops"@);
    lemma_next_column(text, all.take(18), 161, 173, "cons_max_ops"@);
    assert(all.take(19) =~= all.take(18).push("cons_max_ops"@));
    reveal_strlit("cons_total_ops");
    assert(text.subrange(174, 188) =~= "cons_total_ops"@);
    lemma_next_column(text, all.take(19), 174, 188, "cons_total_ops"@);
    assert(all.take(20) =~= all.take(19).push("cons_total_ops"@));
    reveal_strlit("checksum_total");
    assert(text.subrange(189, 203) =~= "checksum_total"@);
    lemma_next_column(text, all.take(20), 189, 203, "checksum_total"@);
    assert(all.take(21) =~= all.take(20).push("checksum_total"@));
    reveal_strlit("pct_raw");
    assert(text.subrange(204, 211) =~= "pct_raw"@);
    lemma_next_column(text, all.take(21), 204, 211, "pct_raw"@);
    assert(all.take(22) =~= all.take(21).push("pct_raw"@));
    reveal_strlit("delta_raw_pct");
    assert(text.subrange(212, 225) =~= "delta_raw_pct"@);
    lemma_next_column(text, all.take(22), 212, 225, "delta_raw_pct"@);
    assert(all.take(23) =~= all.take(22).push("delta_raw_pct"@));
    reveal_strlit("speedup_vs_bincode");
    assert(text.subrange(226, 244) =~= "speedup_vs_bincode"@);
    lemma_next_column(text, all.take(23), 226, 244, "speedup_vs_bincode"@);
    assert(all.take(24) =~= all.take(23).push("speedup_vs_bincode"@));
}

/// Columns of the line of column names.
proof fn lemma_columns_third()
    ensures
        split_on(header_line().take(391), ',') == csv_columns().take(36),
{
    let text = header_line();
    let all = csv_columns();
    reveal_strlit("scenario,backend,layer,codec,mode,strategy,msg_bytes,payload_bytes,buffer,consumers,coordination,discovery,zero_copy,framing,prod_ops,cons_ops,mbps,cons_min_ops,cons_max_ops,cons_total_ops,checksum_total,pct_raw,delta_raw_pct,speedup_vs_bincode,delta_bincode_pct,access_avg_ns,access_vs_decode_speedup,alloc_count,alloc_bytes,hw_limit_gbps,hw_efficiency_pct,p1_ns,p10_ns,p25_ns,p50_ns,p75_ns,p90_ns,p95_ns,p99_ns,p999_ns,p9999_ns,p99999_ns,p999999_ns,verified,layout_avg_ns,layout_budget_ns,layout_pass,layout_iterations\n");
    lemma_columns_second();
    reveal_strlit("delta_bincode_pct");
    assert(text.subrange(245, 262) =~= "delta_bincode_pct"@);
    lemma_next_column(text, all.take(24), 245, 262, "delta_bincode_pct"@);
    assert(all.take(25) =~= all.take(24).push("delta_bincode_pct"@));
    reveal_strlit("access_avg_ns");
    assert(text.subrange(263, 276) =~= "access_avg_ns"@);
    lemma_next_column(text, all.take(25), 263, 276, "access_avg_ns"@);
    assert(all.take(26) =~= all.take(25).push("access_avg_ns"@));
    reveal_strlit("access_vs_decode_speedup");
    assert(text.subrange(277, 301) =~= "access_vs_decode_speedup"@);
    lemma_next_column(text, all.take(26), 277, 301, "access_vs_decode_speedup"@);
    assert(all.take(27) =~= all.take(26).push("access_vs_decode_speedup"@));
    reveal_strlit("alloc_count");
    assert(text.subrange(302, 313) =~= "alloc_count"@);
    lemma_next_column(text, all.take(27), 302, 313, "alloc_count"@);
    assert(all.take(28) =~= all.take(27).push("alloc_count"@));
    reveal_strlit("alloc_bytes");
    assert(text.subrange(314, 325) =~= "alloc_bytes"@);
    lemma_next_column(text, all.take(28), 314, 325, "alloc_bytes"@);
    assert(all.take(29) =~= all.take(28).push("alloc_bytes"@));
    reveal_strlit("hw_limit_gbps");
    assert(text.subrange(326, 339) =~= "hw_limit_gbps"@);
    lemma_next_column(text, all.take(29), 326, 339, "hw_limit_gbps"@);
    assert(all.take(30) =~= all.take(29).push("hw_limit_gbps"@));
    reveal_strlit("hw_efficiency_pct");
    assert(text.subrange(340, 357) =~= "hw_efficiency_pct"@);
    lemma_next_column(text, all.take(30), 340, 357, "hw_efficiency_pct"@);
    assert(all.take(31) =~= all.take(30).push("hw_efficiency_pct"@));
    reveal_strlit("p1_ns");
    assert(text.subrange(358, 363) =~= "p1_ns"@);
    lemma_next_column(text, all.take(31), 358, 363, "p1_ns"@);
    assert(all.take(32) =~= all.take(31).push("p1_ns"@));
    reveal_strlit("p10_ns");
    assert(text.subrange(364, 370) =~= "p10_ns"@);
    lemma_next_column(text, all.take(32), 364, 370, "p10_ns"@);
    assert(all.take(33) =~= all.take(32).push("p10_ns"@));
    reveal_strlit("p25_ns");
    assert(text.subrange(371, 377) =~= "p25_ns"@);
    lemma_next_column(text, all.take(33), 371, 377, "p25_ns"@);
    assert(all.take(34) =~= all.take(33).push("p25_ns"@));
    reveal_strlit("p50_ns");
    assert(text.subrange(378, 384) =~= "p50_ns"@);
    lemma_next_column(text, all.take(34), 378, 384, "p50_ns"@);
    assert(all.take(35) =~= all.take(34).push("p50_ns"@));
    reveal_strlit("p75_ns");
    assert(text.subrange(385, 391) =~= "p75_ns"@);
    lemma_next_column(text, all.take(35), 385, 391, "p75_ns"@);
    assert(all.take(36) =~= all.take(35).push("p75_ns"@));
}

/// Columns of the line of column names.
proof fn lemma_columns_fourth()
    ensures
        split_on(header_line().take(520), ',') == csv_columns().take(48),
{
    let text = header_line();
    let all = csv_columns();
    reveal_strlit("scenario,backend,layer,codec,mode,strategy,msg_bytes,payload_bytes,buffer,consumers,coordination,discovery,zero_copy,framing,prod_ops,cons_ops,mbps,cons_min_ops,cons_max_ops,cons_total_ops,checksum_total,pct_raw,delta_raw_pct,speedup_vs_bincode,delta_bincode_pct,access_avg_ns,access_vs_decode_speedup,alloc_count,alloc_bytes,hw_limit_gbps,hw_efficiency_pct,p1_ns,p10_ns,p25_ns,p50_ns,p75_ns,p90_ns,p95_ns,p99_ns,p999_ns,p9999_ns,p99999_ns,p999999_ns,verified,layout_avg_ns,layout_budget_ns,layout_pass,layout_iterations\n");
    lemma_columns_third();
    reveal_strlit("p90_ns");
    assert(text.subrange(392, 398) =~= "p90_ns"@);
    lemma_next_column(text, all.take(36), 392, 398, "p90_ns"@);
    assert(all.take(37) =~= all.take(36).push("p90_ns"@));
    reveal_strlit("p95_ns");
    assert(text.subrange(399, 405) =~= "p95_ns"@);
    lemma_next_column(text, all.take(37), 399, 405, "p95_ns"@);
    assert(all.take(38) =~= all.take(37).push("p95_ns"@));
    reveal_strlit("p99_ns");
    assert(text.subrange(406, 412) =~= "p99_ns"@);
    lemma_next_column(text, all.take(38), 406, 412, "p99_ns"@);
    assert(all.take(39) =~= all.take(38).push("p99_ns"@));
    reveal_strlit("p999_ns");
    assert(text.subrange(413, 420) =~= "p999_ns"@);
    lemma_next_column(text, all.take(39), 413, 420, "p999_ns"@);
    assert(all.take(40) =~= all.take(39).push("p999_ns"@));
    reveal_strlit("p9999_ns");
    assert(text.subrange(421, 429) =~= "p9999_ns"@);
    lemma_next_column(text, all.take(40), 421, 429, "p9999_ns"@);
    assert(all.take(41) =~= all.take(40).push("p9999_ns"@));
    reveal_strlit("p99999_ns");
    assert(text.subrange(430, 439) =~= "p99999_ns"@);
    lemma_next_column(text, all.take(41), 430, 439, "p99999_ns"@);
    assert(all.take(42) =~= all.take(41).push("p99999_ns"@));
    reveal_strlit("p999999_ns");
    assert(text.subrange(440, 450) =~= "p999999_ns"@);
    lemma_next_column(text, all.take(42), 440, 450, "p999999_ns"@);
    assert(all.take(43) =~= all.take(42).push("p999999_ns"@));
    reveal_strlit("verified");
    assert(text.subrange(451, 459) =~= "verified"@);
    lemma_next_column(text, all.take(43), 451, 459, "verified"@);
    assert(all.take(44) =~= all.take(43).push("verified"@));
    reveal_strlit("layout_avg_ns");
    assert(text.subrange(460, 473) =~= "layout_avg_ns"@);
    lemma_next_column(text, all.take(44), 460, 473, "layout_avg_ns"@);
    assert(all.take(45) =~= all.take(44).push("layout_avg_ns"@));
    reveal_strlit("layout_budget_ns");
    assert(text.subrange(474, 490) =~= "layout_budget_ns"@);
    lemma_next_column(text, all.take(45), 474, 490, "layout_budget_ns"@);
    assert(all.take(46) =~= all.take(45).push("layout_budget_ns"@));
    reveal_strlit("layout_pass");
    assert(text.subrange(491, 502) =~= "layout_pass"@);
    lemma_next_column(text, all.take(46), 491, 502, "layout_pass"@);
    assert(all.take(47) =~= all.take(46).push("layout_pass"@));
    reveal_strlit("layout_iterations");
    assert(text.subrange(503, 520) =~= "layout_iterations"@);
    lemma_next_column(text, all.take(47), 503, 520, "layout_iterations"@);
    assert(all.take(48) =~= all.take(47).push("layout_iterations"@));
}

/// The line of column names is the columns, separated by commas.
pub proof fn law_header_names_the_columns()
    ensures
        csv_header_text().last() == '\n',
        split_on(csv_header_text().drop_last(), ',') == csv_columns(),
{
    lemma_columns_fourth();
    reveal_strlit("scenario,backend,layer,codec,mode,strategy,msg_bytes,payload_bytes,buffer,consumers,coordination,discovery,zero_copy,framing,prod_ops,cons_ops,mbps,cons_min_ops,cons_max_ops,cons_total_ops,checksum_total,pct_raw,delta_raw_pct,speedup_vs_bincode,delta_bincode_pct,access_avg_ns,access_vs_decode_speedup,alloc_count,alloc_bytes,hw_limit_gbps,hw_efficiency_pct,p1_ns,p10_ns,p25_ns,p50_ns,p75_ns,p90_ns,p95_ns,p99_ns,p999_ns,p9999_ns,p99999_ns,p999999_ns,verified,layout_avg_ns,layout_budget_ns,layout_pass,layout_iterations\n");
    assert(header_line().take(520) =~= header_line());
    assert(csv_columns().take(48) =~= csv_columns());
}

/// The cell of a line that stands at the place of the given name in the line of
/// column names holds the given text.
pub open spec fn stands_under(cells: Seq<Seq<char>>, column: Seq<char>, text: Seq<char>) -> bool {
    exists|k: int|
        {
            &&& 0 <= k < cells.len()
            &&& k < split_on(csv_header_text().drop_last(), ',').len()
            &&& #[trigger] split_on(csv_header_text().drop_last(), ',')[k] == column
            &&& cells[k] == text
        }
}

/// A cell stands under the column of its place.
proof fn lemma_column(cells: Seq<Seq<char>>, k: int, column: Seq<char>)
    requires
        0 <= k < cells.len(),
        k < csv_columns().len(),
        csv_columns()[k] == column,
    ensures
        stands_under(cells, column, cells[k]),
{
    law_header_names_the_columns();
    assert(split_on(csv_header_text().drop_last(), ',')[k] == column);
}

/// In a throughput line what the scenario is stands under its column names.
pub proof fn law_identity_stands_under_its_columns(scenario: ScenarioReport, numbers: CsvNumbers)
    requires
        scenario.outcome is Throughput,
    ensures
        ({
            let cells = csv_cells(scenario, numbers);
            &&& stands_under(cells, "scenario"@, scenario.identity.scenario@)
            &&& stands_under(cells, "backend"@, backend_text(scenario.identity.backend))
            &&& stands_under(cells, "layer"@, scenario.identity.layer@)
            &&& scenario.identity.codec is Some ==> stands_under(cells, "codec"@, codec_text(scenario.identity.codec->0))
            &&& scenario.identity.codec is None ==> stands_under(cells, "codec"@, ""@)
            &&& stands_under(cells, "mode"@, measurement_text(scenario.config.measurement))
            &&& stands_under(cells, "strategy"@, wait_strategy_text(scenario.config.transport.wait_strategy))
            &&& stands_under(cells, "msg_bytes"@, decimal_text(scenario.config.workload.message_size_bytes as nat))
            &&& stands_under(cells, "payload_bytes"@, decimal_text(scenario.config.workload.payload_bytes as nat))
            &&& stands_under(cells, "buffer"@, decimal_text(scenario.config.workload.buffer_depth as nat))
            &&& stands_under(cells, "consumers"@, decimal_text(scenario.config.workload.num_consumers as nat))
            &&& scenario.config.transport.coordination is Some ==> stands_under(cells, "coordination"@, coordination_text(scenario.config.transport.coordination->0))
            &&& scenario.config.transport.coordination is None ==> stands_under(cells, "coordination"@, ""@)
            &&& scenario.config.transport.discovery is Some ==> stands_under(cells, "discovery"@, discovery_text(scenario.config.transport.discovery->0))
            &&& scenario.config.transport.discovery is None ==> stands_under(cells, "discovery"@, ""@)
            &&& scenario.config.transport.zero_copy == Some(ZeroCopyKind::Enabled) ==> stands_under(cells, "zero_copy"@, "true"@)
            &&& scenario.config.transport.zero_copy is Some && scenario.config.transport.zero_copy->0 != ZeroCopyKind::Enabled ==> stands_under(cells, "zero_copy"@, "false"@)
            &&& scenario.config.transport.zero_copy is None ==> stands_under(cells, "zero_copy"@, ""@)
            &&& scenario.config.transport.framing is Some ==> stands_under(cells, "framing"@, framing_text(scenario.config.transport.framing->0))
            &&& scenario.config.transport.framing is None ==> stands_under(cells, "framing"@, ""@)
        }),
{
    let cells = csv_cells(scenario, numbers);
    assert(cells.len() == 48);
    lemma_column(cells, 0, "scenario"@);
    lemma_column(cells, 1, "backend"@);
    lemma_column(cells, 2, "layer"@);
    lemma_column(cells, 3, "codec"@);
    lemma_column(cells, 4, "mode"@);
    lemma_column(cells, 5, "strategy"@);
    lemma_column(cells, 6, "msg_bytes"@);
    lemma_column(cells, 7, "payload_bytes"@);
    lemma_column(cells, 8, "buffer"@);
    lemma_column(cells, 9, "consumers"@);
    lemma_column(cells, 10, "coordination"@);
    lemma_column(cells, 11, "discovery"@);
    lemma_column(cells, 12, "zero_copy"@);
    lemma_column(cells, 13, "framing"@);
}

/// In a throughput line every figure stands under the column of its name:
/// throughputs, checksum, derived figures, all percentiles of the latency, and
/// whether the run was verified; the columns of a layout stay empty.
pub proof fn law_figures_stand_under_their_columns(
    scenario: ScenarioReport,
    numbers: CsvNumbers,
    outcome: ThroughputOutcome,
)
    requires
        scenario.outcome == ScenarioOutcome::Throughput(outcome),
    ensures
        ({
            let cells = csv_cells(scenario, numbers);
            &&& stands_under(cells, "prod_ops"@, numbers.prod_ops@)
            &&& stands_under(cells, "cons_ops"@, numbers.cons_ops@)
            &&& stands_under(cells, "mbps"@, numbers.mbps@)
            &&& outcome.consumers.min_throughput_ops_sec is Some ==> stands_under(cells, "cons_min_ops"@, numbers.cons_min_ops@)
            &&& outcome.consumers.min_throughput_ops_sec is None ==> stands_under(cells, "cons_min_ops"@, ""@)
            &&& outcome.consumers.max_throughput_ops_sec is Some ==> stands_under(cells, "cons_max_ops"@, numbers.cons_max_ops@)
            &&& outcome.consumers.max_throughput_ops_sec is None ==> stands_under(cells, "cons_max_ops"@, ""@)
            &&& outcome.consumers.total_throughput_ops_sec is Some ==> stands_under(cells, "cons_total_ops"@, numbers.cons_total_ops@)
            &&& outcome.consumers.total_throughput_ops_sec is None ==> stands_under(cells, "cons_total_ops"@, ""@)
            &&& outcome.consumers.checksum_total is Some ==> stands_under(cells, "checksum_total"@, decimal_text(outcome.consumers.checksum_total->0 as nat))
            &&& outcome.consumers.checksum_total is None ==> stands_under(cells, "checksum_total"@, ""@)
            &&& outcome.derived.pct_of_raw_ring is Some ==> stands_under(cells, "pct_raw"@, numbers.pct_raw@)
            &&& outcome.derived.pct_of_raw_ring is None ==> stands_under(cells, "pct_raw"@, ""@)
            &&& outcome.derived.delta_vs_raw_ring_pct is Some ==> stands_under(cells, "delta_raw_pct"@, numbers.delta_raw_pct@)
            &&& outcome.derived.delta_vs_raw_ring_pct is None ==> stands_under(cells, "delta_raw_pct"@, ""@)
            &&& outcome.derived.speedup_vs_bincode is Some ==> stands_under(cells, "speedup_vs_bincode"@, numbers.speedup_vs_bincode@)
            &&& outcome.derived.speedup_vs_bincode is None ==> stands_under(cells, "speedup_vs_bincode"@, ""@)
            &&& outcome.derived.delta_vs_bincode_pct is Some ==> stands_under(cells, "delta_bincode_pct"@, numbers.delta_bincode_pct@)
            &&& outcome.derived.delta_vs_bincode_pct is None ==> stands_under(cells, "delta_bincode_pct"@, ""@)
            &&& outcome.derived.access_avg_ns is Some ==> stands_under(cells, "access_avg_ns"@, numbers.access_avg_ns@)
            &&& outcome.derived.access_avg_ns is None ==> stands_under(cells, "access_avg_ns"@, ""@)
            &&& outcome.derived.access_vs_decode_speedup is Some ==> stands_under(cells, "access_vs_decode_speedup"@, numbers.access_vs_decode_speedup@)
            &&& outcome.derived.access_vs_decode_speedup is None ==> stands_under(cells, "access_vs_decode_speedup"@, ""@)
            &&& outcome.derived.alloc_count is Some ==> stands_under(cells, "alloc_count"@, decimal_text(outcome.derived.alloc_count->0 as nat))
            &&& outcome.derived.alloc_count is None ==> stands_under(cells, "alloc_count"@, ""@)
            &&& outcome.derived.alloc_bytes is Some ==> stands_under(cells, "alloc_bytes"@, decimal_text(outcome.derived.alloc_bytes->0 as nat))
            &&& outcome.derived.alloc_bytes is None ==> stands_under(cells, "alloc_bytes"@, ""@)
            &&& outcome.derived.hw_bandwidth_limit_gbps is Some ==> stands_under(cells, "hw_limit_gbps"@, numbers.hw_limit_gbps@)
            &&& outcome.derived.hw_bandwidth_limit_gbps is None ==> stands_under(cells, "hw_limit_gbps"@, ""@)
            &&& outcome.derived.hw_efficiency_pct is Some ==> stands_under(cells, "hw_efficiency_pct"@, numbers.hw_efficiency_pct@)
            &&& outcome.derived.hw_efficiency_pct is None ==> stands_under(cells, "hw_efficiency_pct"@, ""@)
            &&& outcome.latency is Some ==> stands_under(cells, "p1_ns"@, decimal_text(outcome.latency->0.p1_ns as nat))
            &&& outcome.latency is None ==> stands_under(cells, "p1_ns"@, ""@)
            &&& outcome.latency is Some ==> stands_under(cells, "p10_ns"@, decimal_text(outcome.latency->0.p10_ns as nat))
            &&& outcome.latency is None ==> stands_under(cells, "p10_ns"@, ""@)
            &&& outcome.latency is Some ==> stands_under(cells, "p25_ns"@, decimal_text(outcome.latency->0.p25_ns as nat))
            &&& outcome.latency is None ==> stands_under(cells, "p25_ns"@, ""@)
            &&& outcome.latency is Some ==> stands_under(cells, "p50_ns"@, decimal_text(outcome.latency->0.p50_ns as nat))
            &&& outcome.latency is None ==> stands_under(cells, "p50_ns"@, ""@)
            &&& outcome.latency is Some ==> stands_under(cells, "p75_ns"@, decimal_text(outcome.latency->0.p75_ns as nat))
            &&& outcome.latency is None ==> stands_under(cells, "p75_ns"@, ""@)
            &&& outcome.latency is Some ==> stands_under(cells, "p90_ns"@, decimal_text(outcome.latency->0.p90_ns as nat))
            &&& outcome.latency is None ==> stands_under(cells, "p90_ns"@, ""@)
            &&& outcome.latency is Some ==> stands_under(cells, "p95_ns"@, decimal_text(outcome.latency->0.p95_ns as nat))
            &&& outcome.latency is None ==> stands_under(cells, "p95_ns"@, ""@)
            &&& outcome.latency is Some ==> stands_under(cells, "p99_ns"@, decimal_text(outcome.latency->0.p99_ns as nat))
            &&& outcome.latency is None ==> stands_under(cells, "p99_ns"@, ""@)
            &&& outcome.latency is Some ==> stands_under(cells, "p999_ns"@, decimal_text(outcome.latency->0.p999_ns as nat))
            &&& outcome.latency is None ==> stands_under(cells, "p999_ns"@, ""@)
            &&& outcome.latency is Some ==> stands_under(cells, "p9999_ns"@, decimal_text(outcome.latency->0.p9999_ns as nat))
            &&& outcome.latency is None ==> stands_under(cells, "p9999_ns"@, ""@)
            &&& outcome.latency is Some ==> stands_under(cells, "p99999_ns"@, decimal_text(outcome.latency->0.p99999_ns as nat))
            &&& outcome.latency is None ==> stands_under(cells, "p99999_ns"@, ""@)
            &&& outcome.latency is Some ==> stands_under(cells, "p999999_ns"@, decimal_text(outcome.latency->0.p999999_ns as nat))
            &&& outcome.latency is None ==> stands_under(cells, "p999999_ns"@, ""@)
            &&& outcome.verification.passed ==> stands_under(cells, "verified"@, "true"@)
            &&& !outcome.verification.passed ==> stands_under(cells, "verified"@, "false"@)
            &&& stands_under(cells, "layout_avg_ns"@, ""@)
            &&& stands_under(cells, "layout_budget_ns"@, ""@)
            &&& stands_under(cells, "layout_pass"@, ""@)
            &&& stands_under(cells, "layout_iterations"@, ""@)
        }),
{
    let cells = csv_cells(scenario, numbers);
    assert(cells.len() == 48);
    lemma_column(cells, 14, "prod_ops"@);
    lemma_column(cells, 15, "cons_ops"@);
    lemma_column(cells, 16, "mbps"@);
    lemma_column(cells, 17, "cons_min_ops"@);
    lemma_column(cells, 18, "cons_max_ops"@);
    lemma_column(cells, 19, "cons_total_ops"@);
    lemma_column(cells, 20, "checksum_total"@);
    lemma_column(cells, 21, "pct_raw"@);
    lemma_column(cells, 22, "delta_raw_pct"@);
    lemma_column(cells, 23, "speedup_vs_bincode"@);
    lemma_column(cells, 24, "delta_bincode_pct"@);
    lemma_column(cells, 25, "access_avg_ns"@);
    lemma_column(cells, 26, "access_vs_decode_speedup"@);
    lemma_column(cells, 27, "alloc_count"@);
    lemma_column(cells, 28, "alloc_bytes"@);
    lemma_column(cells, 29, "hw_limit_gbps"@);
    lemma_column(cells, 30, "hw_efficiency_pct"@);
    lemma_column(cells, 31, "p1_ns"@);
    lemma_column(cells, 32, "p10_ns"@);
    lemma_column(cells, 33, "p25_ns"@);
    lemma_column(cells, 34, "p50_ns"@);
    lemma_column(cells, 35, "p75_ns"@);
    lemma_column(cells, 36, "p90_ns"@);
    lemma_column(cells, 37, "p95_ns"@);
    lemma_column(cells, 38, "p99_ns"@);
    lemma_column(cells, 39, "p999_ns"@);
    lemma_column(cells, 40, "p9999_ns"@);
    lemma_column(cells, 41, "p99999_ns"@);
    lemma_column(cells, 42, "p999999_ns"@);
    lemma_column(cells, 43, "verified"@);
    lemma_column(cells, 44, "layout_avg_ns"@);
    lemma_column(cells, 45, "layout_budget_ns"@);
    lemma_column(cells, 46, "layout_pass"@);
    lemma_column(cells, 47, "layout_iterations"@);
}

/// After the lines of the scenarios before it comes the line of a scenario: its
/// cells, separated by commas, and a line feed.
pub proof fn law_lines_follow_the_scenarios(
    scenarios: Seq<ScenarioReport>,
    numbers: Seq<CsvNumbers>,
    i: int,
)
    requires
        0 <= i < scenarios.len(),
    ensures
        csv_lines(scenarios.take(0), numbers) == Seq::<char>::empty(),
        ({
            let before = csv_lines(scenarios.take(i), numbers);
            let line = joined(csv_cells(scenarios[i], numbers[i]), ","@) + "\n"@;
            let text = csv_lines(scenarios, numbers);
            &&& before.len() + line.len() <= text.len()
            &&& text.take(before.len() as int) == before
            &&& text.subrange(before.len() as int, (before.len() + line.len()) as int) == line
            &&& i == scenarios.len() - 1 ==> before.len() + line.len() == text.len()
        }),
    decreases scenarios.len(),
{
    let text = csv_lines(scenarios, numbers);
    let shorter = scenarios.drop_last();
    let last = scenarios.len() - 1;
    let before = csv_lines(scenarios.take(i), numbers);
    let line = joined(csv_cells(scenarios[i], numbers[i]), ","@) + "\n"@;
    if i == last {
        assert(scenarios.take(i) =~= shorter);
        assert(text =~= before + line);
        assert(text.take(before.len() as int) =~= before);
        assert(text.subrange(before.len() as int, (before.len() + line.len()) as int) =~= line);
    } else {
        law_lines_follow_the_scenarios(shorter, numbers, i);
        assert(shorter.take(i) =~= scenarios.take(i));
        assert(shorter[i] == scenarios[i]);
        let earlier = csv_lines(shorter, numbers);
        assert(text.take(earlier.len() as int) =~= earlier);
        assert(text.take(before.len() as int) =~= earlier.take(before.len() as int));
        assert(text.subrange(before.len() as int, (before.len() + line.len()) as int)
            =~= earlier.subrange(before.len() as int, (before.len() + line.len()) as int));
    }
}

/// A layout line says what the scenario is, and after twenty empty cells whether
/// it passed, its average, its budget, once more whether it passed, and how
/// often it was measured.
pub proof fn law_layout_line_ends_with_its_figures(
    scenario: ScenarioReport,
    numbers: CsvNumbers,
    layout: LayoutOutcome,
)
    requires
        scenario.outcome == ScenarioOutcome::Layout(layout),
    ensures
        ({
            let cells = csv_cells(scenario, numbers);
            let verdict = if layout.pass {
                "true"@
            } else {
                "false"@
            };
            &&& cells.len() == 39
            &&& cells[0] == scenario.identity.scenario@
            &&& cells[2] == scenario.identity.layer@
            &&& forall|k: int| 14 <= k < 34 ==> #[trigger] cells[k] == ""@
            &&& cells[34] == verdict
            &&& cells[35] == decimal_text(layout.avg_ns as nat)
            &&& cells[36] == decimal_text(layout.budget_ns as nat)
            &&& cells[37] == verdict
            &&& cells[38] == decimal_text(layout.iterations as nat)
        }),
{
}

} // verus!
