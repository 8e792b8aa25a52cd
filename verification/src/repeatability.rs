//! How far the runs of one set of scenarios agree.
use vstd::prelude::*;
use crate::decimal::{decimal, decimal_text};
use crate::metric::Metric;
use crate::report::csv::{bool_name, bool_text};
use crate::reporting::{BenchConfig, BenchReport, BenchResult};
use crate::table::{
    draw_markdown_table, draw_modern_table, markdown_table_text, modern_table_text, push_cell,
    push_row, row_views,
};
use crate::text::{
    comes_before, contains_text, copied_option_text, copied_texts, holds_text, join_texts, joined,
    law_text_order_is_total, law_text_order_is_transitive, occurs_at, same_text, text_before, views,
};

verus! {

/// Figures of a quantity over the runs.
#[derive(Clone, Copy, Debug, PartialEq, Eq, Structural)]
pub struct MetricStats {
    pub mean: Metric,
    pub min: Metric,
    pub max: Metric,
    pub stddev: Metric,
    pub cv_pct: Metric,
}

/// What one run of a scenario came to.
#[derive(Clone, Copy, Debug, PartialEq, Eq, Structural)]
pub struct RunSample {
    pub run_index: usize,
    pub producer_throughput_ops_sec: Metric,
    pub consumer_throughput_ops_sec: Metric,
    pub verification_passed: bool,
    pub latency_p50_ns: Option<u64>,
    pub latency_p99_ns: Option<u64>,
}

/// The runs of one scenario, and how far they agree.
#[derive(Clone, Debug)]
pub struct ScenarioRepeatability {
    pub benchmark_id: String,
    pub scenario: String,
    pub backend: String,
    pub layer: String,
    pub codec: Option<String>,
    pub measurement_mode: String,
    pub wait_strategy: String,
    pub config: BenchConfig,
    pub runs: Vec<RunSample>,
    pub producer_throughput: MetricStats,
    pub consumer_throughput: MetricStats,
    pub latency_p50_ns: Option<MetricStats>,
    pub latency_p99_ns: Option<MetricStats>,
    pub pass: bool,
    pub failures: Vec<String>,
}

/// The runs of a set of scenarios, and how far they agree.
#[derive(Clone, Debug)]
pub struct RepeatabilityReport {
    pub generated_at: String,
    pub command: Vec<String>,
    pub repeat_count: usize,
    pub threshold_pct: Metric,
    pub overall_pass: bool,
    pub scenarios: Vec<ScenarioRepeatability>,
}

/// The figures of a scenario over its runs, computed by the caller, with the
/// coefficients of variation in decimal notation. Latency figures count only
/// where every run has measured latency.
#[derive(Clone, Debug)]
pub struct ScenarioStats {
    pub producer_throughput: MetricStats,
    pub consumer_throughput: MetricStats,
    pub latency_p50_ns: MetricStats,
    pub latency_p99_ns: MetricStats,
    pub producer_cv: String,
    pub consumer_cv: String,
}

/// The identifiers of results.
pub open spec fn ids_of(results: Seq<BenchResult>) -> Seq<Seq<char>> {
    Seq::new(results.len(), |i: int| results[i].benchmark_id@)
}

/// Each text comes before the next.
pub open spec fn strictly_sorted(texts: Seq<Seq<char>>) -> bool {
    forall|i: int, j: int|
        #![trigger texts[i], texts[j]]
        0 <= i < j < texts.len() ==> text_before(texts[i], texts[j])
}

/// The identifiers in the given order.
pub open spec fn ids_in_order(results: Seq<BenchResult>, order: Seq<usize>) -> Seq<Seq<char>> {
    Seq::new(order.len(), |i: int| results[order[i] as int].benchmark_id@)
}

/// `order` lists the places of the results by identifier, each once.
pub open spec fn is_sorting(results: Seq<BenchResult>, order: Seq<usize>) -> bool {
    &&& order.len() == results.len()
    &&& forall|i: int| 0 <= i < order.len() ==> #[trigger] order[i] < results.len()
    &&& forall|k: usize| k < results.len() ==> #[trigger] order.contains(k)
    &&& strictly_sorted(ids_in_order(results, order))
}

/// The identifier at `j` stands at an earlier place too.
pub open spec fn repeats_earlier(results: Seq<BenchResult>, j: int) -> bool {
    exists|i: int|
        0 <= i < j && #[trigger] results[i].benchmark_id@ == results[j].benchmark_id@
}

/// `j` is the first place whose identifier repeats an earlier one.
pub open spec fn is_first_repeat(results: Seq<BenchResult>, j: int) -> bool {
    &&& 0 <= j < results.len()
    &&& repeats_earlier(results, j)
    &&& forall|k: int| 0 <= k < j ==> !#[trigger] repeats_earlier(results, k)
}

/// No identifier stands twice.
pub open spec fn has_distinct_ids(results: Seq<BenchResult>) -> bool {
    forall|k: int| 0 <= k < results.len() ==> !#[trigger] repeats_earlier(results, k)
}

/// The message for an identifier that stands twice.
pub open spec fn duplicate_message(id: Seq<char>) -> Seq<char> {
    "duplicate benchmark_id in repeatability input: "@ + id
}

/// A place put into a sorted order keeps it sorted.
proof fn lemma_insert_sorted(
    results: Seq<BenchResult>,
    order: Seq<usize>,
    at: int,
    new: usize,
)
    requires
        0 <= at <= order.len(),
        new < results.len(),
        strictly_sorted(ids_in_order(results, order)),
        forall|i: int|
            0 <= i < at ==> text_before(
                #[trigger] ids_in_order(results, order)[i],
                results[new as int].benchmark_id@,
            ),
        at < order.len() ==> text_before(
            results[new as int].benchmark_id@,
            ids_in_order(results, order)[at],
        ),
    ensures
        strictly_sorted(ids_in_order(results, order.insert(at, new))),
{
    let ids = ids_in_order(results, order);
    let id = results[new as int].benchmark_id@;
    let grown = ids_in_order(results, order.insert(at, new));
    assert(grown =~= ids.insert(at, id));
    assert forall|i: int, j: int|
        #![trigger grown[i], grown[j]]
        0 <= i < j < grown.len() implies text_before(grown[i], grown[j]) by {
        if j == at {
            assert(grown[i] == ids[i]);
        } else if i == at {
            assert(grown[j] == ids[j - 1]);
            if j - 1 > at {
                assert(text_before(ids[at], ids[j - 1]));
                law_text_order_is_transitive(id, ids[at], ids[j - 1]);
            }
        } else {
            let a = if i < at { i } else { i - 1 };
            let b = if j < at { j } else { j - 1 };
            assert(grown[i] == ids[a]);
            assert(grown[j] == ids[b]);
            assert(text_before(ids[a], ids[b]));
        }
    }
}

/// The places of a report's results in the order of their identifiers; an
/// error that names the first identifier that stands twice.
pub fn index_report(report: &BenchReport) -> (r: Result<Vec<usize>, String>)
    ensures
        match r {
            Ok(order) => has_distinct_ids(report.results@) && is_sorting(report.results@, order@),
            Err(message) => exists|j: int| #[trigger]
                is_first_repeat(report.results@, j) && message@ == duplicate_message(
                    report.results@[j].benchmark_id@,
                ),
        },
{
    let results = &report.results;
    let mut order: Vec<usize> = Vec::new();
    for j in 0..results.len()
        invariant
            results@ == report.results@,
            order@.len() == j,
            forall|i: int| 0 <= i < order@.len() ==> #[trigger] order@[i] < j,
            forall|k: usize| k < j ==> #[trigger] order@.contains(k),
            strictly_sorted(ids_in_order(results@, order@)),
            forall|k: int| 0 <= k < j ==> !#[trigger] repeats_earlier(results@, k),
    {
        let ghost ids = ids_in_order(results@, order@);
        let ghost id = results@[j as int].benchmark_id@;
        let mut at: usize = 0;
        while at < order.len() && comes_before(
            results[order[at]].benchmark_id.as_str(),
            results[j].benchmark_id.as_str(),
        )
            invariant
                results@ == report.results@,
                j < results@.len(),
                order@.len() == j,
                at <= order@.len(),
                forall|i: int| 0 <= i < order@.len() ==> #[trigger] order@[i] < j,
                ids == ids_in_order(results@, order@),
                id == results@[j as int].benchmark_id@,
                forall|i: int| 0 <= i < at ==> text_before(#[trigger] ids[i], id),
            ensures
                at < order@.len() ==> !text_before(ids[at as int], id),
            decreases order@.len() - at,
        {
            assert(ids[at as int] == results@[order@[at as int] as int].benchmark_id@);
            at = at + 1;
        }
        if at < order.len() && same_text(
            results[order[at]].benchmark_id.as_str(),
            results[j].benchmark_id.as_str(),
        ) {
            let mut message: String = "duplicate benchmark_id in repeatability input: ".to_owned();
            message.append(results[j].benchmark_id.as_str());
            proof {
                let i = order@[at as int] as int;
                assert(results@[i].benchmark_id@ == results@[j as int].benchmark_id@);
                assert(repeats_earlier(results@, j as int));
                assert(is_first_repeat(results@, j as int));
            }
            return Err(message);
        }
        proof {
            if at < order@.len() {
                law_text_order_is_total(ids[at as int], id);
            }
            if repeats_earlier(results@, j as int) {
                let i = choose|i: int|
                    0 <= i < j && #[trigger] results@[i].benchmark_id@
                        == results@[j as int].benchmark_id@;
                assert(order@.contains(i as usize));
                let p = choose|p: int| 0 <= p < order@.len() && order@[p] == i as usize;
                assert(ids[p] == id);
                law_text_order_is_total(id, id);
                if p < at {
                    assert(text_before(ids[p], id));
                } else if p > at {
                    assert(text_before(ids[at as int], ids[p]));
                    law_text_order_is_total(ids[at as int], ids[p]);
                }
            }
            lemma_insert_sorted(results@, order@, at as int, j);
        }
        let ghost before = order@;
        order.insert(at, j);
        proof {
            assert(order@[at as int] == j);
            assert forall|k: usize| k < j + 1 implies #[trigger] order@.contains(k) by {
                if k < j {
                    assert(before.contains(k));
                    let p = choose|p: int| 0 <= p < before.len() && before[p] == k;
                    if p < at {
                        assert(order@[p] == k);
                    } else {
                        assert(order@[p + 1] == k);
                    }
                }
            }
        }
    }
    Ok(order)
}

/// The two lists of results hold the same identifiers.
pub open spec fn same_ids(a: Seq<BenchResult>, b: Seq<BenchResult>) -> bool {
    ids_of(a).to_set() == ids_of(b).to_set()
}

/// Strictly sorted lists of the same texts are the same list.
proof fn lemma_sorted_is_unique(a: Seq<Seq<char>>, b: Seq<Seq<char>>)
    requires
        strictly_sorted(a),
        strictly_sorted(b),
        forall|t: Seq<char>| #[trigger] a.contains(t) <==> b.contains(t),
    ensures
        a == b,
    decreases a.len(),
{
    if a.len() == 0 {
        if b.len() > 0 {
            assert(b.contains(b[0]));
            assert(a.contains(b[0]));
        }
        assert(a =~= b);
    } else {
        assert(a.contains(a[0]));
        assert(b.contains(a[0]));
        let q = choose|q: int| 0 <= q < b.len() && b[q] == a[0];
        assert(b.contains(b[0]));
        assert(a.contains(b[0]));
        let p = choose|p: int| 0 <= p < a.len() && a[p] == b[0];
        if q > 0 {
            assert(text_before(b[0], b[q]));
            if p > 0 {
                assert(text_before(a[0], a[p]));
            }
            law_text_order_is_total(a[0], b[0]);
        }
        assert(a[0] == b[0]);
        let x = a.skip(1);
        let y = b.skip(1);
        law_text_order_is_total(a[0], a[0]);
        assert forall|t: Seq<char>| #[trigger] x.contains(t) <==> y.contains(t) by {
            if x.contains(t) {
                let i = choose|i: int| 0 <= i < x.len() && x[i] == t;
                assert(a[i + 1] == t);
                assert(a.contains(t));
                assert(b.contains(t));
                let j = choose|j: int| 0 <= j < b.len() && b[j] == t;
                assert(text_before(a[0], a[i + 1]));
                assert(j != 0);
                assert(y[j - 1] == t);
            }
            if y.contains(t) {
                let i = choose|i: int| 0 <= i < y.len() && y[i] == t;
                assert(b[i + 1] == t);
                assert(b.contains(t));
                assert(a.contains(t));
                let j = choose|j: int| 0 <= j < a.len() && a[j] == t;
                assert(text_before(b[0], b[i + 1]));
                assert(j != 0);
                assert(x[j - 1] == t);
            }
        }
        assert forall|i: int, j: int|
            #![trigger x[i], x[j]]
            0 <= i < j < x.len() implies text_before(x[i], x[j]) by {
            assert(text_before(a[i + 1], a[j + 1]));
        }
        assert forall|i: int, j: int|
            #![trigger y[i], y[j]]
            0 <= i < j < y.len() implies text_before(y[i], y[j]) by {
            assert(text_before(b[i + 1], b[j + 1]));
        }
        lemma_sorted_is_unique(x, y);
        assert(a =~= seq![a[0]] + x);
        assert(b =~= seq![b[0]] + y);
    }
}

/// An identifier stands among results exactly where it stands in their order.
proof fn lemma_order_keeps_ids(results: Seq<BenchResult>, order: Seq<usize>, id: Seq<char>)
    requires
        results.len() <= usize::MAX,
        is_sorting(results, order),
    ensures
        ids_in_order(results, order).contains(id) <==> ids_of(results).contains(id),
{
    let sorted = ids_in_order(results, order);
    let ids = ids_of(results);
    if sorted.contains(id) {
        let p = choose|p: int| 0 <= p < sorted.len() && sorted[p] == id;
        assert(ids[order[p] as int] == id);
    }
    if ids.contains(id) {
        let k = choose|k: int| 0 <= k < ids.len() && ids[k] == id;
        assert(order.contains(k as usize));
        let p = choose|p: int| 0 <= p < order.len() && order[p] == k as usize;
        assert(sorted[p] == id);
    }
}

/// Two reports list the same identifiers in order exactly where they hold the
/// same identifiers.
proof fn lemma_same_ids_in_order(
    a: Seq<BenchResult>,
    x: Seq<usize>,
    b: Seq<BenchResult>,
    y: Seq<usize>,
)
    requires
        a.len() <= usize::MAX,
        b.len() <= usize::MAX,
        is_sorting(a, x),
        is_sorting(b, y),
    ensures
        ids_in_order(a, x) == ids_in_order(b, y) <==> same_ids(a, b),
{
    let p = ids_in_order(a, x);
    let q = ids_in_order(b, y);
    if p == q {
        assert forall|t: Seq<char>| ids_of(a).to_set().contains(t) <==> ids_of(
            b,
        ).to_set().contains(t) by {
            lemma_order_keeps_ids(a, x, t);
            lemma_order_keeps_ids(b, y, t);
        }
        assert(ids_of(a).to_set() =~= ids_of(b).to_set());
    }
    if same_ids(a, b) {
        assert forall|t: Seq<char>| #[trigger] p.contains(t) <==> q.contains(t) by {
            lemma_order_keeps_ids(a, x, t);
            lemma_order_keeps_ids(b, y, t);
            assert(ids_of(a).to_set().contains(t) <==> ids_of(a).contains(t));
            assert(ids_of(b).to_set().contains(t) <==> ids_of(b).contains(t));
        }
        lemma_sorted_is_unique(p, q);
    }
}

/// All reports hold the same identifiers, each once.
pub open spec fn are_aligned(reports: Seq<BenchReport>) -> bool {
    &&& reports.len() > 0
    &&& forall|r: int| 0 <= r < reports.len() ==> has_distinct_ids(#[trigger] reports[r].results@)
    &&& forall|r: int|
        0 <= r < reports.len() ==> same_ids(#[trigger] reports[r].results@, reports[0].results@)
}

/// `message` says why the reports are not aligned: there is none; the first
/// report in which an identifier stands twice has it twice; or the first
/// report with other identifiers than the first one has them.
pub open spec fn explains_misalignment(reports: Seq<BenchReport>, message: Seq<char>) -> bool {
    ||| {
        &&& reports.len() == 0
        &&& message == "repeatability aggregation requires at least one report"@
    }
    ||| exists|r: int, j: int|
        #![trigger is_first_repeat(reports[r].results@, j)]
        {
            &&& 0 <= r < reports.len()
            &&& is_first_repeat(reports[r].results@, j)
            &&& forall|q: int| 0 <= q < r ==> has_distinct_ids(#[trigger] reports[q].results@)
            &&& message == duplicate_message(reports[r].results@[j].benchmark_id@)
        }
    ||| exists|r: int|
        #![trigger reports[r].results]
        {
            &&& 0 < r < reports.len()
            &&& forall|q: int|
                0 <= q < reports.len() ==> has_distinct_ids(#[trigger] reports[q].results@)
            &&& !same_ids(reports[r].results@, reports[0].results@)
            &&& forall|q: int|
                0 <= q < r ==> same_ids(#[trigger] reports[q].results@, reports[0].results@)
            &&& message == "run "@ + decimal_text(r as nat)
                + " produced a different scenario set than run 0"@
        }
}

/// `orders` lists the results of every report in the order of their common
/// identifiers.
pub open spec fn are_orders(reports: Seq<BenchReport>, orders: Seq<Vec<usize>>) -> bool {
    &&& orders.len() == reports.len()
    &&& forall|r: int|
        0 <= r < reports.len() ==> is_sorting(reports[r].results@, #[trigger] orders[r]@)
    &&& forall|r: int|
        0 <= r < reports.len() ==> ids_in_order(reports[r].results@, #[trigger] orders[r]@)
            == ids_in_order(reports[0].results@, orders[0]@)
}

/// Whether two reports list the same identifiers in order.
fn same_order_ids(
    a: &BenchReport,
    x: &Vec<usize>,
    b: &BenchReport,
    y: &Vec<usize>,
) -> (r: bool)
    requires
        is_sorting(a.results@, x@),
        is_sorting(b.results@, y@),
    ensures
        r == (ids_in_order(a.results@, x@) == ids_in_order(b.results@, y@)),
{
    let ghost p = ids_in_order(a.results@, x@);
    let ghost q = ids_in_order(b.results@, y@);
    if x.len() != y.len() {
        assert(p.len() != q.len());
        return false;
    }
    for i in 0..x.len()
        invariant
            is_sorting(a.results@, x@),
            is_sorting(b.results@, y@),
            x@.len() == y@.len(),
            p == ids_in_order(a.results@, x@),
            q == ids_in_order(b.results@, y@),
            forall|k: int| 0 <= k < i ==> #[trigger] p[k] == q[k],
    {
        assert(x@[i as int] < a.results@.len());
        assert(y@[i as int] < b.results@.len());
        if !same_text(
            a.results[x[i]].benchmark_id.as_str(),
            b.results[y[i]].benchmark_id.as_str(),
        ) {
            assert(p[i as int] != q[i as int]);
            return false;
        }
    }
    assert(p =~= q);
    true
}

/// The results of every report in the order of their common identifiers; an
/// error where they have none.
pub fn align_reports(reports: &Vec<BenchReport>) -> (r: Result<Vec<Vec<usize>>, String>)
    ensures
        match r {
            Ok(orders) => are_aligned(reports@) && are_orders(reports@, orders@),
            Err(message) => explains_misalignment(reports@, message@),
        },
{
    if reports.len() == 0 {
        return Err("repeatability aggregation requires at least one report".to_owned());
    }
    let mut orders: Vec<Vec<usize>> = Vec::new();
    for r in 0..reports.len()
        invariant
            orders@.len() == r,
            forall|q: int|
                0 <= q < r ==> is_sorting(reports@[q].results@, #[trigger] orders@[q]@),
            forall|q: int| 0 <= q < r ==> has_distinct_ids(#[trigger] reports@[q].results@),
    {
        match index_report(&reports[r]) {
            Ok(order) => {
                orders.push(order);
            },
            Err(message) => {
                proof {
                    let j = choose|j: int| #[trigger]
                        is_first_repeat(reports@[r as int].results@, j) && message@
                            == duplicate_message(reports@[r as int].results@[j].benchmark_id@);
                    assert(is_first_repeat(reports@[r as int].results@, j));
                }
                return Err(message);
            },
        }
    }
    proof {
        assert(reports@[0].results.len() <= usize::MAX);
        lemma_same_ids_in_order(
            reports@[0].results@,
            orders@[0]@,
            reports@[0].results@,
            orders@[0]@,
        );
    }
    for r in 1..reports.len()
        invariant
            reports@.len() > 0,
            orders@.len() == reports@.len(),
            forall|q: int|
                0 <= q < reports@.len() ==> is_sorting(
                    reports@[q].results@,
                    #[trigger] orders@[q]@,
                ),
            forall|q: int|
                0 <= q < reports@.len() ==> has_distinct_ids(#[trigger] reports@[q].results@),
            forall|q: int|
                0 <= q < r ==> ids_in_order(reports@[q].results@, #[trigger] orders@[q]@)
                    == ids_in_order(reports@[0].results@, orders@[0]@),
            forall|q: int|
                0 <= q < r ==> same_ids(#[trigger] reports@[q].results@, reports@[0].results@),
    {
        assert(is_sorting(reports@[r as int].results@, orders@[r as int]@));
        assert(is_sorting(reports@[0].results@, orders@[0]@));
        let same = same_order_ids(&reports[r], &orders[r], &reports[0], &orders[0]);
        proof {
            assert(reports@[r as int].results.len() <= usize::MAX);
            assert(reports@[0].results.len() <= usize::MAX);
            lemma_same_ids_in_order(
                reports@[r as int].results@,
                orders@[r as int]@,
                reports@[0].results@,
                orders@[0]@,
            );
        }
        if !same {
            let mut message: String = "run ".to_owned();
            message.append(decimal(r as u64).as_str());
            message.append(" produced a different scenario set than run 0");
            return Err(message);
        }
    }
    Ok(orders)
}

/// Reports that are aligned are never refused.
pub proof fn law_misalignment_is_refused_for_cause(reports: Seq<BenchReport>, message: Seq<char>)
    requires
        explains_misalignment(reports, message),
    ensures
        !are_aligned(reports),
{
    if are_aligned(reports) {
        if exists|r: int, j: int|
            #![trigger is_first_repeat(reports[r].results@, j)]
            {
                &&& 0 <= r < reports.len()
                &&& is_first_repeat(reports[r].results@, j)
            } {
            let (r, j) = choose|r: int, j: int|
                #![trigger is_first_repeat(reports[r].results@, j)]
                {
                    &&& 0 <= r < reports.len()
                    &&& is_first_repeat(reports[r].results@, j)
                };
            assert(has_distinct_ids(reports[r].results@));
            assert(repeats_earlier(reports[r].results@, j));
        }
    }
}

/// What a run of a scenario came to.
pub open spec fn sample_of(run_index: usize, result: BenchResult) -> RunSample {
    RunSample {
        run_index,
        producer_throughput_ops_sec: result.results.producer_throughput_ops_sec,
        consumer_throughput_ops_sec: result.results.consumer_throughput_ops_sec,
        verification_passed: result.results.verification_passed,
        latency_p50_ns: match result.latency {
            Some(stats) => Some(stats.p50_ns),
            None => None,
        },
        latency_p99_ns: match result.latency {
            Some(stats) => Some(stats.p99_ns),
            None => None,
        },
    }
}

/// The result at place `k` in the order of identifiers, in run `r`.
pub open spec fn ordered_result(
    reports: Seq<BenchReport>,
    orders: Seq<Vec<usize>>,
    k: int,
    r: int,
) -> BenchResult {
    reports[r].results@[orders[r]@[k] as int]
}

/// What the runs of the scenario at place `k` came to.
pub open spec fn samples_of(
    reports: Seq<BenchReport>,
    orders: Seq<Vec<usize>>,
    k: int,
) -> Seq<RunSample> {
    Seq::new(
        reports.len(),
        |r: int| sample_of(r as usize, ordered_result(reports, orders, k, r)),
    )
}

/// Every run measured latency.
pub open spec fn all_have_latency(runs: Seq<RunSample>) -> bool {
    forall|i: int| 0 <= i < runs.len() ==> (#[trigger] runs[i]).latency_p50_ns is Some
}

/// Every run did what it was to do.
pub open spec fn all_verified(runs: Seq<RunSample>) -> bool {
    forall|i: int| 0 <= i < runs.len() ==> (#[trigger] runs[i]).verification_passed
}

/// The message of a throughput that varies too much.
pub open spec fn variation_message(
    side: Seq<char>,
    cv: Seq<char>,
    threshold: Seq<char>,
) -> Seq<char> {
    side + " throughput CV "@ + cv + "% exceeded "@ + threshold + "%"@
}

/// Why a scenario does not pass: a run was not verified, or the throughput of
/// the producer or of the consumers varies more than the threshold allows.
pub open spec fn failures_of(
    runs: Seq<RunSample>,
    stats: ScenarioStats,
    threshold_pct: Metric,
    threshold: Seq<char>,
) -> Seq<Seq<char>> {
    let unverified = if all_verified(runs) {
        Seq::empty()
    } else {
        seq!["verification failed in at least one run"@]
    };
    let producer = if stats.producer_throughput.cv_pct.spec_exceeds(threshold_pct) {
        seq![variation_message("producer"@, stats.producer_cv@, threshold)]
    } else {
        Seq::empty()
    };
    let consumer = if stats.consumer_throughput.cv_pct.spec_exceeds(threshold_pct) {
        seq![variation_message("consumer"@, stats.consumer_cv@, threshold)]
    } else {
        Seq::empty()
    };
    unverified + producer + consumer
}

/// `r` is the repeatability of the scenario whose results in the runs are
/// given by `baseline`, that of the first run, and `runs`.
pub open spec fn is_repeatability(
    baseline: BenchResult,
    runs: Seq<RunSample>,
    stats: ScenarioStats,
    threshold_pct: Metric,
    threshold: Seq<char>,
    r: ScenarioRepeatability,
) -> bool {
    &&& r.runs@ == runs
    &&& views(r.failures@) == failures_of(runs, stats, threshold_pct, threshold)
    &&& r == (ScenarioRepeatability {
        benchmark_id: baseline.benchmark_id,
        scenario: baseline.scenario,
        backend: baseline.backend,
        layer: baseline.layer,
        codec: baseline.codec,
        measurement_mode: baseline.measurement_mode,
        wait_strategy: baseline.wait_strategy,
        config: baseline.config,
        runs: r.runs,
        producer_throughput: stats.producer_throughput,
        consumer_throughput: stats.consumer_throughput,
        latency_p50_ns: if all_have_latency(runs) {
            Some(stats.latency_p50_ns)
        } else {
            None
        },
        latency_p99_ns: if all_have_latency(runs) {
            Some(stats.latency_p99_ns)
        } else {
            None
        },
        pass: failures_of(runs, stats, threshold_pct, threshold).len() == 0,
        failures: r.failures,
    })
}

/// What the runs of the scenario at place `k` came to.
pub fn collect_samples(reports: &Vec<BenchReport>, orders: &Vec<Vec<usize>>, k: usize) -> (r: Vec<
    RunSample,
>)
    requires
        are_orders(reports@, orders@),
        reports@.len() > 0,
        k < reports@[0].results@.len(),
    ensures
        r@ == samples_of(reports@, orders@, k as int),
{
    let mut runs: Vec<RunSample> = Vec::new();
    for r in 0..reports.len()
        invariant
            are_orders(reports@, orders@),
            reports@.len() > 0,
            k < reports@[0].results@.len(),
            runs@ == samples_of(reports@, orders@, k as int).take(r as int),
    {
        proof {
            assert(is_sorting(reports@[r as int].results@, orders@[r as int]@));
            assert(is_sorting(reports@[0].results@, orders@[0]@));
            assert(ids_in_order(reports@[r as int].results@, orders@[r as int]@).len()
                == ids_in_order(reports@[0].results@, orders@[0]@).len());
            assert(orders@[r as int]@[k as int] < reports@[r as int].results@.len());
        }
        let result = &reports[r].results[orders[r][k]];
        runs.push(
            RunSample {
                run_index: r,
                producer_throughput_ops_sec: result.results.producer_throughput_ops_sec,
                consumer_throughput_ops_sec: result.results.consumer_throughput_ops_sec,
                verification_passed: result.results.verification_passed,
                latency_p50_ns: match &result.latency {
                    Some(stats) => Some(stats.p50_ns),
                    None => None,
                },
                latency_p99_ns: match &result.latency {
                    Some(stats) => Some(stats.p99_ns),
                    None => None,
                },
            },
        );
        assert(runs@ =~= samples_of(reports@, orders@, k as int).take(r + 1));
    }
    assert(runs@ =~= samples_of(reports@, orders@, k as int));
    runs
}

/// The message of a throughput that varies too much.
fn variation_note(side: &str, cv: &str, threshold: &str) -> (r: String)
    ensures
        r@ == variation_message(side@, cv@, threshold@),
{
    let mut out: String = side.to_owned();
    out.append(" throughput CV ");
    out.append(cv);
    out.append("% exceeded ");
    out.append(threshold);
    out.append("%");
    out
}

/// The repeatability of a scenario. `threshold` is the threshold in decimal
/// notation.
pub fn build_scenario_repeatability(
    baseline: &BenchResult,
    runs: Vec<RunSample>,
    stats: &ScenarioStats,
    threshold_pct: Metric,
    threshold: &str,
) -> (r: ScenarioRepeatability)
    ensures
        is_repeatability(*baseline, runs@, *stats, threshold_pct, threshold@, r),
{
    let mut verified = true;
    let mut has_latency = true;
    for i in 0..runs.len()
        invariant
            verified == all_verified(runs@.take(i as int)),
            has_latency == all_have_latency(runs@.take(i as int)),
    {
        let ghost shorter = runs@.take(i as int);
        let ghost taken = runs@.take(i + 1);
        assert forall|k: int| 0 <= k < i implies taken[k] == shorter[k] by {}
        assert(taken[i as int] == runs@[i as int]);
        if !runs[i].verification_passed {
            verified = false;
        }
        if runs[i].latency_p50_ns.is_none() {
            has_latency = false;
        }
        proof {
            if all_verified(taken) {
                assert forall|k: int| 0 <= k < shorter.len() implies (
                #[trigger] shorter[k]).verification_passed by {
                    assert(taken[k].verification_passed);
                }
            }
            if all_have_latency(taken) {
                assert forall|k: int| 0 <= k < shorter.len() implies (
                #[trigger] shorter[k]).latency_p50_ns is Some by {
                    assert(taken[k].latency_p50_ns is Some);
                }
            }
        }
    }
    assert(runs@.take(runs@.len() as int) =~= runs@);
    let mut failures: Vec<String> = Vec::new();
    assert(views(failures@) =~= Seq::empty());
    if !verified {
        push_cell(&mut failures, "verification failed in at least one run".to_owned());
    }
    if stats.producer_throughput.cv_pct.exceeds(&threshold_pct) {
        push_cell(
            &mut failures,
            variation_note("producer", stats.producer_cv.as_str(), threshold),
        );
    }
    if stats.consumer_throughput.cv_pct.exceeds(&threshold_pct) {
        push_cell(
            &mut failures,
            variation_note("consumer", stats.consumer_cv.as_str(), threshold),
        );
    }
    assert(views(failures@) =~= failures_of(runs@, *stats, threshold_pct, threshold@));
    assert(failures@.len() == views(failures@).len());
    ScenarioRepeatability {
        benchmark_id: baseline.benchmark_id.clone(),
        scenario: baseline.scenario.clone(),
        backend: baseline.backend.clone(),
        layer: baseline.layer.clone(),
        codec: copied_option_text(&baseline.codec),
        measurement_mode: baseline.measurement_mode.clone(),
        wait_strategy: baseline.wait_strategy.clone(),
        config: baseline.config.copied(),
        runs,
        producer_throughput: stats.producer_throughput,
        consumer_throughput: stats.consumer_throughput,
        latency_p50_ns: if has_latency {
            Some(stats.latency_p50_ns)
        } else {
            None
        },
        latency_p99_ns: if has_latency {
            Some(stats.latency_p99_ns)
        } else {
            None
        },
        pass: failures.len() == 0,
        failures,
    }
}

/// The samples of every scenario over the runs, in the order of identifiers;
/// an error where the reports are not aligned.
pub fn repeatability_samples(reports: &Vec<BenchReport>) -> (r: Result<Vec<Vec<RunSample>>, String>)
    ensures
        match r {
            Ok(samples) => are_aligned(reports@) && samples@.len() == reports@[0].results@.len()
                && exists|orders: Seq<Vec<usize>>| #[trigger]
                are_orders(reports@, orders) && forall|k: int|
                    0 <= k < samples@.len() ==> (#[trigger] samples@[k])@ == samples_of(
                        reports@,
                        orders,
                        k,
                    ),
            Err(message) => explains_misalignment(reports@, message@),
        },
{
    match align_reports(reports) {
        Ok(orders) => {
            let mut samples: Vec<Vec<RunSample>> = Vec::new();
            let count: usize = reports[0].results.len();
            for k in 0..count
                invariant
                    count == reports@[0].results@.len(),
                    reports@.len() > 0,
                    are_orders(reports@, orders@),
                    samples@.len() == k,
                    forall|q: int|
                        0 <= q < k ==> (#[trigger] samples@[q])@ == samples_of(
                            reports@,
                            orders@,
                            q,
                        ),
            {
                samples.push(collect_samples(reports, &orders, k));
            }
            assert(are_orders(reports@, orders@));
            Ok(samples)
        },
        Err(message) => Err(message),
    }
}

/// Every scenario passes.
pub open spec fn all_pass(scenarios: Seq<ScenarioRepeatability>) -> bool {
    forall|i: int| 0 <= i < scenarios.len() ==> (#[trigger] scenarios[i]).pass
}

/// `r` is the repeatability of the aligned reports, scenario by scenario in
/// the order of identifiers.
pub open spec fn aggregates(
    reports: Seq<BenchReport>,
    orders: Seq<Vec<usize>>,
    stats: Seq<ScenarioStats>,
    threshold_pct: Metric,
    threshold: Seq<char>,
    scenarios: Seq<ScenarioRepeatability>,
) -> bool {
    &&& scenarios.len() == reports[0].results@.len()
    &&& forall|k: int|
        0 <= k < scenarios.len() ==> is_repeatability(
            ordered_result(reports, orders, k, 0),
            samples_of(reports, orders, k),
            stats[k],
            threshold_pct,
            threshold,
            #[trigger] scenarios[k],
        )
}

/// The repeatability of a set of reports. `stats` holds the figures of every
/// scenario in the order of identifiers, and `threshold` is the threshold in
/// decimal notation.
pub fn aggregate_reports(
    command: &Vec<String>,
    reports: &Vec<BenchReport>,
    threshold_pct: Metric,
    threshold: &str,
    stats: &Vec<ScenarioStats>,
    generated_at: &str,
) -> (r: Result<RepeatabilityReport, String>)
    requires
        reports@.len() > 0 ==> stats@.len() == reports@[0].results@.len(),
    ensures
        match r {
            Ok(report) => {
                &&& are_aligned(reports@)
                &&& report.generated_at@ == generated_at@
                &&& report.command@ == command@
                &&& report.repeat_count == reports@.len()
                &&& report.threshold_pct == threshold_pct
                &&& report.overall_pass == all_pass(report.scenarios@)
                &&& exists|orders: Seq<Vec<usize>>| #[trigger]
                    are_orders(reports@, orders) && aggregates(
                        reports@,
                        orders,
                        stats@,
                        threshold_pct,
                        threshold@,
                        report.scenarios@,
                    )
            },
            Err(message) => explains_misalignment(reports@, message@),
        },
{
    let orders = match align_reports(reports) {
        Ok(orders) => orders,
        Err(message) => {
            return Err(message);
        },
    };
    let mut scenarios: Vec<ScenarioRepeatability> = Vec::new();
    let mut overall_pass = true;
    let count: usize = reports[0].results.len();
    for k in 0..count
        invariant
            count == reports@[0].results@.len(),
            reports@.len() > 0,
            stats@.len() == reports@[0].results@.len(),
            are_orders(reports@, orders@),
            scenarios@.len() == k,
            overall_pass == all_pass(scenarios@),
            forall|q: int|
                0 <= q < k ==> is_repeatability(
                    ordered_result(reports@, orders@, q, 0),
                    samples_of(reports@, orders@, q),
                    stats@[q],
                    threshold_pct,
                    threshold@,
                    #[trigger] scenarios@[q],
                ),
    {
        let runs = collect_samples(reports, &orders, k);
        assert(is_sorting(reports@[0].results@, orders@[0]@));
        assert(orders@[0]@[k as int] < reports@[0].results@.len());
        let baseline = &reports[0].results[orders[0][k]];
        let scenario = build_scenario_repeatability(
            baseline,
            runs,
            &stats[k],
            threshold_pct,
            threshold,
        );
        let ghost before = scenarios@;
        let passed = scenario.pass;
        if !passed {
            overall_pass = false;
        }
        scenarios.push(scenario);
        proof {
            assert(scenarios@[k as int].pass == passed);
            if all_pass(scenarios@) {
                assert forall|q: int| 0 <= q < before.len() implies (#[trigger] before[q]).pass by {
                    assert(scenarios@[q].pass);
                }
            }
        }
    }
    assert(are_orders(reports@, orders@));
    Ok(
        RepeatabilityReport {
            generated_at: generated_at.to_owned(),
            command: copied_texts(command),
            repeat_count: reports.len(),
            threshold_pct,
            overall_pass,
            scenarios,
        },
    )
}

/// A scenario passes exactly where every run was verified and neither
/// throughput varies beyond the threshold.
pub proof fn law_pass_means_verified_and_steady(
    baseline: BenchResult,
    runs: Seq<RunSample>,
    stats: ScenarioStats,
    threshold_pct: Metric,
    threshold: Seq<char>,
    r: ScenarioRepeatability,
)
    requires
        is_repeatability(baseline, runs, stats, threshold_pct, threshold, r),
    ensures
        r.pass <==> {
            &&& all_verified(runs)
            &&& !stats.producer_throughput.cv_pct.spec_exceeds(threshold_pct)
            &&& !stats.consumer_throughput.cv_pct.spec_exceeds(threshold_pct)
        },
        r.pass <==> r.failures@.len() == 0,
{
    assert(views(r.failures@).len() == r.failures@.len());
}

/// The measured quantities of a scenario in the notation of the summary.
#[derive(Clone, Debug)]
pub struct RepeatabilityNumbers {
    pub producer_mean: String,
    pub producer_cv: String,
    pub consumer_mean: String,
    pub consumer_cv: String,
    pub p99_mean: String,
}

/// The header of the summary.
pub open spec fn summary_header() -> Seq<Seq<char>> {
    seq![
        "Scenario"@,
        "Runs"@,
        "Prod Mean"@,
        "Prod CV"@,
        "Cons Mean"@,
        "Cons CV"@,
        "P99 Mean"@,
        "Result"@,
    ]
}

/// The row of a scenario.
pub open spec fn summary_row(
    scenario: ScenarioRepeatability,
    numbers: RepeatabilityNumbers,
) -> Seq<Seq<char>> {
    seq![
        scenario.scenario@,
        decimal_text(scenario.runs@.len()),
        numbers.producer_mean@,
        numbers.producer_cv@ + "%"@,
        numbers.consumer_mean@,
        numbers.consumer_cv@ + "%"@,
        if scenario.latency_p99_ns is Some {
            numbers.p99_mean@ + "ns"@
        } else {
            "-"@
        },
        if scenario.pass {
            "PASS"@
        } else {
            "FAIL"@
        },
    ]
}

/// The rows of the summary, header first.
pub open spec fn summary_table(
    scenarios: Seq<ScenarioRepeatability>,
    numbers: Seq<RepeatabilityNumbers>,
) -> Seq<Seq<Seq<char>>> {
    seq![summary_header()] + Seq::new(
        scenarios.len(),
        |i: int| summary_row(scenarios[i], numbers[i]),
    )
}

/// The cells of a scenario.
fn summary_cells(scenario: &ScenarioRepeatability, numbers: &RepeatabilityNumbers) -> (r: Vec<
    String,
>)
    ensures
        views(r@) == summary_row(*scenario, *numbers),
{
    let mut row: Vec<String> = Vec::new();
    assert(views(row@) =~= Seq::empty());
    push_cell(&mut row, scenario.scenario.clone());
    push_cell(&mut row, decimal(scenario.runs.len() as u64));
    push_cell(&mut row, numbers.producer_mean.clone());
    let mut producer_cv = numbers.producer_cv.clone();
    producer_cv.append("%");
    push_cell(&mut row, producer_cv);
    push_cell(&mut row, numbers.consumer_mean.clone());
    let mut consumer_cv = numbers.consumer_cv.clone();
    consumer_cv.append("%");
    push_cell(&mut row, consumer_cv);
    let p99_mean = if scenario.latency_p99_ns.is_some() {
        let mut out = numbers.p99_mean.clone();
        out.append("ns");
        out
    } else {
        "-".to_owned()
    };
    push_cell(&mut row, p99_mean);
    let verdict: String = if scenario.pass {
        "PASS".to_owned()
    } else {
        "FAIL".to_owned()
    };
    push_cell(&mut row, verdict);
    row
}

/// The rows of the summary, header first.
pub fn summary_rows(report: &RepeatabilityReport, numbers: &Vec<RepeatabilityNumbers>) -> (r: Vec<
    Vec<String>,
>)
    requires
        numbers@.len() == report.scenarios@.len(),
    ensures
        row_views(r@) == summary_table(report.scenarios@, numbers@),
{
    let mut row: Vec<String> = Vec::new();
    assert(views(row@) =~= Seq::empty());
    push_cell(&mut row, "Scenario".to_owned());
    push_cell(&mut row, "Runs".to_owned());
    push_cell(&mut row, "Prod Mean".to_owned());
    push_cell(&mut row, "Prod CV".to_owned());
    push_cell(&mut row, "Cons Mean".to_owned());
    push_cell(&mut row, "Cons CV".to_owned());
    push_cell(&mut row, "P99 Mean".to_owned());
    push_cell(&mut row, "Result".to_owned());
    assert(views(row@) == summary_header());
    let mut rows: Vec<Vec<String>> = Vec::new();
    assert(row_views(rows@) =~= Seq::empty());
    push_row(&mut rows, row);
    assert(row_views(rows@) =~= seq![summary_header()]);
    assert(row_views(rows@) =~= summary_table(report.scenarios@.take(0), numbers@));
    for i in 0..report.scenarios.len()
        invariant
            numbers@.len() == report.scenarios@.len(),
            row_views(rows@) == summary_table(report.scenarios@.take(i as int), numbers@),
    {
        push_row(&mut rows, summary_cells(&report.scenarios[i], &numbers[i]));
        assert(row_views(rows@) =~= summary_table(report.scenarios@.take(i + 1), numbers@));
    }
    assert(report.scenarios@.take(report.scenarios@.len() as int) =~= report.scenarios@);
    rows
}

/// The summary as a table.
pub fn render_summary_table(
    report: &RepeatabilityReport,
    numbers: &Vec<RepeatabilityNumbers>,
) -> (r: String)
    requires
        numbers@.len() == report.scenarios@.len(),
    ensures
        r@ == modern_table_text(summary_table(report.scenarios@, numbers@)),
{
    draw_modern_table(summary_rows(report, numbers))
}

/// A word of a command, in quotes where it holds a space.
pub open spec fn shell_word(part: Seq<char>) -> Seq<char> {
    if contains_text(part, " "@) {
        "\""@ + part + "\""@
    } else {
        part
    }
}

/// The words of a command on one line.
pub open spec fn shell_line(parts: Seq<String>) -> Seq<char> {
    joined(Seq::new(parts.len(), |i: int| shell_word(parts[i]@)), " "@)
}

/// The words of a command on one line, those with a space in quotes.
pub fn shell_words(parts: &Vec<String>) -> (r: String)
    ensures
        r@ == shell_line(parts@),
{
    let mut words: Vec<String> = Vec::new();
    for i in 0..parts.len()
        invariant
            views(words@) == Seq::new(i as nat, |k: int| shell_word(parts@[k]@)),
    {
        let ghost before = views(words@);
        if holds_text(parts[i].as_str(), " ") {
            let mut word: String = "\"".to_owned();
            word.append(parts[i].as_str());
            word.append("\"");
            push_cell(&mut words, word);
        } else {
            push_cell(&mut words, parts[i].clone());
        }
        assert(views(words@) =~= before.push(shell_word(parts@[i as int]@)));
        assert(views(words@) =~= Seq::new((i + 1) as nat, |k: int| shell_word(parts@[k]@)));
    }
    join_texts(&words, " ")
}

/// The part of a Markdown report before the table.
pub open spec fn markdown_preamble(report: RepeatabilityReport, threshold: Seq<char>) -> Seq<char> {
    "# Repeatability Report\n\n"@ + "- **Generated At**: "@ + report.generated_at@ + "\n"@
        + "- **Repeats**: "@ + decimal_text(report.repeat_count as nat) + "\n"@
        + "- **Threshold**: "@ + threshold + "% CV\n"@ + "- **Overall Pass**: "@ + bool_text(
        report.overall_pass,
    ) + "\n"@ + "- **Command**: `"@ + shell_line(report.command@) + "`\n"@
        + "\n## Scenarios\n\n"@
}

/// The repeatability as Markdown. `threshold` is the threshold in decimal
/// notation.
pub fn render_markdown(
    report: &RepeatabilityReport,
    threshold: &str,
    numbers: &Vec<RepeatabilityNumbers>,
) -> (r: String)
    requires
        numbers@.len() == report.scenarios@.len(),
    ensures
        r@ == markdown_preamble(*report, threshold@) + markdown_table_text(
            summary_table(report.scenarios@, numbers@),
        ) + "\n"@,
{
    let mut md: String = "# Repeatability Report\n\n".to_owned();
    md.append("- **Generated At**: ");
    md.append(report.generated_at.as_str());
    md.append("\n");
    md.append("- **Repeats**: ");
    md.append(decimal(report.repeat_count as u64).as_str());
    md.append("\n");
    md.append("- **Threshold**: ");
    md.append(threshold);
    md.append("% CV\n");
    md.append("- **Overall Pass**: ");
    md.append(bool_name(report.overall_pass).as_str());
    md.append("\n");
    md.append("- **Command**: `");
    md.append(shell_words(&report.command).as_str());
    md.append("`\n");
    md.append("\n## Scenarios\n\n");
    md.append(draw_markdown_table(summary_rows(report, numbers)).as_str());
    md.append("\n");
    md
}

/// The sample of a run of a scenario holds what the result of that run with the
/// scenario's identifier says, figure by figure.
pub proof fn law_samples_are_those_of_the_runs(
    reports: Seq<BenchReport>,
    orders: Seq<Vec<usize>>,
    k: int,
    r: int,
    j: int,
)
    requires
        are_orders(reports, orders),
        0 <= r < reports.len() <= usize::MAX,
        0 <= k < reports[0].results@.len(),
        0 <= j < reports[r].results@.len() <= usize::MAX,
        reports[r].results@[j].benchmark_id@
            == reports[0].results@[orders[0]@[k] as int].benchmark_id@,
    ensures
        samples_of(reports, orders, k).len() == reports.len(),
        ({
            let sample = samples_of(reports, orders, k)[r];
            let result = reports[r].results@[j];
            &&& sample.run_index == r
            &&& sample.producer_throughput_ops_sec == result.results.producer_throughput_ops_sec
            &&& sample.consumer_throughput_ops_sec == result.results.consumer_throughput_ops_sec
            &&& sample.verification_passed == result.results.verification_passed
            &&& sample.latency_p50_ns is Some <==> result.latency is Some
            &&& sample.latency_p99_ns is Some <==> result.latency is Some
            &&& result.latency is Some ==> sample.latency_p50_ns->0 == result.latency->0.p50_ns
            &&& result.latency is Some ==> sample.latency_p99_ns->0 == result.latency->0.p99_ns
        }),
{
    let results = reports[r].results@;
    let order = orders[r]@;
    assert(is_sorting(results, order));
    assert(is_sorting(reports[0].results@, orders[0]@));
    let ids = ids_in_order(results, order);
    assert(ids == ids_in_order(reports[0].results@, orders[0]@));
    assert(ids_in_order(reports[0].results@, orders[0]@)[k]
        == reports[0].results@[orders[0]@[k] as int].benchmark_id@);
    assert(order.contains(j as usize));
    let p = choose|p: int| 0 <= p < order.len() && order[p] == j as usize;
    assert(ids[p] == results[j].benchmark_id@);
    law_text_order_is_total(ids[p], ids[p]);
    if p < k {
        assert(text_before(ids[p], ids[k]));
    } else if k < p {
        assert(text_before(ids[k], ids[p]));
    }
    assert(order[k] == j);
}

/// The scenarios of a repeatability come in the order of their identifiers, each
/// of the first report's once, with what its result there says of it, a sample
/// for every run, the figures given for it, and latency figures exactly where
/// every run measured latency.
pub proof fn law_scenarios_are_those_of_the_first_report(
    reports: Seq<BenchReport>,
    orders: Seq<Vec<usize>>,
    stats: Seq<ScenarioStats>,
    threshold_pct: Metric,
    threshold: Seq<char>,
    scenarios: Seq<ScenarioRepeatability>,
    j: int,
)
    requires
        are_orders(reports, orders),
        aggregates(reports, orders, stats, threshold_pct, threshold, scenarios),
        reports.len() > 0,
        0 <= j < reports[0].results@.len() <= usize::MAX,
    ensures
        scenarios.len() == reports[0].results@.len(),
        forall|a: int, b: int|
            0 <= a < b < scenarios.len() ==> text_before(
                (#[trigger] scenarios[a]).benchmark_id@,
                (#[trigger] scenarios[b]).benchmark_id@,
            ),
        exists|k: int|
            {
                let result = reports[0].results@[j];
                let s = #[trigger] scenarios[k];
                &&& 0 <= k < scenarios.len()
                &&& s.benchmark_id@ == result.benchmark_id@
                &&& s.scenario@ == result.scenario@
                &&& s.backend@ == result.backend@
                &&& s.layer@ == result.layer@
                &&& s.codec == result.codec
                &&& s.measurement_mode@ == result.measurement_mode@
                &&& s.wait_strategy@ == result.wait_strategy@
                &&& s.config == result.config
                &&& s.runs@.len() == reports.len()
                &&& s.producer_throughput == stats[k].producer_throughput
                &&& s.consumer_throughput == stats[k].consumer_throughput
                &&& s.latency_p50_ns is Some <==> forall|i: int|
                    0 <= i < s.runs@.len() ==> (#[trigger] s.runs@[i]).latency_p50_ns is Some
                &&& s.latency_p99_ns is Some <==> s.latency_p50_ns is Some
                &&& s.latency_p50_ns is Some ==> s.latency_p50_ns->0 == stats[k].latency_p50_ns
                &&& s.latency_p99_ns is Some ==> s.latency_p99_ns->0 == stats[k].latency_p99_ns
            },
{
    let results = reports[0].results@;
    let order = orders[0]@;
    assert(is_sorting(results, order));
    let ids = ids_in_order(results, order);
    assert forall|k: int| 0 <= k < scenarios.len() implies (
    #[trigger] scenarios[k]).benchmark_id@ == ids[k] by {
        assert(is_repeatability(
            ordered_result(reports, orders, k, 0),
            samples_of(reports, orders, k),
            stats[k],
            threshold_pct,
            threshold,
            scenarios[k],
        ));
    }
    assert forall|a: int, b: int| 0 <= a < b < scenarios.len() implies text_before(
        (#[trigger] scenarios[a]).benchmark_id@,
        (#[trigger] scenarios[b]).benchmark_id@,
    ) by {
        assert(text_before(ids[a], ids[b]));
    }
    assert(order.contains(j as usize));
    let k = choose|k: int| 0 <= k < order.len() && order[k] == j as usize;
    assert(is_repeatability(
        ordered_result(reports, orders, k, 0),
        samples_of(reports, orders, k),
        stats[k],
        threshold_pct,
        threshold,
        scenarios[k],
    ));
    assert(ordered_result(reports, orders, k, 0) == results[j]);
    let s = scenarios[k];
    assert(s.runs@ == samples_of(reports, orders, k));
}

/// A scenario says why it fails: once that a run was not verified, once that the
/// producer's throughput varies too much, once that the consumers' does, each
/// exactly where it is so, and nothing else.
pub proof fn law_failures_are_named(
    baseline: BenchResult,
    runs: Seq<RunSample>,
    stats: ScenarioStats,
    threshold_pct: Metric,
    threshold: Seq<char>,
    r: ScenarioRepeatability,
)
    requires
        is_repeatability(baseline, runs, stats, threshold_pct, threshold, r),
    ensures
        ({
            let failures = views(r.failures@);
            let unverified = exists|i: int|
                0 <= i < runs.len() && !(#[trigger] runs[i]).verification_passed;
            let producer = stats.producer_throughput.cv_pct.spec_exceeds(threshold_pct);
            let consumer = stats.consumer_throughput.cv_pct.spec_exceeds(threshold_pct);
            &&& failures.len() == (if unverified {
                1int
            } else {
                0
            }) + (if producer {
                1int
            } else {
                0
            }) + (if consumer {
                1int
            } else {
                0
            })
            &&& unverified ==> failures[0] == "verification failed in at least one run"@
            &&& producer ==> failures[if unverified {
                1
            } else {
                0
            }] == "producer"@ + " throughput CV "@ + stats.producer_cv@ + "% exceeded "@
                + threshold + "%"@
            &&& consumer ==> failures[failures.len() - 1] == "consumer"@ + " throughput CV "@
                + stats.consumer_cv@ + "% exceeded "@ + threshold + "%"@
        }),
{
    if !all_verified(runs) {
        let i = choose|i: int| 0 <= i < runs.len() && !(#[trigger] runs[i]).verification_passed;
        assert(!runs[i].verification_passed);
    }
}

/// In the summary every figure stands under its name.
pub proof fn law_summary_figures_stand_under_their_names(
    scenarios: Seq<ScenarioRepeatability>,
    numbers: Seq<RepeatabilityNumbers>,
    i: int,
)
    requires
        0 <= i < scenarios.len(),
        numbers.len() == scenarios.len(),
    ensures
        ({
            let rows = summary_table(scenarios, numbers);
            let (head, row) = (rows[0], rows[i + 1]);
            &&& rows.len() == scenarios.len() + 1
            &&& head.len() == 8 && row.len() == 8
            &&& head[0] == "Scenario"@ && row[0] == scenarios[i].scenario@
            &&& head[1] == "Runs"@ && row[1] == decimal_text(scenarios[i].runs@.len())
            &&& head[2] == "Prod Mean"@ && row[2] == numbers[i].producer_mean@
            &&& head[3] == "Prod CV"@ && row[3] == numbers[i].producer_cv@ + "%"@
            &&& head[4] == "Cons Mean"@ && row[4] == numbers[i].consumer_mean@
            &&& head[5] == "Cons CV"@ && row[5] == numbers[i].consumer_cv@ + "%"@
            &&& head[6] == "P99 Mean"@
            &&& scenarios[i].latency_p99_ns is Some ==> row[6] == numbers[i].p99_mean@ + "ns"@
            &&& scenarios[i].latency_p99_ns is None ==> row[6] == "-"@
            &&& head[7] == "Result"@
            &&& scenarios[i].pass ==> row[7] == "PASS"@
            &&& !scenarios[i].pass ==> row[7] == "FAIL"@
        }),
{
}

/// A word of a command is shown as it is, or in quotes where it holds a space.
pub proof fn law_words_with_spaces_are_quoted(part: Seq<char>)
    ensures
        !part.contains(' ') ==> shell_word(part) == part,
        part.contains(' ') ==> shell_word(part) == seq!['"'] + part + seq!['"'],
{
    reveal_strlit(" ");
    reveal_strlit("\"");
    assert("\""@ =~= seq!['"']);
    if part.contains(' ') {
        let i = choose|i: int| 0 <= i < part.len() && part[i] == ' ';
        assert(part.subrange(i, i + 1) =~= " "@);
        assert(occurs_at(part, " "@, i));
    }
    if contains_text(part, " "@) {
        let i = choose|i: int| #[trigger] occurs_at(part, " "@, i);
        assert(part.subrange(i, i + 1)[0] == ' ');
        assert(part[i] == ' ');
    }
}

/// The Markdown report says when it was made, how many runs there were, the
/// threshold, whether everything passed, and the command.
pub proof fn law_markdown_says_what_ran(report: RepeatabilityReport, threshold: Seq<char>)
    ensures
        contains_text(
            markdown_preamble(report, threshold),
            "- **Generated At**: "@ + report.generated_at@ + "\n"@,
        ),
        contains_text(
            markdown_preamble(report, threshold),
            "- **Repeats**: "@ + decimal_text(report.repeat_count as nat) + "\n"@,
        ),
        contains_text(
            markdown_preamble(report, threshold),
            "- **Threshold**: "@ + threshold + "% CV\n"@,
        ),
        contains_text(
            markdown_preamble(report, threshold),
            "- **Overall Pass**: "@ + (if report.overall_pass {
                "true"@
            } else {
                "false"@
            }) + "\n"@,
        ),
        contains_text(
            markdown_preamble(report, threshold),
            "- **Command**: `"@ + shell_line(report.command@) + "`\n"@,
        ),
{
    let title = "# Repeatability Report\n\n"@;
    let made = "- **Generated At**: "@ + report.generated_at@ + "\n"@;
    let repeats = "- **Repeats**: "@ + decimal_text(report.repeat_count as nat) + "\n"@;
    let limit = "- **Threshold**: "@ + threshold + "% CV\n"@;
    let passed = "- **Overall Pass**: "@ + bool_text(report.overall_pass) + "\n"@;
    let command = "- **Command**: `"@ + shell_line(report.command@) + "`\n"@;
    let end = "\n## Scenarios\n\n"@;
    let whole = markdown_preamble(report, threshold);
    assert(whole =~= title + made + (repeats + limit + passed + command + end));
    lemma_holds_middle(title, made, repeats + limit + passed + command + end);
    assert(whole =~= (title + made) + repeats + (limit + passed + command + end));
    lemma_holds_middle(title + made, repeats, limit + passed + command + end);
    assert(whole =~= (title + made + repeats) + limit + (passed + command + end));
    lemma_holds_middle(title + made + repeats, limit, passed + command + end);
    assert(whole =~= (title + made + repeats + limit) + passed + (command + end));
    lemma_holds_middle(title + made + repeats + limit, passed, command + end);
    assert(whole =~= (title + made + repeats + limit + passed) + command + end);
    lemma_holds_middle(title + made + repeats + limit + passed, command, end);
}

/// A text holds what it is made of.
proof fn lemma_holds_middle(a: Seq<char>, b: Seq<char>, c: Seq<char>)
    ensures
        contains_text(a + b + c, b),
{
    assert((a + b + c).subrange(a.len() as int, (a.len() + b.len()) as int) =~= b);
    assert(occurs_at(a + b + c, b, a.len() as int));
}

} // verus!
