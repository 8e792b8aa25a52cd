//! Where the files of a run go.
use vstd::prelude::*;
use crate::decimal::{decimal, decimal_text};
use crate::host::{model_field, platform, printed_or, run_cpu, trimmed};
use crate::naming::{join_path, joined_path};
use crate::text::{option_str_view, option_view, owned_option_text};

verus! {

/// What is noted of a run.
#[derive(Debug, Clone)]
pub struct RunMetadata {
    pub timestamp: String,
    pub platform: String,
    pub cpu: String,
    pub git_commit: String,
    pub tier: Option<String>,
}

impl RunMetadata {
    /// What is noted of a run that begins at the given time: `cpuinfo` is what
    /// the system tells of its processors, and `commit` is what the command
    /// that names the commit printed.
    pub fn current(
        tier: Option<&str>,
        timestamp: &str,
        os: &str,
        arch: &str,
        cpuinfo: Option<&str>,
        commit: Option<&str>,
    ) -> (r: RunMetadata)
        ensures
            r.timestamp@ == timestamp@,
            r.platform@ == os@ + " "@ + arch@,
            r.cpu@ == match cpuinfo {
                Some(text) => match model_field(text@) {
                    Some(Some(model)) => model,
                    _ => "unknown"@,
                },
                None => "unknown"@,
            },
            r.git_commit@ == match commit {
                Some(text) => trimmed(text@),
                None => "unknown"@,
            },
            option_view(r.tier) == option_str_view(tier),
    {
        RunMetadata {
            timestamp: timestamp.to_owned(),
            platform: platform(os, arch),
            cpu: run_cpu(cpuinfo),
            git_commit: printed_or(commit, "unknown"),
            tier: owned_option_text(tier),
        }
    }
}

/// The directory of a run, and what to set up in it.
#[derive(Debug, Clone)]
pub struct RunDir {
    pub path: String,
    /// What a directory that the run makes for itself is given: none for one
    /// that was there before.
    pub fresh: Option<FreshRunDir>,
}

/// What a new directory of a run is given.
#[derive(Debug, Clone)]
pub struct FreshRunDir {
    /// The file for what is noted of the run.
    pub metadata_path: String,
    /// The directory for logs.
    pub logs_dir: String,
}

/// The directory of a run: the one that was given, else one named by the time.
pub fn plan_run_dir(given: Option<&str>, timestamp: &str) -> (r: RunDir)
    ensures
        given is Some ==> r.path@ == given->0@ && r.fresh is None,
        given is None ==> {
            &&& r.path@ == joined_path("output"@, timestamp@)
            &&& r.fresh is Some
            &&& r.fresh->0.metadata_path@ == joined_path(r.path@, "run.json"@)
            &&& r.fresh->0.logs_dir@ == joined_path(r.path@, "logs"@)
        },
{
    match given {
        Some(dir) => RunDir { path: dir.to_owned(), fresh: None },
        None => {
            let path = join_path("output", timestamp);
            let metadata_path = join_path(path.as_str(), "run.json");
            let logs_dir = join_path(path.as_str(), "logs");
            RunDir { path, fresh: Some(FreshRunDir { metadata_path, logs_dir }) }
        },
    }
}

/// A number of bytes in the largest of bytes, KiB and MiB that it reaches,
/// rounded down.
pub open spec fn human_size_text(bytes: nat) -> Seq<char> {
    if bytes >= 1_048_576 {
        decimal_text(bytes / 1_048_576) + "MB"@
    } else if bytes >= 1024 {
        decimal_text(bytes / 1024) + "KB"@
    } else {
        decimal_text(bytes) + "B"@
    }
}

/// A number of bytes in a short form.
pub fn human_size(bytes: usize) -> (r: String)
    ensures
        r@ == human_size_text(bytes as nat),
{
    if bytes >= 1_048_576 {
        let mut out = decimal((bytes / 1_048_576) as u64);
        out.append("MB");
        out
    } else if bytes >= 1024 {
        let mut out = decimal((bytes / 1024) as u64);
        out.append("KB");
        out
    } else {
        let mut out = decimal(bytes as u64);
        out.append("B");
        out
    }
}

/// A directory under `base`, where one is named.
pub open spec fn optional_dir(base: Seq<char>, name: Option<Seq<char>>) -> Seq<char> {
    match name {
        Some(text) => joined_path(base, text),
        None => base,
    }
}

/// The directory of a scenario's results: by topology, layer and backend, then
/// by fragmentation, codec and consumers, where those are given.
pub open spec fn result_dir_text(
    run_dir: Seq<char>,
    topology: Seq<char>,
    layer: Seq<char>,
    backend: Seq<char>,
    codec: Option<Seq<char>>,
    frag: Option<Seq<char>>,
    consumers: Option<usize>,
) -> Seq<char> {
    let base = joined_path(joined_path(joined_path(run_dir, topology), layer), backend);
    optional_dir(
        optional_dir(optional_dir(base, frag), codec),
        match consumers {
            Some(n) => Some(decimal_text(n as nat) + "c"@),
            None => None,
        },
    )
}

/// The name of a result's file.
pub open spec fn result_file_text(
    size_bytes: nat,
    mode: Seq<char>,
    target_rate: Option<u64>,
) -> Seq<char> {
    match target_rate {
        Some(rate) => human_size_text(size_bytes) + "_"@ + mode + "_"@ + decimal_text(rate as nat)
            + ".json"@,
        None => human_size_text(size_bytes) + "_"@ + mode + ".json"@,
    }
}

/// The directory of a scenario's results.
pub fn result_dir(
    run_dir: &str,
    topology: &str,
    layer: &str,
    backend: &str,
    codec: Option<&str>,
    frag: Option<&str>,
    consumers: Option<usize>,
) -> (r: String)
    ensures
        r@ == result_dir_text(
            run_dir@,
            topology@,
            layer@,
            backend@,
            option_str_view(codec),
            option_str_view(frag),
            consumers,
        ),
{
    let mut path = join_path(run_dir, topology);
    path = join_path(path.as_str(), layer);
    path = join_path(path.as_str(), backend);
    if let Some(name) = frag {
        path = join_path(path.as_str(), name);
    }
    if let Some(name) = codec {
        path = join_path(path.as_str(), name);
    }
    if let Some(n) = consumers {
        let mut name = decimal(n as u64);
        name.append("c");
        path = join_path(path.as_str(), name.as_str());
    }
    path
}

/// The path of the file for a scenario's result.
pub fn result_path(
    run_dir: &str,
    topology: &str,
    layer: &str,
    backend: &str,
    codec: Option<&str>,
    frag: Option<&str>,
    consumers: Option<usize>,
    size_bytes: usize,
    mode: &str,
    target_rate: Option<u64>,
) -> (r: String)
    ensures
        r@ == joined_path(
            result_dir_text(
                run_dir@,
                topology@,
                layer@,
                backend@,
                option_str_view(codec),
                option_str_view(frag),
                consumers,
            ),
            result_file_text(size_bytes as nat, mode@, target_rate),
        ),
{
    let dir = result_dir(run_dir, topology, layer, backend, codec, frag, consumers);
    let mut name = human_size(size_bytes);
    name.append("_");
    name.append(mode);
    if let Some(rate) = target_rate {
        name.append("_");
        name.append(decimal(rate).as_str());
    }
    name.append(".json");
    join_path(dir.as_str(), name.as_str())
}

/// A size is shown in the greatest unit of which it has one, and as many whole
/// ones as it has.
pub proof fn law_sizes_are_shown_in_whole_units(bytes: nat, units: nat)
    ensures
        bytes < 1024 ==> human_size_text(bytes) == decimal_text(bytes) + seq!['B'],
        1024 <= bytes < 1_048_576 && 1024 * units <= bytes < 1024 * (units + 1)
            ==> human_size_text(bytes) == decimal_text(units) + seq!['K', 'B'],
        bytes >= 1_048_576 && 1_048_576 * units <= bytes < 1_048_576 * (units + 1)
            ==> human_size_text(bytes) == decimal_text(units) + seq!['M', 'B'],
{
    reveal_strlit("B");
    reveal_strlit("KB");
    reveal_strlit("MB");
    assert("B"@ =~= seq!['B']);
    assert("KB"@ =~= seq!['K', 'B']);
    assert("MB"@ =~= seq!['M', 'B']);
}

/// The directory of a scenario's results lies below that of the run by topology,
/// layer and backend, then by fragmentation, by codec and by number of consumers,
/// as far as each is given.
pub proof fn law_results_are_filed_by_what_ran(
    run_dir: Seq<char>,
    topology: Seq<char>,
    layer: Seq<char>,
    backend: Seq<char>,
    codec: Seq<char>,
    frag: Seq<char>,
    consumers: usize,
)
    ensures
        ({
            let place = joined_path(joined_path(joined_path(run_dir, topology), layer), backend);
            let count = decimal_text(consumers as nat).push('c');
            let file = |c: Option<Seq<char>>, f: Option<Seq<char>>, n: Option<usize>|
                result_dir_text(run_dir, topology, layer, backend, c, f, n);
            &&& file(None, None, None) == place
            &&& file(Some(codec), None, None) == joined_path(place, codec)
            &&& file(None, Some(frag), None) == joined_path(place, frag)
            &&& file(None, None, Some(consumers)) == joined_path(place, count)
            &&& file(Some(codec), Some(frag), None) == joined_path(joined_path(place, frag), codec)
            &&& file(Some(codec), None, Some(consumers)) == joined_path(
                joined_path(place, codec),
                count,
            )
            &&& file(None, Some(frag), Some(consumers)) == joined_path(
                joined_path(place, frag),
                count,
            )
            &&& file(Some(codec), Some(frag), Some(consumers)) == joined_path(
                joined_path(joined_path(place, frag), codec),
                count,
            )
        }),
{
    reveal_strlit("c");
    assert(decimal_text(consumers as nat) + "c"@ =~= decimal_text(consumers as nat).push('c'));
}

} // verus!
