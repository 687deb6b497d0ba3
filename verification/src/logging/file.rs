//! The file sink's pure side: log text and collision-free file names.

use vstd::prelude::*;
use vstd::seq_lib::*;
use vstd::set_lib::lemma_len_subset;
use crate::metrics::Snapshot;
use crate::metrics::interval::{IntervalMetrics, spec_update_metrics};
use crate::metrics::warn::{Warn, WarnMetrics, expected_warnings};
use crate::parse_config::{Config, LogCredentials};
use crate::text::{dec_digits, join_lines, join_lines_exec, lemma_dec_digits_injective,
    percent_digits, percent_to_string, u64_to_string};
use vstd::string::{StrSliceExecFns, StringExecFns};

verus! {

/// The base directory the file sink writes under.
pub open spec fn spec_file_dir(c: Config) -> Seq<char> {
    match c.log_credentials {
        LogCredentials::FileLog { path } => path@,
        _ => Seq::empty(),
    }
}

/// Reads the logging directory out of a file-sink config.
pub fn get_directory(config: &Config) -> (dir: String)
    requires
        config.log_type is File,
        config.log_credentials is FileLog,
    ensures
        dir@ == spec_file_dir(*config),
{
    match &config.log_credentials {
        LogCredentials::FileLog { path } => path.clone(),
        _ => {
            proof {
                assert(false);
            }
            String::new()
        },
    }
}

/// The log-file name of slot `n`: `<base>_<n>.txt`.
pub open spec fn slot_name(base: Seq<char>, n: nat) -> Seq<char> {
    base + "_"@ + dec_digits(n) + ".txt"@
}

/// Slot names with the same base and different numbers never collide.
proof fn lemma_slot_name_injective(base: Seq<char>, n1: nat, n2: nat)
    requires
        slot_name(base, n1) == slot_name(base, n2),
    ensures
        n1 == n2,
{
    let d1 = dec_digits(n1);
    let d2 = dec_digits(n2);
    let off = base.len() + "_"@.len();
    assert(slot_name(base, n1).len() == off + d1.len() + ".txt"@.len());
    assert(slot_name(base, n2).len() == off + d2.len() + ".txt"@.len());
    assert(d1.len() == d2.len());
    assert forall|j: int| 0 <= j < d1.len() implies d1[j] == d2[j] by {
        assert(slot_name(base, n1)[off + j] == d1[j]);
        assert(slot_name(base, n2)[off + j] == d2[j]);
    }
    assert(d1 =~= d2);
    lemma_dec_digits_injective(n1, n2);
}

/// Whether slot `n` is already present in the directory listing.
pub open spec fn slot_taken(files: Seq<String>, base: Seq<char>, n: nat) -> bool {
    exists|i: int| 0 <= i < files.len() && files[i]@ == slot_name(base, n)
}

/// `n` is the smallest positive slot number free in the listing.
pub open spec fn is_next_free(files: Seq<String>, base: Seq<char>, n: nat) -> bool {
    &&& n >= 1
    &&& !slot_taken(files, base, n)
    &&& forall|m: nat| 1 <= m < n ==> slot_taken(files, base, m)
}

/// The smallest free slot is the one and only one: re-running the search on
/// an unchanged listing returns the same name.
pub proof fn lemma_next_free_unique(files: Seq<String>, base: Seq<char>, n1: nat, n2: nat)
    requires
        is_next_free(files, base, n1),
        is_next_free(files, base, n2),
    ensures
        n1 == n2,
{
    if n1 < n2 {
        assert(slot_taken(files, base, n1));
    }
    if n2 < n1 {
        assert(slot_taken(files, base, n2));
    }
}

/// Builds the name of slot `num`.
fn make_slot_name(filename: &str, num: u64) -> (s: String)
    ensures
        s@ == slot_name(filename@, num as nat),
{
    let mut s = String::from_str(filename);
    s.append("_");
    let digits = u64_to_string(num);
    s.append(digits.as_str());
    s.append(".txt");
    proof {
        assert(s@ =~= slot_name(filename@, num as nat));
    }
    s
}

/// Whether the listing holds this exact name.
fn list_contains(files: &Vec<String>, target: &String) -> (r: bool)
    ensures
        r == exists|i: int| 0 <= i < files@.len() && files@[i]@ == target@,
{
    let mut i: usize = 0;
    while i < files.len()
        invariant
            0 <= i <= files@.len(),
            forall|j: int| 0 <= j < i ==> files@[j]@ != target@,
        decreases files@.len() - i,
    {
        if files[i] == *target {
            return true;
        }
        i = i + 1;
    }
    false
}

/// When slots 1 through `num` are all present in the listing, the listing
/// holds at least `num` entries: their names are pairwise distinct.
proof fn lemma_taken_slots_bound(files: Seq<String>, base: Seq<char>, num: nat)
    requires
        forall|m: nat| 1 <= m <= num ==> slot_taken(files, base, m),
    ensures
        num <= files.len(),
{
    broadcast use seq_to_set_is_finite;

    let names = Seq::<Seq<char>>::new(num, |k: int| slot_name(base, (k + 1) as nat));
    assert(names.no_duplicates()) by {
        assert forall|i: int, j: int|
            0 <= i < names.len() && 0 <= j < names.len() && i != j implies names[i]
            != names[j] by {
            if names[i] == names[j] {
                lemma_slot_name_injective(base, (i + 1) as nat, (j + 1) as nat);
            }
        }
    }
    names.unique_seq_to_set();
    let views = files.map_values(|f: String| f@);
    assert forall|x: Seq<char>| names.to_set().contains(x) implies views.to_set().contains(x) by {
        let k = choose|k: int| 0 <= k < names.len() && names[k] == x;
        assert(1 <= k + 1 <= num);
        assert(slot_taken(files, base, (k + 1) as nat));
        let i = choose|i: int|
            0 <= i < files.len() && files[i]@ == slot_name(base, (k + 1) as nat);
        assert(views[i] == x);
        assert(views.contains(x));
    }
    assert(names.to_set().subset_of(views.to_set()));
    views.lemma_cardinality_of_set();
    lemma_len_subset(names.to_set(), views.to_set());
}

/// Finds the first free log-file slot in the directory listing: the name
/// `<filename>_<n>.txt` with the smallest `n` from 1 up that is not yet
/// listed. The listing is taken fresh from the caller every cycle.
pub fn find_next_free_name(filename: &str, dir_files: &Vec<String>) -> (name: String)
    requires
        dir_files@.len() < usize::MAX,
    ensures
        exists|n: nat|
            is_next_free(dir_files@, filename@, n) && name@ == slot_name(filename@, n),
{
    let mut num: usize = 1;
    loop
        invariant
            1 <= num <= dir_files@.len() + 1,
            dir_files@.len() < usize::MAX,
            forall|m: nat| 1 <= m < num ==> slot_taken(dir_files@, filename@, m),
        decreases dir_files@.len() + 1 - num,
    {
        let candidate = make_slot_name(filename, num as u64);
        if !list_contains(dir_files, &candidate) {
            proof {
                assert(!slot_taken(dir_files@, filename@, num as nat));
                assert(is_next_free(dir_files@, filename@, num as nat));
            }
            return candidate;
        }
        proof {
            assert(slot_taken(dir_files@, filename@, num as nat));
            assert forall|m: nat| 1 <= m <= num implies slot_taken(
                dir_files@,
                filename@,
                m,
            ) by {}
            lemma_taken_slots_bound(dir_files@, filename@, num as nat);
        }
        num = num + 1;
    }
}

/// The RAM line of an interval log, figures in whole megabytes.
pub open spec fn interval_ram_line(used: u64, total: u64) -> Seq<char> {
    "Used RAM: "@ + dec_digits((used / 1000) as nat) + " MB out of "@ + dec_digits(
        (total / 1000) as nat,
    ) + " MB"@
}

/// The swap line of an interval log.
pub open spec fn interval_swap_line(used: u64, total: u64) -> Seq<char> {
    "Used Swap: "@ + dec_digits((used / 1000) as nat) + " MB out of "@ + dec_digits(
        (total / 1000) as nat,
    ) + " MB"@
}

/// The CPU line of an interval log.
pub open spec fn interval_cpu_line(bp: u32) -> Seq<char> {
    "Used CPU: "@ + percent_digits(bp as nat) + "%"@
}

/// The load-average line of an interval log.
pub open spec fn interval_cpu_average_line(avg: (u64, u64, u64)) -> Seq<char> {
    "CPU Average: 1 minute - "@ + percent_digits(avg.0 as nat) + "%, 5 minutes - "@
        + percent_digits(avg.1 as nat) + "%, 15 minutes - "@ + percent_digits(avg.2 as nat) + "%"@
}

/// The uptime line of an interval log, in whole minutes.
pub open spec fn interval_uptime_line(uptime: u64) -> Seq<char> {
    "System Uptime: "@ + dec_digits((uptime / 60) as nat) + " minutes"@
}

/// The disk line of an interval log; the slot already holds megabytes.
pub open spec fn interval_disk_line(disk_mb: u64) -> Seq<char> {
    "Used Disk Space: "@ + dec_digits(disk_mb as nat) + " MB"@
}

/// The lines of an interval log, one per enabled slot, in the fixed order
/// RAM, swap, CPU, load average, uptime, disk.
pub open spec fn spec_interval_lines(m: IntervalMetrics, snap: Snapshot) -> Seq<Seq<char>> {
    (if m.ram is Some {
        seq![interval_ram_line(m.ram->0, snap.ram_total)]
    } else {
        Seq::empty()
    }) + (if m.swap is Some {
        seq![interval_swap_line(m.swap->0, snap.swap_total)]
    } else {
        Seq::empty()
    }) + (if m.cpu is Some {
        seq![interval_cpu_line(m.cpu->0)]
    } else {
        Seq::empty()
    }) + (if m.cpu_average is Some {
        seq![interval_cpu_average_line(m.cpu_average->0)]
    } else {
        Seq::empty()
    }) + (if m.system_uptime is Some {
        seq![interval_uptime_line(m.system_uptime->0)]
    } else {
        Seq::empty()
    }) + (if m.disk is Some {
        seq![interval_disk_line(m.disk->0)]
    } else {
        Seq::empty()
    })
}

/// The whole interval log text: the enabled lines joined by newlines.
pub open spec fn spec_format_interval(m: IntervalMetrics, snap: Snapshot) -> Seq<char> {
    join_lines(spec_interval_lines(m, snap))
}

fn interval_ram_line_exec(used: u64, total: u64) -> (s: String)
    ensures
        s@ == interval_ram_line(used, total),
{
    let mut s = String::from_str("Used RAM: ");
    let used_mb = u64_to_string(used / 1000);
    s.append(used_mb.as_str());
    s.append(" MB out of ");
    let total_mb = u64_to_string(total / 1000);
    s.append(total_mb.as_str());
    s.append(" MB");
    s
}

fn interval_swap_line_exec(used: u64, total: u64) -> (s: String)
    ensures
        s@ == interval_swap_line(used, total),
{
    let mut s = String::from_str("Used Swap: ");
    let used_mb = u64_to_string(used / 1000);
    s.append(used_mb.as_str());
    s.append(" MB out of ");
    let total_mb = u64_to_string(total / 1000);
    s.append(total_mb.as_str());
    s.append(" MB");
    s
}

fn interval_cpu_line_exec(bp: u32) -> (s: String)
    ensures
        s@ == interval_cpu_line(bp),
{
    let mut s = String::from_str("Used CPU: ");
    let pct = percent_to_string(bp as u64);
    s.append(pct.as_str());
    s.append("%");
    s
}

fn interval_cpu_average_line_exec(avg: (u64, u64, u64)) -> (s: String)
    ensures
        s@ == interval_cpu_average_line(avg),
{
    let mut s = String::from_str("CPU Average: 1 minute - ");
    let one = percent_to_string(avg.0);
    s.append(one.as_str());
    s.append("%, 5 minutes - ");
    let five = percent_to_string(avg.1);
    s.append(five.as_str());
    s.append("%, 15 minutes - ");
    let fifteen = percent_to_string(avg.2);
    s.append(fifteen.as_str());
    s.append("%");
    s
}

fn interval_uptime_line_exec(uptime: u64) -> (s: String)
    ensures
        s@ == interval_uptime_line(uptime),
{
    let mut s = String::from_str("System Uptime: ");
    let minutes = u64_to_string(uptime / 60);
    s.append(minutes.as_str());
    s.append(" minutes");
    s
}

fn interval_disk_line_exec(disk_mb: u64) -> (s: String)
    ensures
        s@ == interval_disk_line(disk_mb),
{
    let mut s = String::from_str("Used Disk Space: ");
    let mb = u64_to_string(disk_mb);
    s.append(mb.as_str());
    s.append(" MB");
    s
}

/// Renders an interval report as the log file's text: one line per enabled
/// slot, nothing for the disabled ones.
pub fn format_interval_metrics_text(metrics: &IntervalMetrics, snapshot: &Snapshot) -> (r: String)
    ensures
        r@ == spec_format_interval(*metrics, *snapshot),
{
    let ghost m = *metrics;
    let ghost snap = *snapshot;
    let mut lines: Vec<String> = Vec::new();
    if let Some(ram) = metrics.ram {
        lines.push(interval_ram_line_exec(ram, snapshot.ram_total));
    }
    if let Some(swap) = metrics.swap {
        lines.push(interval_swap_line_exec(swap, snapshot.swap_total));
    }
    if let Some(cpu) = metrics.cpu {
        lines.push(interval_cpu_line_exec(cpu));
    }
    if let Some(avg) = metrics.cpu_average {
        lines.push(interval_cpu_average_line_exec(avg));
    }
    if let Some(uptime) = metrics.system_uptime {
        lines.push(interval_uptime_line_exec(uptime));
    }
    if let Some(disk) = metrics.disk {
        lines.push(interval_disk_line_exec(disk));
    }
    proof {
        assert(lines@.map_values(|l: String| l@) =~= spec_interval_lines(m, snap));
    }
    join_lines_exec(&lines)
}

/// The log line one warning renders as; memory and swap quote the host's
/// totals in whole megabytes.
pub open spec fn warn_line(w: Warn, snap: Snapshot) -> Seq<char> {
    match w {
        Warn::HighCPU(bp) => "High CPU Usage: "@ + percent_digits(bp as nat) + "%"@,
        Warn::HighRAM(bp) => "High RAM Usage: "@ + percent_digits(bp as nat) + "% out of "@
            + dec_digits((snap.ram_total / 1000) as nat) + " MB"@,
        Warn::HighDisk(bp) => "High Disk Space Usage: "@ + percent_digits(bp as nat) + "%"@,
        Warn::HighSwap(bp) => "High Swap Usage: "@ + percent_digits(bp as nat) + "% out of "@
            + dec_digits((snap.swap_total / 1000) as nat) + " MB"@,
    }
}

/// The whole warn log text: one line per warning, in batch order.
pub open spec fn spec_format_warn(ws: Seq<Warn>, snap: Snapshot) -> Seq<char> {
    join_lines(ws.map_values(|w: Warn| warn_line(w, snap)))
}

fn warn_line_exec(w: &Warn, snapshot: &Snapshot) -> (s: String)
    ensures
        s@ == warn_line(*w, *snapshot),
{
    match w {
        Warn::HighCPU(bp) => {
            let mut s = String::from_str("High CPU Usage: ");
            let pct = percent_to_string(*bp);
            s.append(pct.as_str());
            s.append("%");
            s
        },
        Warn::HighRAM(bp) => {
            let mut s = String::from_str("High RAM Usage: ");
            let pct = percent_to_string(*bp);
            s.append(pct.as_str());
            s.append("% out of ");
            let total_mb = u64_to_string(snapshot.ram_total / 1000);
            s.append(total_mb.as_str());
            s.append(" MB");
            s
        },
        Warn::HighDisk(bp) => {
            let mut s = String::from_str("High Disk Space Usage: ");
            let pct = percent_to_string(*bp);
            s.append(pct.as_str());
            s.append("%");
            s
        },
        Warn::HighSwap(bp) => {
            let mut s = String::from_str("High Swap Usage: ");
            let pct = percent_to_string(*bp);
            s.append(pct.as_str());
            s.append("% out of ");
            let total_mb = u64_to_string(snapshot.swap_total / 1000);
            s.append(total_mb.as_str());
            s.append(" MB");
            s
        },
    }
}

/// Renders the latest warning batch as the log file's text, one line per
/// warning.
pub fn format_warn_metrics_text(metrics: &WarnMetrics, snapshot: &Snapshot) -> (r: String)
    ensures
        r@ == spec_format_warn(metrics.warnings@, *snapshot),
{
    let ghost snap = *snapshot;
    let mut lines: Vec<String> = Vec::new();
    let mut i: usize = 0;
    while i < metrics.warnings.len()
        invariant
            0 <= i <= metrics.warnings@.len(),
            snap == *snapshot,
            lines@.len() == i,
            forall|j: int| 0 <= j < i ==> (#[trigger] lines@[j])@ == warn_line(
                metrics.warnings@[j],
                snap,
            ),
        decreases metrics.warnings@.len() - i,
    {
        lines.push(warn_line_exec(&metrics.warnings[i], snapshot));
        i = i + 1;
    }
    proof {
        let g = |l: String| l@;
        let f = |w: Warn| warn_line(w, snap);
        assert forall|j: int| 0 <= j < lines@.len() implies lines@.map_values(g)[j] == metrics
            .warnings@.map_values(f)[j] by {
            assert(lines@.map_values(g)[j] == g(lines@[j]));
            assert(metrics.warnings@.map_values(f)[j] == f(metrics.warnings@[j]));
        }
        assert(lines@.map_values(g) =~= metrics.warnings@.map_values(f));
    }
    join_lines_exec(&lines)
}

/// One interval-mode cycle for the file sink: refresh the enabled slots and
/// render the log text. The text is produced every cycle, whatever it holds.
pub fn log_interval_cycle(metrics: &mut IntervalMetrics, snapshot: &Snapshot) -> (out: String)
    requires
        snapshot.wf(),
    ensures
        *final(metrics) == spec_update_metrics(*old(metrics), *snapshot),
        out@ == spec_format_interval(*final(metrics), *snapshot),
{
    metrics.update_metrics(snapshot);
    format_interval_metrics_text(metrics, snapshot)
}

/// One warn-mode cycle for the file sink: recompute the alert batch and
/// render it, or suppress the cycle entirely when the batch is empty.
pub fn log_warn_cycle(metrics: &mut WarnMetrics, snapshot: &Snapshot) -> (out: Option<String>)
    requires
        snapshot.wf(),
    ensures
        final(metrics).ram == old(metrics).ram,
        final(metrics).cpu == old(metrics).cpu,
        final(metrics).disk == old(metrics).disk,
        final(metrics).swap == old(metrics).swap,
        final(metrics).warnings@ == expected_warnings(
            old(metrics).ram,
            old(metrics).cpu,
            old(metrics).disk,
            old(metrics).swap,
            *snapshot,
        ),
        out is Some <==> final(metrics).warnings@.len() > 0,
        match out {
            Some(text) => text@ == spec_format_warn(final(metrics).warnings@, *snapshot),
            None => true,
        },
{
    metrics.update_warns(snapshot);
    if metrics.warnings.len() > 0 {
        Some(format_warn_metrics_text(metrics, snapshot))
    } else {
        None
    }
}

} // verus!
