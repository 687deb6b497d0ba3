//! The chat sink's pure side: credentials and the structured message.
//!
//! A cycle's chat output is a title, an RGB colour tag and a list of
//! labelled fields; turning that into an actual network message happens
//! outside the library.

use vstd::prelude::*;
use crate::metrics::Snapshot;
use crate::metrics::interval::{IntervalMetrics, spec_update_metrics};
use crate::metrics::warn::{Warn, WarnMetrics, expected_warnings};
use crate::parse_config::{Config, LogCredentials};
use crate::text::{dec_digits, percent_digits, percent_to_string, u64_to_string};
use vstd::string::{StrSliceExecFns, StringExecFns};

verus! {

/// Takes the chat credentials out of a discord-sink config.
pub fn parse_token_and_channel(config: Config) -> (r: (String, u64))
    requires
        config.log_type is Discord,
        config.log_credentials is DiscordLog,
    ensures
        match config.log_credentials {
            LogCredentials::DiscordLog { key, channel } => r.0@ == key@ && r.1 == channel,
            _ => false,
        },
{
    match config.log_credentials {
        LogCredentials::DiscordLog { key, channel } => (key, channel),
        _ => {
            proof {
                assert(false);
            }
            (String::new(), 0)
        },
    }
}

/// One labelled field of a chat message.
#[derive(Debug, Clone, PartialEq)]
pub struct EmbedField {
    /// The field's heading.
    pub label: String,
    /// The rendered figure.
    pub value: String,
    /// Whether the chat client may lay the field out inline.
    pub inline: bool,
}

/// A field reduced to its mathematical content.
pub open spec fn field_view(f: EmbedField) -> (Seq<char>, Seq<char>, bool) {
    (f.label@, f.value@, f.inline)
}

/// One cycle's structured chat message.
#[derive(Debug, PartialEq)]
pub struct ChatMessage {
    /// The message heading.
    pub title: String,
    /// The severity colour, as RGB.
    pub color: (u8, u8, u8),
    /// One field per reported metric, in the fixed order.
    pub fields: Vec<EmbedField>,
}

/// A used/total memory figure in whole megabytes.
pub open spec fn mem_pair_text(used: u64, total: u64) -> Seq<char> {
    dec_digits((used / 1000) as nat) + " MB out of "@ + dec_digits((total / 1000) as nat) + " MB"@
}

/// A percentage with the percent sign.
pub open spec fn percent_text(bp: nat) -> Seq<char> {
    percent_digits(bp) + "%"@
}

/// The load-average field's text.
pub open spec fn average_load_text(avg: (u64, u64, u64)) -> Seq<char> {
    "One minute: "@ + percent_digits(avg.0 as nat) + "%, Five minutes: "@ + percent_digits(
        avg.1 as nat,
    ) + "%, Fiveteen minutes: "@ + percent_digits(avg.2 as nat) + "%"@
}

/// The fields of an interval-mode chat message, one per enabled slot, in
/// the fixed order RAM, swap, CPU, uptime, disk, load average.
pub open spec fn spec_interval_fields(m: IntervalMetrics, snap: Snapshot) -> Seq<
    (Seq<char>, Seq<char>, bool)> {
    (if m.ram is Some {
        seq![("Used RAM"@, mem_pair_text(m.ram->0, snap.ram_total), false)]
    } else {
        Seq::empty()
    }) + (if m.swap is Some {
        seq![("Used Swap"@, mem_pair_text(m.swap->0, snap.swap_total), false)]
    } else {
        Seq::empty()
    }) + (if m.cpu is Some {
        seq![("Used CPU"@, percent_text(m.cpu->0 as nat), false)]
    } else {
        Seq::empty()
    }) + (if m.system_uptime is Some {
        seq![("System Uptime"@, dec_digits((m.system_uptime->0 / 60) as nat) + " minutes"@, false)]
    } else {
        Seq::empty()
    }) + (if m.disk is Some {
        seq![("Used System Space:"@, dec_digits(m.disk->0 as nat) + " MB"@, false)]
    } else {
        Seq::empty()
    }) + (if m.cpu_average is Some {
        seq![("Average Load"@, average_load_text(m.cpu_average->0), false)]
    } else {
        Seq::empty()
    })
}

fn make_field(label: &str, value: String) -> (f: EmbedField)
    ensures
        field_view(f) == (label@, value@, false),
{
    EmbedField { label: String::from_str(label), value, inline: false }
}

fn mem_pair_exec(used: u64, total: u64) -> (s: String)
    ensures
        s@ == mem_pair_text(used, total),
{
    let mut s = u64_to_string(used / 1000);
    s.append(" MB out of ");
    let total_mb = u64_to_string(total / 1000);
    s.append(total_mb.as_str());
    s.append(" MB");
    s
}

fn percent_text_exec(bp: u64) -> (s: String)
    ensures
        s@ == percent_text(bp as nat),
{
    let mut s = percent_to_string(bp);
    s.append("%");
    s
}

fn average_load_exec(avg: (u64, u64, u64)) -> (s: String)
    ensures
        s@ == average_load_text(avg),
{
    let mut s = String::from_str("One minute: ");
    let one = percent_to_string(avg.0);
    s.append(one.as_str());
    s.append("%, Five minutes: ");
    let five = percent_to_string(avg.1);
    s.append(five.as_str());
    s.append("%, Fiveteen minutes: ");
    let fifteen = percent_to_string(avg.2);
    s.append(fifteen.as_str());
    s.append("%");
    s
}

/// Builds the chat fields for an interval report: one field per enabled
/// slot, nothing for the disabled ones.
pub fn load_interval_embed(metrics: &IntervalMetrics, snapshot: &Snapshot) -> (fields: Vec<
    EmbedField>)
    ensures
        fields@.map_values(|f: EmbedField| field_view(f)) == spec_interval_fields(
            *metrics,
            *snapshot,
        ),
{
    let ghost m = *metrics;
    let ghost snap = *snapshot;
    let mut fields: Vec<EmbedField> = Vec::new();
    if let Some(ram) = metrics.ram {
        fields.push(make_field("Used RAM", mem_pair_exec(ram, snapshot.ram_total)));
    }
    if let Some(swap) = metrics.swap {
        fields.push(make_field("Used Swap", mem_pair_exec(swap, snapshot.swap_total)));
    }
    if let Some(cpu) = metrics.cpu {
        fields.push(make_field("Used CPU", percent_text_exec(cpu as u64)));
    }
    if let Some(uptime) = metrics.system_uptime {
        let mut v = u64_to_string(uptime / 60);
        v.append(" minutes");
        fields.push(make_field("System Uptime", v));
    }
    if let Some(disk) = metrics.disk {
        let mut v = u64_to_string(disk);
        v.append(" MB");
        fields.push(make_field("Used System Space:", v));
    }
    if let Some(avg) = metrics.cpu_average {
        fields.push(make_field("Average Load", average_load_exec(avg)));
    }
    proof {
        assert(fields@.map_values(|f: EmbedField| field_view(f)) =~= spec_interval_fields(
            m,
            snap,
        ));
    }
    fields
}

/// The chat field one warning renders as.
pub open spec fn warn_field(w: Warn, snap: Snapshot) -> (Seq<char>, Seq<char>, bool) {
    match w {
        Warn::HighCPU(bp) => ("CPU Limit Surpassed"@, percent_text(bp as nat), false),
        Warn::HighRAM(bp) => (
            "RAM Limit Surpassed"@,
            percent_digits(bp as nat) + "% out of "@ + dec_digits((snap.ram_total / 1000) as nat)
                + " MB"@,
            false,
        ),
        Warn::HighDisk(bp) => ("Disk Limit Surpassed"@, percent_text(bp as nat), false),
        Warn::HighSwap(bp) => (
            "Swap Limit Surpassed"@,
            percent_digits(bp as nat) + "% out of "@ + dec_digits((snap.swap_total / 1000) as nat)
                + " MB"@,
            false,
        ),
    }
}

fn warn_field_exec(w: &Warn, snapshot: &Snapshot) -> (f: EmbedField)
    ensures
        field_view(f) == warn_field(*w, *snapshot),
{
    match w {
        Warn::HighCPU(bp) => make_field("CPU Limit Surpassed", percent_text_exec(*bp)),
        Warn::HighRAM(bp) => {
            let mut v = percent_to_string(*bp);
            v.append("% out of ");
            let total_mb = u64_to_string(snapshot.ram_total / 1000);
            v.append(total_mb.as_str());
            v.append(" MB");
            make_field("RAM Limit Surpassed", v)
        },
        Warn::HighDisk(bp) => make_field("Disk Limit Surpassed", percent_text_exec(*bp)),
        Warn::HighSwap(bp) => {
            let mut v = percent_to_string(*bp);
            v.append("% out of ");
            let total_mb = u64_to_string(snapshot.swap_total / 1000);
            v.append(total_mb.as_str());
            v.append(" MB");
            make_field("Swap Limit Surpassed", v)
        },
    }
}

/// Builds the chat fields for a warning batch, one field per warning, in
/// batch order.
pub fn load_warn_embed(metrics: &WarnMetrics, snapshot: &Snapshot) -> (fields: Vec<EmbedField>)
    ensures
        fields@.map_values(|f: EmbedField| field_view(f)) == metrics.warnings@.map_values(
            |w: Warn| warn_field(w, *snapshot),
        ),
{
    let ghost snap = *snapshot;
    let mut fields: Vec<EmbedField> = Vec::new();
    let mut i: usize = 0;
    while i < metrics.warnings.len()
        invariant
            0 <= i <= metrics.warnings@.len(),
            snap == *snapshot,
            fields@.len() == i,
            forall|j: int| 0 <= j < i ==> field_view(#[trigger] fields@[j]) == warn_field(
                metrics.warnings@[j],
                snap,
            ),
        decreases metrics.warnings@.len() - i,
    {
        fields.push(warn_field_exec(&metrics.warnings[i], snapshot));
        i = i + 1;
    }
    proof {
        let g = |f: EmbedField| field_view(f);
        let h = |w: Warn| warn_field(w, snap);
        assert forall|j: int| 0 <= j < fields@.len() implies fields@.map_values(g)[j] == metrics
            .warnings@.map_values(h)[j] by {
            assert(fields@.map_values(g)[j] == g(fields@[j]));
            assert(metrics.warnings@.map_values(h)[j] == h(metrics.warnings@[j]));
        }
        assert(fields@.map_values(g) =~= metrics.warnings@.map_values(h));
    }
    fields
}

/// One interval-mode cycle for the chat sink: refresh the enabled slots and
/// build the message. A message is produced every cycle, whatever it holds.
pub fn send_interval_cycle(metrics: &mut IntervalMetrics, snapshot: &Snapshot) -> (msg:
    ChatMessage)
    requires
        snapshot.wf(),
    ensures
        *final(metrics) == spec_update_metrics(*old(metrics), *snapshot),
        msg.title@ == "Server Interval Metrics"@,
        msg.color == (0u8, 190u8, 219u8),
        msg.fields@.map_values(|f: EmbedField| field_view(f)) == spec_interval_fields(
            *final(metrics),
            *snapshot,
        ),
{
    metrics.update_metrics(snapshot);
    let fields = load_interval_embed(metrics, snapshot);
    ChatMessage { title: String::from_str("Server Interval Metrics"), color: (0, 190, 219), fields }
}

/// One warn-mode cycle for the chat sink: recompute the alert batch and
/// build the message, or suppress the cycle when the batch is empty.
pub fn send_warn_cycle(metrics: &mut WarnMetrics, snapshot: &Snapshot) -> (msg: Option<
    ChatMessage>)
    requires
        snapshot.wf(),
    ensures
        final(metrics).ram == old(metrics).ram,
        final(metrics).cpu == old(metrics).cpu,
        final(metrics).disk == old(metrics).disk,
        final(metrics).swap == old(metrics).swap,
        final(metrics).warnings@ == expected_warnings(
            old(metrics).ram,
            old(metrics).cpu,
            old(metrics).disk,
            old(metrics).swap,
            *snapshot,
        ),
        msg is Some <==> final(metrics).warnings@.len() > 0,
        match msg {
            Some(m) => {
                &&& m.title@ == "Server Warn Metrics"@
                &&& m.color == (197u8, 0u8, 0u8)
                &&& m.fields@.map_values(|f: EmbedField| field_view(f))
                    == final(metrics).warnings@.map_values(|w: Warn| warn_field(w, *snapshot))
            },
            None => true,
        },
{
    metrics.update_warns(snapshot);
    if metrics.warnings.len() < 1 {
        return None;
    }
    let fields = load_warn_embed(metrics, snapshot);
    Some(ChatMessage { title: String::from_str("Server Warn Metrics"), color: (197, 0, 0), fields })
}

} // verus!
