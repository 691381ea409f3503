//! JSON serialization of each metric family. A spec function per family
//! gives the exact response text over the ghost model; an exec function per
//! family produces that text. Object keys appear in ascending order, and the
//! envelope differs per family exactly as the service's clients expect it:
//! a bare array of objects for disks, memory, networks, users, load average
//! and OS identity (the scalar families as a single object inside an array),
//! and a named array under a key for CPUs and temperatures.

use vstd::prelude::*;

use crate::model::CpuEntry;
use crate::model::DiskEntry;
use crate::model::DiskModel;
use crate::model::LoadPoints;
use crate::model::MemoryCounters;
use crate::model::MetricFamily;
use crate::model::NetworkEntry;
use crate::model::NetworkModel;
use crate::model::OsIdentity;
use crate::model::OsModel;
use crate::model::SnapshotModel;
use crate::model::TemperatureEntry;
use crate::model::TemperatureModel;
use crate::model::UserEntry;
use crate::model::UserModel;
use crate::text::chars_to_string;
use crate::text::dec_text;
use crate::text::hundredths_text;
use crate::text::join_comma;
use crate::text::lemma_join_comma_push;
use crate::text::push_dec;
use crate::text::push_hundredths;
use crate::text::push_lit;
use crate::text::push_quoted;
use crate::text::push_signed_hundredths;
use crate::text::quoted;
use crate::text::signed_hundredths_text;

verus! {

/// One CPU as a JSON object; `i` is the CPU's position in the list.
pub open spec fn cpu_item(e: CpuEntry, i: int) -> Seq<char> {
    "{\"cpu_num\":\"cpu"@ + dec_text(i as nat) + "\",\"frequency\":"@ + dec_text(
        e.frequency as nat,
    ) + ",\"percent\":"@ + hundredths_text(e.percent_hundredths as nat) + "}"@
}

/// The CPU objects in list order.
pub open spec fn cpu_items(s: Seq<CpuEntry>) -> Seq<Seq<char>> {
    Seq::new(s.len(), |i: int| cpu_item(s[i], i))
}

/// The whole `/cpus` response body.
pub open spec fn cpus_json(s: Seq<CpuEntry>) -> Seq<char> {
    "{\"cpu_info\":["@ + join_comma(cpu_items(s)) + "]}"@
}

/// One disk as a JSON object.
pub open spec fn disk_item(d: DiskModel) -> Seq<char> {
    "{\"available_space\":"@ + dec_text(d.available_space as nat) + ",\"device_name\":"@ + quoted(
        d.device_name,
    ) + ",\"file_system\":"@ + quoted(d.file_system) + ",\"total_space\":"@ + dec_text(
        d.total_space as nat,
    ) + "}"@
}

/// The whole `/disks` response body.
pub open spec fn disks_json(s: Seq<DiskModel>) -> Seq<char> {
    "["@ + join_comma(s.map_values(|d: DiskModel| disk_item(d))) + "]"@
}

/// The whole `/memory` response body: one object inside an array.
pub open spec fn memory_json(m: MemoryCounters) -> Seq<char> {
    "[{\"available_memory\":"@ + dec_text(m.available_memory as nat) + ",\"free_memory\":"@
        + dec_text(m.free_memory as nat) + ",\"free_swap\":"@ + dec_text(m.free_swap as nat)
        + ",\"total_memory\":"@ + dec_text(m.total_memory as nat) + ",\"total_swap\":"@ + dec_text(
        m.total_swap as nat,
    ) + ",\"used_memory\":"@ + dec_text(m.used_memory as nat) + ",\"used_swap\":"@ + dec_text(
        m.used_swap as nat,
    ) + "}]"@
}

/// One network interface as a JSON object.
pub open spec fn network_item(n: NetworkModel) -> Seq<char> {
    "{\"data_received\":"@ + dec_text(n.data_received as nat) + ",\"data_transmitted\":"@
        + dec_text(n.data_transmitted as nat) + ",\"interface_name\":"@ + quoted(n.interface_name)
        + "}"@
}

/// The whole `/networks` response body.
pub open spec fn networks_json(s: Seq<NetworkModel>) -> Seq<char> {
    "["@ + join_comma(s.map_values(|n: NetworkModel| network_item(n))) + "]"@
}

/// One thermal sensor as a JSON object.
pub open spec fn temperature_item(t: TemperatureModel) -> Seq<char> {
    "{\"name\":"@ + quoted(t.name) + ",\"temperature\":"@ + signed_hundredths_text(
        t.temp_hundredths as int,
    ) + "}"@
}

/// The whole `/temperatures` response body.
pub open spec fn temperatures_json(s: Seq<TemperatureModel>) -> Seq<char> {
    "{\"temperature_info\":["@ + join_comma(s.map_values(|t: TemperatureModel| temperature_item(t)))
        + "]}"@
}

/// One user as a JSON object, its groups as an array of strings.
pub open spec fn user_item(u: UserModel) -> Seq<char> {
    "{\"group\":["@ + join_comma(u.groups.map_values(|g: Seq<char>| quoted(g))) + "],\"name\":"@
        + quoted(u.name) + "}"@
}

/// The whole `/users` response body.
pub open spec fn users_json(s: Seq<UserModel>) -> Seq<char> {
    "["@ + join_comma(s.map_values(|u: UserModel| user_item(u))) + "]"@
}

/// The whole `/load_average` response body: one object inside an array.
pub open spec fn load_average_json(l: LoadPoints) -> Seq<char> {
    "[{\"fifteen\":"@ + hundredths_text(l.fifteen as nat) + ",\"five\":"@ + hundredths_text(
        l.five as nat,
    ) + ",\"one\":"@ + hundredths_text(l.one as nat) + "}]"@
}

/// The whole `/boot_time` response body: one object.
pub open spec fn boot_time_json(b: u64) -> Seq<char> {
    "{\"boot_time\":"@ + dec_text(b as nat) + "}"@
}

/// The whole `/sysinfo` response body: one object inside an array.
pub open spec fn os_info_json(o: OsModel) -> Seq<char> {
    "[{\"distribution_id\":"@ + quoted(o.distribution_id) + ",\"host_name\":"@ + quoted(
        o.host_name,
    ) + ",\"kernel_version\":"@ + quoted(o.kernel_version) + ",\"long_os_version\":"@ + quoted(
        o.long_os_version,
    ) + ",\"os_version\":"@ + quoted(o.os_version) + "}]"@
}

/// The response body a family is served from a snapshot.
pub open spec fn body_for(fam: MetricFamily, m: SnapshotModel) -> Seq<char> {
    match fam {
        MetricFamily::Cpus => cpus_json(m.cpus),
        MetricFamily::Disks => disks_json(m.disks),
        MetricFamily::Memory => memory_json(m.memory),
        MetricFamily::Networks => networks_json(m.networks),
        MetricFamily::Temperatures => temperatures_json(m.temperatures),
        MetricFamily::Users => users_json(m.users),
        MetricFamily::LoadAverage => load_average_json(m.load_average),
        MetricFamily::BootTime => boot_time_json(m.boot_time),
        MetricFamily::OsInfo => os_info_json(m.os_info),
    }
}

/// Serializes the CPU list.
pub fn render_cpus(entries: &Vec<CpuEntry>) -> (r: String)
    ensures
        r@ == cpus_json(entries@),
{
    let mut out: Vec<char> = Vec::new();
    push_lit(&mut out, "{\"cpu_info\":[");
    assert(out@ =~= "{\"cpu_info\":["@ + join_comma(cpu_items(entries@.take(0))));
    let mut i: usize = 0;
    while i < entries.len()
        invariant
            i <= entries@.len(),
            out@ == "{\"cpu_info\":["@ + join_comma(cpu_items(entries@.take(i as int))),
        decreases entries@.len() - i,
    {
        if i > 0 {
            out.push(',');
        }
        push_lit(&mut out, "{\"cpu_num\":\"cpu");
        push_dec(&mut out, i as u64);
        push_lit(&mut out, "\",\"frequency\":");
        push_dec(&mut out, entries[i].frequency);
        push_lit(&mut out, ",\"percent\":");
        push_hundredths(&mut out, entries[i].percent_hundredths);
        push_lit(&mut out, "}");
        proof {
            let pre = cpu_items(entries@.take(i as int));
            let post = cpu_items(entries@.take(i + 1 as int));
            assert(post =~= pre.push(cpu_item(entries@[i as int], i as int)));
            lemma_join_comma_push(pre, cpu_item(entries@[i as int], i as int));
            assert(out@ =~= "{\"cpu_info\":["@ + join_comma(post));
        }
        i += 1;
    }
    push_lit(&mut out, "]}");
    proof {
        assert(entries@.take(entries@.len() as int) =~= entries@);
        assert(out@ =~= cpus_json(entries@));
    }
    chars_to_string(out)
}

/// Serializes the disk list.
pub fn render_disks(entries: &Vec<DiskEntry>) -> (r: String)
    ensures
        r@ == disks_json(entries@.map_values(|d: DiskEntry| d@)),
{
    let ghost models = entries@.map_values(|d: DiskEntry| d@);
    let ghost items = models.map_values(|d: DiskModel| disk_item(d));
    let mut out: Vec<char> = Vec::new();
    push_lit(&mut out, "[");
    assert(out@ =~= "["@ + join_comma(items.take(0)));
    let mut i: usize = 0;
    while i < entries.len()
        invariant
            i <= entries@.len(),
            models == entries@.map_values(|d: DiskEntry| d@),
            items == models.map_values(|d: DiskModel| disk_item(d)),
            out@ == "["@ + join_comma(items.take(i as int)),
        decreases entries@.len() - i,
    {
        if i > 0 {
            out.push(',');
        }
        push_lit(&mut out, "{\"available_space\":");
        push_dec(&mut out, entries[i].available_space);
        push_lit(&mut out, ",\"device_name\":");
        push_quoted(&mut out, entries[i].device_name.as_str());
        push_lit(&mut out, ",\"file_system\":");
        push_quoted(&mut out, entries[i].file_system.as_str());
        push_lit(&mut out, ",\"total_space\":");
        push_dec(&mut out, entries[i].total_space);
        push_lit(&mut out, "}");
        proof {
            assert(items.take(i + 1 as int) =~= items.take(i as int).push(
                disk_item(entries@[i as int]@),
            ));
            lemma_join_comma_push(items.take(i as int), disk_item(entries@[i as int]@));
            assert(out@ =~= "["@ + join_comma(items.take(i + 1 as int)));
        }
        i += 1;
    }
    push_lit(&mut out, "]");
    proof {
        assert(items.take(items.len() as int) =~= items);
        assert(out@ =~= disks_json(models));
    }
    chars_to_string(out)
}

/// Serializes the memory counters.
pub fn render_memory(m: &MemoryCounters) -> (r: String)
    ensures
        r@ == memory_json(*m),
{
    let mut out: Vec<char> = Vec::new();
    push_lit(&mut out, "[{\"available_memory\":");
    push_dec(&mut out, m.available_memory);
    push_lit(&mut out, ",\"free_memory\":");
    push_dec(&mut out, m.free_memory);
    push_lit(&mut out, ",\"free_swap\":");
    push_dec(&mut out, m.free_swap);
    push_lit(&mut out, ",\"total_memory\":");
    push_dec(&mut out, m.total_memory);
    push_lit(&mut out, ",\"total_swap\":");
    push_dec(&mut out, m.total_swap);
    push_lit(&mut out, ",\"used_memory\":");
    push_dec(&mut out, m.used_memory);
    push_lit(&mut out, ",\"used_swap\":");
    push_dec(&mut out, m.used_swap);
    push_lit(&mut out, "}]");
    assert(out@ =~= memory_json(*m));
    chars_to_string(out)
}

/// Serializes the network interface list.
pub fn render_networks(entries: &Vec<NetworkEntry>) -> (r: String)
    ensures
        r@ == networks_json(entries@.map_values(|n: NetworkEntry| n@)),
{
    let ghost models = entries@.map_values(|n: NetworkEntry| n@);
    let ghost items = models.map_values(|n: NetworkModel| network_item(n));
    let mut out: Vec<char> = Vec::new();
    push_lit(&mut out, "[");
    assert(out@ =~= "["@ + join_comma(items.take(0)));
    let mut i: usize = 0;
    while i < entries.len()
        invariant
            i <= entries@.len(),
            models == entries@.map_values(|n: NetworkEntry| n@),
            items == models.map_values(|n: NetworkModel| network_item(n)),
            out@ == "["@ + join_comma(items.take(i as int)),
        decreases entries@.len() - i,
    {
        if i > 0 {
            out.push(',');
        }
        push_lit(&mut out, "{\"data_received\":");
        push_dec(&mut out, entries[i].data_received);
        push_lit(&mut out, ",\"data_transmitted\":");
        push_dec(&mut out, entries[i].data_transmitted);
        push_lit(&mut out, ",\"interface_name\":");
        push_quoted(&mut out, entries[i].interface_name.as_str());
        push_lit(&mut out, "}");
        proof {
            assert(items.take(i + 1 as int) =~= items.take(i as int).push(
                network_item(entries@[i as int]@),
            ));
            lemma_join_comma_push(items.take(i as int), network_item(entries@[i as int]@));
            assert(out@ =~= "["@ + join_comma(items.take(i + 1 as int)));
        }
        i += 1;
    }
    push_lit(&mut out, "]");
    proof {
        assert(items.take(items.len() as int) =~= items);
        assert(out@ =~= networks_json(models));
    }
    chars_to_string(out)
}

/// Serializes a temperature list whose readings all carry a label and are
/// renderable.
pub fn render_temperatures(entries: &Vec<TemperatureEntry>) -> (r: String)
    requires
        forall|i: int|
            0 <= i < entries@.len() ==> (#[trigger] entries@[i])@.wf(),
    ensures
        r@ == temperatures_json(entries@.map_values(|t: TemperatureEntry| t@)),
{
    let ghost models = entries@.map_values(|t: TemperatureEntry| t@);
    let ghost items = models.map_values(|t: TemperatureModel| temperature_item(t));
    let mut out: Vec<char> = Vec::new();
    push_lit(&mut out, "{\"temperature_info\":[");
    assert(out@ =~= "{\"temperature_info\":["@ + join_comma(items.take(0)));
    let mut i: usize = 0;
    while i < entries.len()
        invariant
            i <= entries@.len(),
            forall|j: int| 0 <= j < entries@.len() ==> (#[trigger] entries@[j])@.wf(),
            models == entries@.map_values(|t: TemperatureEntry| t@),
            items == models.map_values(|t: TemperatureModel| temperature_item(t)),
            out@ == "{\"temperature_info\":["@ + join_comma(items.take(i as int)),
        decreases entries@.len() - i,
    {
        if i > 0 {
            out.push(',');
        }
        push_lit(&mut out, "{\"name\":");
        push_quoted(&mut out, entries[i].name.as_str());
        push_lit(&mut out, ",\"temperature\":");
        push_signed_hundredths(&mut out, entries[i].temp_hundredths);
        push_lit(&mut out, "}");
        proof {
            assert(items.take(i + 1 as int) =~= items.take(i as int).push(
                temperature_item(entries@[i as int]@),
            ));
            lemma_join_comma_push(items.take(i as int), temperature_item(entries@[i as int]@));
            assert(out@ =~= "{\"temperature_info\":["@ + join_comma(items.take(i + 1 as int)));
        }
        i += 1;
    }
    push_lit(&mut out, "]}");
    proof {
        assert(items.take(items.len() as int) =~= items);
        assert(out@ =~= temperatures_json(models));
    }
    chars_to_string(out)
}

/// Serializes the user list.
pub fn render_users(entries: &Vec<UserEntry>) -> (r: String)
    ensures
        r@ == users_json(entries@.map_values(|u: UserEntry| u@)),
{
    let ghost models = entries@.map_values(|u: UserEntry| u@);
    let ghost items = models.map_values(|u: UserModel| user_item(u));
    let mut out: Vec<char> = Vec::new();
    push_lit(&mut out, "[");
    assert(out@ =~= "["@ + join_comma(items.take(0)));
    let mut i: usize = 0;
    while i < entries.len()
        invariant
            i <= entries@.len(),
            models == entries@.map_values(|u: UserEntry| u@),
            items == models.map_values(|u: UserModel| user_item(u)),
            out@ == "["@ + join_comma(items.take(i as int)),
        decreases entries@.len() - i,
    {
        if i > 0 {
            out.push(',');
        }
        push_user_item(&mut out, &entries[i]);
        proof {
            assert(items.take(i + 1 as int) =~= items.take(i as int).push(
                user_item(entries@[i as int]@),
            ));
            lemma_join_comma_push(items.take(i as int), user_item(entries@[i as int]@));
            assert(out@ =~= "["@ + join_comma(items.take(i + 1 as int)));
        }
        i += 1;
    }
    push_lit(&mut out, "]");
    proof {
        assert(items.take(items.len() as int) =~= items);
        assert(out@ =~= users_json(models));
    }
    chars_to_string(out)
}

fn push_user_item(out: &mut Vec<char>, u: &UserEntry)
    ensures
        final(out)@ == old(out)@ + user_item(u@),
{
    let ghost group_items = u@.groups.map_values(|g: Seq<char>| quoted(g));
    push_lit(out, "{\"group\":[");
    assert(out@ =~= old(out)@ + "{\"group\":["@ + join_comma(group_items.take(0)));
    let mut i: usize = 0;
    while i < u.groups.len()
        invariant
            i <= u.groups@.len(),
            group_items == u@.groups.map_values(|g: Seq<char>| quoted(g)),
            group_items.len() == u.groups@.len(),
            out@ == old(out)@ + "{\"group\":["@ + join_comma(group_items.take(i as int)),
        decreases u.groups@.len() - i,
    {
        if i > 0 {
            out.push(',');
        }
        push_quoted(out, u.groups[i].as_str());
        proof {
            assert(group_items.take(i + 1 as int) =~= group_items.take(i as int).push(
                quoted(u.groups@[i as int]@),
            ));
            lemma_join_comma_push(group_items.take(i as int), quoted(u.groups@[i as int]@));
            assert(out@ =~= old(out)@ + "{\"group\":["@ + join_comma(
                group_items.take(i + 1 as int),
            ));
        }
        i += 1;
    }
    push_lit(out, "],\"name\":");
    push_quoted(out, u.name.as_str());
    push_lit(out, "}");
    proof {
        assert(group_items.take(group_items.len() as int) =~= group_items);
        assert(out@ =~= old(out)@ + user_item(u@));
    }
}

/// Serializes the load averages.
pub fn render_load_average(l: &LoadPoints) -> (r: String)
    ensures
        r@ == load_average_json(*l),
{
    let mut out: Vec<char> = Vec::new();
    push_lit(&mut out, "[{\"fifteen\":");
    push_hundredths(&mut out, l.fifteen);
    push_lit(&mut out, ",\"five\":");
    push_hundredths(&mut out, l.five);
    push_lit(&mut out, ",\"one\":");
    push_hundredths(&mut out, l.one);
    push_lit(&mut out, "}]");
    assert(out@ =~= load_average_json(*l));
    chars_to_string(out)
}

/// Serializes the boot timestamp.
pub fn render_boot_time(b: u64) -> (r: String)
    ensures
        r@ == boot_time_json(b),
{
    let mut out: Vec<char> = Vec::new();
    push_lit(&mut out, "{\"boot_time\":");
    push_dec(&mut out, b);
    push_lit(&mut out, "}");
    assert(out@ =~= boot_time_json(b));
    chars_to_string(out)
}

/// Serializes the host's identity strings.
pub fn render_os_info(o: &OsIdentity) -> (r: String)
    ensures
        r@ == os_info_json(o@),
{
    let mut out: Vec<char> = Vec::new();
    push_lit(&mut out, "[{\"distribution_id\":");
    push_quoted(&mut out, o.distribution_id.as_str());
    push_lit(&mut out, ",\"host_name\":");
    push_quoted(&mut out, o.host_name.as_str());
    push_lit(&mut out, ",\"kernel_version\":");
    push_quoted(&mut out, o.kernel_version.as_str());
    push_lit(&mut out, ",\"long_os_version\":");
    push_quoted(&mut out, o.long_os_version.as_str());
    push_lit(&mut out, ",\"os_version\":");
    push_quoted(&mut out, o.os_version.as_str());
    push_lit(&mut out, "}]");
    assert(out@ =~= os_info_json(o@));
    chars_to_string(out)
}

} // verus!
