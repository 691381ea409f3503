//! The library-wide laws, each stated over the same spec functions the
//! public contracts use: bounds that every served counter obeys, the frame
//! of a refresh, the absence of torn reads, and the idempotence of a
//! refresh.

use vstd::prelude::*;

use crate::model::CpuEntry;
use crate::model::DiskModel;
use crate::model::FamilyData;
use crate::model::MemoryCounters;
use crate::model::MetricFamily;
use crate::model::SnapshotModel;
use crate::model::TemperatureModel;
use crate::model::apply_refresh;
use crate::model::temp_keep_filter;
use crate::render::body_for;
use crate::store::refreshed_body;
use crate::text::esc_char;
use crate::text::esc_text;

verus! {

/// Memory counters never contradict the total: available memory, used
/// memory, and even free and used memory together stay within it.
pub proof fn lemma_memory_counters_bounded(m: MemoryCounters)
    requires
        m.wf(),
    ensures
        m.available_memory <= m.total_memory,
        m.used_memory <= m.total_memory,
        m.free_memory + m.used_memory <= m.total_memory,
{
}

/// A disk's available space never exceeds its size.
pub proof fn lemma_disk_space_bounded(d: DiskModel)
    requires
        d.wf(),
    ensures
        d.available_space <= d.total_space,
{
}

/// A CPU's usage lies between 0% and 100% (counted in hundredths of a
/// percent) and its frequency is positive.
pub proof fn lemma_cpu_entry_bounded(c: CpuEntry)
    requires
        c.wf(),
    ensures
        c.percent_hundredths <= 10000,
        c.frequency >= 1,
{
}

/// No reading that survives the refresh filter has an empty name.
pub proof fn lemma_kept_readings_named(s: Seq<TemperatureModel>)
    ensures
        forall|i: int|
            0 <= i < temp_keep_filter(s).len() ==> (#[trigger] temp_keep_filter(s)[i]).named(),
    decreases s.len(),
{
    reveal(Seq::filter);
    let f = temp_keep_filter(s);
    if s.len() == 0 {
    } else {
        let d = s.drop_last();
        lemma_kept_readings_named(d);
        assert forall|i: int| 0 <= i < f.len() implies (#[trigger] f[i]).named() by {
            if i < temp_keep_filter(d).len() {
                assert(f[i] == temp_keep_filter(d)[i]);
            } else {
                assert(f[i] == s.last());
            }
        }
    }
}

proof fn lemma_esc_char_no_controls(c: char)
    ensures
        forall|i: int| 0 <= i < esc_char(c).len() ==> (#[trigger] esc_char(c)[i]) as u32 >= 0x20,
{
}

/// Escaping leaves no raw control character in a serialized string
/// literal, whatever the input holds: every character at or below U+001F
/// comes out as an escape sequence of printable characters.
pub proof fn lemma_esc_text_no_controls(s: Seq<char>)
    ensures
        forall|i: int| 0 <= i < esc_text(s).len() ==> (#[trigger] esc_text(s)[i]) as u32 >= 0x20,
    decreases s.len(),
{
    if s.len() == 0 {
    } else {
        lemma_esc_text_no_controls(s.drop_last());
        lemma_esc_char_no_controls(s.last());
        let head = esc_text(s.drop_last());
        let tail = esc_char(s.last());
        assert forall|i: int| 0 <= i < esc_text(s).len() implies (#[trigger] esc_text(s)[i]) as u32
            >= 0x20 by {
            if i < head.len() {
                assert(esc_text(s)[i] == head[i]);
            } else {
                assert(esc_text(s)[i] == tail[i - head.len()]);
            }
        }
    }
}

/// A refresh touches only its own family: every other family's values
/// after the refresh are the values before it.
pub proof fn lemma_refresh_frames(m: SnapshotModel, d: FamilyData)
    ensures
        d.family() != MetricFamily::Cpus ==> apply_refresh(m, d).cpus == m.cpus,
        d.family() != MetricFamily::Disks ==> apply_refresh(m, d).disks == m.disks,
        d.family() != MetricFamily::Memory ==> apply_refresh(m, d).memory == m.memory,
        d.family() != MetricFamily::Networks ==> apply_refresh(m, d).networks == m.networks,
        d.family() != MetricFamily::Temperatures ==> apply_refresh(m, d).temperatures
            == m.temperatures,
        d.family() != MetricFamily::Users ==> apply_refresh(m, d).users == m.users,
        d.family() != MetricFamily::LoadAverage ==> apply_refresh(m, d).load_average
            == m.load_average,
        d.family() != MetricFamily::BootTime ==> apply_refresh(m, d).boot_time == m.boot_time,
        d.family() != MetricFamily::OsInfo ==> apply_refresh(m, d).os_info == m.os_info,
{
}

/// No torn reads: the body served after a refresh is a function of the
/// refreshed values alone, so two refreshes with the same values serve the
/// same body whatever each snapshot held before.
pub proof fn lemma_no_torn_reads(m1: SnapshotModel, m2: SnapshotModel, d: FamilyData)
    ensures
        body_for(d.family(), apply_refresh(m1, d)) == refreshed_body(d),
        body_for(d.family(), apply_refresh(m1, d)) == body_for(d.family(), apply_refresh(m2, d)),
{
}

/// Refreshing twice with the same values is the same as refreshing once:
/// the snapshot settles and the served body repeats byte for byte.
pub proof fn lemma_refresh_idempotent(m: SnapshotModel, d: FamilyData)
    ensures
        apply_refresh(apply_refresh(m, d), d) == apply_refresh(m, d),
        body_for(d.family(), apply_refresh(apply_refresh(m, d), d)) == body_for(
            d.family(),
            apply_refresh(m, d),
        ),
{
    assert(apply_refresh(apply_refresh(m, d), d) =~= apply_refresh(m, d));
}

} // verus!
