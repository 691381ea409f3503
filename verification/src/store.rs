//! The snapshot store: the one owner of the host snapshot. A refresh hands
//! it one family's fresh values; the store installs them, leaves every other
//! family untouched, and serves the response rendered from exactly the
//! values just installed. Exclusive access comes with `&mut self`: whoever
//! serializes calls to the store (the connection layer holds it behind a
//! lock) gets refresh-then-read as one unit, so no response can mix values
//! from two refresh cycles.

use vstd::prelude::*;

use crate::model::FamilyData;
use crate::model::HostSnapshot;
use crate::model::MemoryCounters;
use crate::model::LoadPoints;
use crate::model::OsIdentity;
use crate::model::SnapshotModel;
use crate::model::TemperatureEntry;
use crate::model::TemperatureModel;
use crate::model::keeps_reading;
use crate::model::or_placeholder;
use crate::model::os_identity_of;
use crate::model::temp_keep_filter;
use crate::render::boot_time_json;
use crate::render::body_for;
use crate::render::cpus_json;
use crate::render::disks_json;
use crate::render::load_average_json;
use crate::render::memory_json;
use crate::render::networks_json;
use crate::render::os_info_json;
use crate::render::render_boot_time;
use crate::render::render_cpus;
use crate::render::render_disks;
use crate::render::render_load_average;
use crate::render::render_memory;
use crate::render::render_networks;
use crate::render::render_os_info;
use crate::render::render_temperatures;
use crate::render::render_users;
use crate::render::temperatures_json;
use crate::render::users_json;
use crate::HttpResponse;
use crate::model::DiskEntry;
use crate::model::NetworkEntry;
use crate::model::UserEntry;

verus! {

/// The body one refresh serves, as a function of the handed-in values
/// alone: whatever the snapshot held before cannot reach the response.
pub open spec fn refreshed_body(d: FamilyData) -> Seq<char> {
    match d {
        FamilyData::Cpus(v) => cpus_json(v@),
        FamilyData::Disks(v) => disks_json(v@.map_values(|e: DiskEntry| e@)),
        FamilyData::Memory(m) => memory_json(m),
        FamilyData::Networks(v) => networks_json(v@.map_values(|e: NetworkEntry| e@)),
        FamilyData::Temperatures(v) => temperatures_json(
            temp_keep_filter(v@.map_values(|e: TemperatureEntry| e@)),
        ),
        FamilyData::Users(v) => users_json(v@.map_values(|e: UserEntry| e@)),
        FamilyData::LoadAverage(l) => load_average_json(l),
        FamilyData::BootTime(b) => boot_time_json(b),
        FamilyData::OsInfo(r) => os_info_json(os_identity_of(r)),
    }
}

/// The snapshot before the first refresh: every family unpopulated.
pub open spec fn empty_snapshot() -> SnapshotModel {
    SnapshotModel {
        cpus: Seq::empty(),
        disks: Seq::empty(),
        memory: MemoryCounters {
            available_memory: 0,
            free_memory: 0,
            free_swap: 0,
            total_memory: 0,
            total_swap: 0,
            used_memory: 0,
            used_swap: 0,
        },
        networks: Seq::empty(),
        temperatures: Seq::empty(),
        users: Seq::empty(),
        load_average: LoadPoints { one: 0, five: 0, fifteen: 0 },
        boot_time: 0,
        os_info: crate::model::OsModel {
            kernel_version: Seq::empty(),
            os_version: Seq::empty(),
            long_os_version: Seq::empty(),
            distribution_id: Seq::empty(),
            host_name: Seq::empty(),
        },
    }
}

/// Owns the host snapshot and serializes refresh-then-read on it.
pub struct SnapshotStore {
    snapshot: HostSnapshot,
}

impl View for SnapshotStore {
    type V = SnapshotModel;

    closed spec fn view(&self) -> SnapshotModel {
        self.snapshot@
    }
}

impl SnapshotStore {
    /// The store's invariant: the snapshot satisfies every family's
    /// bounds at all times.
    pub open spec fn inv(self) -> bool {
        self@.wf()
    }

    /// A store around an unpopulated snapshot.
    pub fn new() -> (s: SnapshotStore)
        ensures
            s.inv(),
            s@ == empty_snapshot(),
    {
        let snapshot = HostSnapshot {
            cpus: Vec::new(),
            disks: Vec::new(),
            memory: MemoryCounters {
                available_memory: 0,
                free_memory: 0,
                free_swap: 0,
                total_memory: 0,
                total_swap: 0,
                used_memory: 0,
                used_swap: 0,
            },
            networks: Vec::new(),
            temperatures: Vec::new(),
            users: Vec::new(),
            load_average: LoadPoints { one: 0, five: 0, fifteen: 0 },
            boot_time: 0,
            os_info: OsIdentity {
                kernel_version: String::new(),
                os_version: String::new(),
                long_os_version: String::new(),
                distribution_id: String::new(),
                host_name: String::new(),
            },
        };
        let s = SnapshotStore { snapshot };
        proof {
            assert(s@ =~= empty_snapshot());
        }
        s
    }

    /// Installs one family's fresh values and serves the response for that
    /// family, as one unit. The refreshed family holds exactly the
    /// handed-in values (temperature readings without a label dropped),
    /// every other family keeps its previous values, and the body is a
    /// function of the handed-in values alone.
    pub fn refresh_and_respond(&mut self, data: FamilyData) -> (resp: HttpResponse)
        requires
            old(self).inv(),
            data.wf(),
        ensures
            final(self).inv(),
            final(self)@ == crate::model::apply_refresh(old(self)@, data),
            resp.status == 200,
            resp.content_type_json,
            resp.body@ == refreshed_body(data),
            resp.body@ == body_for(data.family(), final(self)@),
    {
        let ghost pre = self@;
        let ghost d = data;
        let body: String = match data {
            FamilyData::Cpus(v) => {
                self.snapshot.cpus = v;
                render_cpus(&self.snapshot.cpus)
            },
            FamilyData::Disks(v) => {
                self.snapshot.disks = v;
                render_disks(&self.snapshot.disks)
            },
            FamilyData::Memory(m) => {
                self.snapshot.memory = m;
                render_memory(&self.snapshot.memory)
            },
            FamilyData::Networks(v) => {
                self.snapshot.networks = v;
                render_networks(&self.snapshot.networks)
            },
            FamilyData::Temperatures(v) => {
                proof {
                    lemma_keep_filter_wf(v@.map_values(|t: TemperatureEntry| t@));
                }
                let kept = keep_named_readings(v);
                proof {
                    assert forall|i: int| 0 <= i < kept@.len() implies (#[trigger] kept@[i])@.wf()
                        by {
                        assert(kept@.map_values(|t: TemperatureEntry| t@)[i] == kept@[i]@);
                    };
                }
                self.snapshot.temperatures = kept;
                render_temperatures(&self.snapshot.temperatures)
            },
            FamilyData::Users(v) => {
                self.snapshot.users = v;
                render_users(&self.snapshot.users)
            },
            FamilyData::LoadAverage(l) => {
                self.snapshot.load_average = l;
                render_load_average(&self.snapshot.load_average)
            },
            FamilyData::BootTime(b) => {
                self.snapshot.boot_time = b;
                render_boot_time(self.snapshot.boot_time)
            },
            FamilyData::OsInfo(r) => {
                let ghost rep = r;
                let identity = OsIdentity {
                    kernel_version: take_or_placeholder(r.kernel_version),
                    os_version: take_or_placeholder(r.os_version),
                    long_os_version: take_or_placeholder(r.long_os_version),
                    distribution_id: r.distribution_id,
                    host_name: take_or_placeholder(r.host_name),
                };
                proof {
                    assert(identity@ =~= os_identity_of(rep));
                }
                self.snapshot.os_info = identity;
                render_os_info(&self.snapshot.os_info)
            },
        };
        proof {
            assert(self@ =~= crate::model::apply_refresh(pre, d));
        }
        HttpResponse { status: 200, content_type_json: true, body }
    }
}

/// Substitutes the placeholder for an identity string the provider could
/// not supply.
fn take_or_placeholder(o: Option<String>) -> (r: String)
    ensures
        r@ == or_placeholder(o),
{
    match o {
        Option::Some(s) => s,
        Option::None => String::from_str("N/A"),
    }
}

/// Every reading that survives the label filter is well formed and named.
proof fn lemma_keep_filter_wf(s: Seq<TemperatureModel>)
    requires
        forall|i: int| 0 <= i < s.len() ==> (#[trigger] s[i]).wf(),
    ensures
        forall|i: int|
            0 <= i < temp_keep_filter(s).len() ==> (#[trigger] temp_keep_filter(s)[i]).wf()
                && temp_keep_filter(s)[i].named(),
    decreases s.len(),
{
    reveal(Seq::filter);
    let f = temp_keep_filter(s);
    if s.len() == 0 {
    } else {
        let d = s.drop_last();
        assert(forall|i: int| 0 <= i < d.len() ==> d[i] == s[i]);
        lemma_keep_filter_wf(d);
        assert forall|i: int| 0 <= i < f.len() implies (#[trigger] f[i]).wf() && f[i].named() by {
            if i < temp_keep_filter(d).len() {
                assert(f[i] == temp_keep_filter(d)[i]);
            } else {
                assert(f[i] == s.last());
            }
        }
    }
}

/// Keeps, in order, the readings that carry a label.
fn keep_named_readings(v: Vec<TemperatureEntry>) -> (kept: Vec<TemperatureEntry>)
    ensures
        kept@.map_values(|t: TemperatureEntry| t@) == temp_keep_filter(
            v@.map_values(|t: TemperatureEntry| t@),
        ),
{
    let ghost morig = v@.map_values(|t: TemperatureEntry| t@);
    let mut rest = v;
    let mut kept: Vec<TemperatureEntry> = Vec::new();
    while rest.len() > 0
        invariant
            rest@.len() <= morig.len(),
            rest@.map_values(|t: TemperatureEntry| t@) == morig.skip(
                morig.len() - rest@.len(),
            ),
            kept@.map_values(|t: TemperatureEntry| t@) == temp_keep_filter(
                morig.take(morig.len() - rest@.len()),
            ),
        decreases rest@.len(),
    {
        let ghost k = morig.len() - rest@.len();
        let ghost kept_pre = kept@.map_values(|t: TemperatureEntry| t@);
        let ghost rest_pre = rest@;
        let e = rest.remove(0);
        proof {
            assert(e == rest_pre[0]);
            assert(rest_pre.map_values(|t: TemperatureEntry| t@)[0] == e@);
            assert(e@ == morig.skip(k)[0]);
            assert(e@ == morig[k]);
            assert(rest@ =~= rest_pre.skip(1));
            let mrest = rest@.map_values(|t: TemperatureEntry| t@);
            assert forall|j: int| 0 <= j < rest@.len() implies mrest[j] == #[trigger] morig.skip(
                k + 1,
            )[j] by {
                assert(rest@[j] == rest_pre[j + 1]);
                assert(rest_pre.map_values(|t: TemperatureEntry| t@)[j + 1] == rest_pre[j + 1]@);
                assert(morig.skip(k)[j + 1] == morig[k + 1 + j]);
            }
            assert(rest@.map_values(|t: TemperatureEntry| t@) =~= morig.skip(k + 1));
        }
        let keep = !e.name.as_str().is_empty();
        proof {
            reveal(Seq::filter);
            let y = morig.take(k + 1);
            assert(y.drop_last() =~= morig.take(k));
            assert(y.last() == morig[k]);
            assert(keep == keeps_reading(morig[k]));
            if keep {
                assert(temp_keep_filter(y) == temp_keep_filter(morig.take(k)).push(morig[k]));
            } else {
                assert(temp_keep_filter(y) == temp_keep_filter(morig.take(k)));
            }
        }
        if keep {
            kept.push(e);
            proof {
                assert(kept@.map_values(|t: TemperatureEntry| t@) =~= kept_pre.push(morig[k]));
            }
        }
    }
    proof {
        assert(morig.take(morig.len() as int) =~= morig);
    }
    kept
}

} // verus!
