//! The routing table: an exact mapping from (method, path) to a metric
//! family, and the fixed response for everything else. No normalization, no
//! path parameters: a request either names a family or is not found.

use vstd::prelude::*;

use crate::model::MetricFamily;
use crate::HttpResponse;

verus! {

/// The family a request line names, if any: `GET` on one of the nine
/// metric paths, and nothing else.
pub open spec fn spec_route(method: Seq<char>, path: Seq<char>) -> Option<MetricFamily> {
    if method != "GET"@ {
        None
    } else if path == "/cpus"@ {
        Some(MetricFamily::Cpus)
    } else if path == "/disks"@ {
        Some(MetricFamily::Disks)
    } else if path == "/memory"@ {
        Some(MetricFamily::Memory)
    } else if path == "/networks"@ {
        Some(MetricFamily::Networks)
    } else if path == "/temperatures"@ {
        Some(MetricFamily::Temperatures)
    } else if path == "/users"@ {
        Some(MetricFamily::Users)
    } else if path == "/load_average"@ {
        Some(MetricFamily::LoadAverage)
    } else if path == "/boot_time"@ {
        Some(MetricFamily::BootTime)
    } else if path == "/sysinfo"@ {
        Some(MetricFamily::OsInfo)
    } else {
        None
    }
}

/// Character-for-character string equality.
fn str_eq(a: &str, b: &str) -> (r: bool)
    ensures
        r == (a@ == b@),
{
    let na = a.unicode_len();
    let nb = b.unicode_len();
    if na != nb {
        proof {
            assert(a@ != b@) by {
                if a@ == b@ {
                    assert(a@.len() == b@.len());
                }
            }
        }
        return false;
    }
    let mut i: usize = 0;
    while i < na
        invariant
            na == a@.len(),
            na == b@.len(),
            i <= na,
            forall|j: int| 0 <= j < i ==> a@[j] == b@[j],
        decreases na - i,
    {
        if a.get_char(i) != b.get_char(i) {
            return false;
        }
        i += 1;
    }
    proof {
        assert(a@ =~= b@);
    }
    true
}

/// Matches a request line against the routing table.
pub fn route_of(method: &str, path: &str) -> (r: Option<MetricFamily>)
    ensures
        r == spec_route(method@, path@),
{
    if !str_eq(method, "GET") {
        None
    } else if str_eq(path, "/cpus") {
        Some(MetricFamily::Cpus)
    } else if str_eq(path, "/disks") {
        Some(MetricFamily::Disks)
    } else if str_eq(path, "/memory") {
        Some(MetricFamily::Memory)
    } else if str_eq(path, "/networks") {
        Some(MetricFamily::Networks)
    } else if str_eq(path, "/temperatures") {
        Some(MetricFamily::Temperatures)
    } else if str_eq(path, "/users") {
        Some(MetricFamily::Users)
    } else if str_eq(path, "/load_average") {
        Some(MetricFamily::LoadAverage)
    } else if str_eq(path, "/boot_time") {
        Some(MetricFamily::BootTime)
    } else if str_eq(path, "/sysinfo") {
        Some(MetricFamily::OsInfo)
    } else {
        None
    }
}

/// The terminal response for a request no route matches: status 404 with
/// the fixed plain-text body.
pub fn not_found_response() -> (r: HttpResponse)
    ensures
        r.status == 404,
        !r.content_type_json,
        r.body@ == "Not Found"@,
{
    HttpResponse { status: 404, content_type_json: false, body: String::from_str("Not Found") }
}

} // verus!
