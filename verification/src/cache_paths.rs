//! The cache directory layout: one sub-directory per dataset kind
//! under the application's cache root, one freshness marker file per
//! dataset kind, and one file per partition, addressed by a
//! deterministic relative path built from the partition key.

use vstd::prelude::*;

use crate::date::Date;
use crate::freshness::spec_is_stale;
use crate::freshness::is_stale;
use crate::strutil::push_char;
use crate::strutil::spec_ends_with;

verus! {

/// The dataset kinds the cache keeps, each with its own directory
/// and its own freshness marker.
#[derive(Debug, Clone, Copy, PartialEq, Eq, Structural)]
pub enum DatasetKind {
    /// Canteen menus, partitioned by canteen and date.
    MenuData,
    /// Lecture events, partitioned by department and module.
    EventData,
}

/// The directory name of each dataset kind.
pub open spec fn spec_dataset_dir_name(kind: DatasetKind) -> Seq<char> {
    match kind {
        DatasetKind::MenuData => "mensadata"@,
        DatasetKind::EventData => "eventdata"@,
    }
}

/// The digit character for one decimal digit.
pub open spec fn spec_digit(d: int) -> char {
    ((48 + d) as u8) as char
}

/// Four decimal digits, zero padded.
pub open spec fn spec_year4(y: int) -> Seq<char> {
    seq![
        spec_digit(y / 1000 % 10),
        spec_digit(y / 100 % 10),
        spec_digit(y / 10 % 10),
        spec_digit(y % 10),
    ]
}

/// Two decimal digits, zero padded.
pub open spec fn spec_two_digits(n: int) -> Seq<char> {
    seq![spec_digit(n / 10 % 10), spec_digit(n % 10)]
}

/// The relative path of a menu partition inside its dataset
/// directory: `{canteen}/{YYYY}/{MM}/{DD}.json`.
pub open spec fn spec_menu_partition_path(canteen: Seq<char>, d: Date) -> Seq<char> {
    canteen + seq!['/'] + spec_year4(d.year as int) + seq!['/'] + spec_two_digits(
        d.month as int,
    ) + seq!['/'] + spec_two_digits(d.day as int) + ".json"@
}

/// The relative path of an event partition inside its dataset
/// directory: `{department}/{module}.json`.
pub open spec fn spec_event_partition_path(department: Seq<char>, module: Seq<char>) -> Seq<
    char,
> {
    department + seq!['/'] + module + ".json"@
}

fn digit_char(d: u8) -> (r: char)
    requires
        d < 10,
    ensures
        r == spec_digit(d as int),
{
    (48 + d) as char
}

/// Renders a month or day as two zero-padded digits.
pub fn two_digits(n: u8) -> (r: String)
    requires
        n < 100,
    ensures
        r@ == spec_two_digits(n as int),
{
    let mut out = String::new();
    push_char(&mut out, digit_char(n / 10));
    push_char(&mut out, digit_char(n % 10));
    proof {
        assert(out@ =~= spec_two_digits(n as int));
    }
    out
}

/// Renders a year as four zero-padded digits.
pub fn year4(y: u16) -> (r: String)
    requires
        y < 10000,
    ensures
        r@ == spec_year4(y as int),
{
    let mut out = String::new();
    push_char(&mut out, digit_char((y / 1000) as u8));
    push_char(&mut out, digit_char((y / 100 % 10) as u8));
    push_char(&mut out, digit_char((y / 10 % 10) as u8));
    push_char(&mut out, digit_char((y % 10) as u8));
    proof {
        assert(out@ =~= spec_year4(y as int));
    }
    out
}

/// Builds the relative path of a menu partition from its key.
pub fn menu_partition_path(canteen: &str, date: &Date) -> (r: String)
    requires
        date.valid(),
    ensures
        r@ == spec_menu_partition_path(canteen@, *date),
{
    let mut out = String::from_str(canteen);
    push_char(&mut out, '/');
    out.append(year4(date.year).as_str());
    push_char(&mut out, '/');
    out.append(two_digits(date.month).as_str());
    push_char(&mut out, '/');
    out.append(two_digits(date.day).as_str());
    out.append(".json");
    proof {
        assert(out@ =~= spec_menu_partition_path(canteen@, *date));
    }
    out
}

/// Builds the relative path of an event partition from its key.
pub fn event_partition_path(department: &str, module: &str) -> (r: String)
    ensures
        r@ == spec_event_partition_path(department@, module@),
{
    let mut out = String::from_str(department);
    push_char(&mut out, '/');
    out.append(module);
    out.append(".json");
    proof {
        assert(out@ =~= spec_event_partition_path(department@, module@));
    }
    out
}

/// The dataset kind's directory under the application's cache root.
pub fn dataset_dir(cache_root: &str, kind: DatasetKind) -> (r: String)
    ensures
        r@ == cache_root@ + seq!['/'] + spec_dataset_dir_name(kind),
{
    let mut out = String::from_str(cache_root);
    push_char(&mut out, '/');
    match kind {
        DatasetKind::MenuData => out.append("mensadata"),
        DatasetKind::EventData => out.append("eventdata"),
    }
    out
}

/// The dataset's freshness marker file, beside its partition tree.
pub fn marker_path(dataset_dir: &str) -> (r: String)
    ensures
        r@ == dataset_dir@ + seq!['/'] + "timestamp"@,
{
    let mut out = String::from_str(dataset_dir);
    push_char(&mut out, '/');
    out.append("timestamp");
    out
}

/// Relies on `dirs::cache_dir`: the platform's per-user cache
/// directory. The result depends on the environment, so nothing is
/// promised of it; a root whose path is not UTF-8 yields `None`.
#[verifier::external_body]
fn os_cache_dir() -> Option<String> {
    dirs::cache_dir().and_then(|p| p.to_str().map(|s| s.to_string()))
}

/// The application's own directory under the platform cache root,
/// where both dataset kinds live. `None` when the platform offers no
/// cache directory.
pub fn app_cache_root() -> (r: Option<String>)
    ensures
        r matches Some(p) ==> spec_ends_with(p@, "/calendarbot"@),
{
    match os_cache_dir() {
        Some(root) => {
            let mut out = root;
            out.append("/calendarbot");
            proof {
                assert(out@.subrange(
                    out@.len() - "/calendarbot"@.len(),
                    out@.len() as int,
                ) =~= "/calendarbot"@);
            }
            Some(out)
        },
        None => None,
    }
}

/// Relies on `chrono::Local::now` and `DateTime::timestamp`: the
/// current Unix time in whole seconds. It depends on the clock, so
/// nothing is promised of the value.
#[verifier::external_body]
fn current_unix_time() -> i64 {
    chrono::Local::now().timestamp()
}

/// Reads the clock and judges a marker against it: the returned flag
/// is exactly the staleness of `marker` at the returned instant.
pub fn staleness_now(marker: Option<i64>) -> (r: (i64, bool))
    ensures
        r.1 == spec_is_stale(marker, r.0),
{
    let now = current_unix_time();
    (now, is_stale(marker, now))
}

} // verus!
