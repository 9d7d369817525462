//! Event records (lectures) and the pure event-side logic: filtering
//! a module's events by date, parsing stored event descriptors, and
//! narrowing directory listings to module and department names.
//!
//! Listing directories, reading cached files and fetching remote
//! event data stay with the caller; the resolver of
//! [`crate::resolver`] drives those steps for events exactly as for
//! menu data.

use vstd::prelude::*;

use crate::date::Date;
use crate::strutil::contains_str;
use crate::strutil::contains_string;
use crate::strutil::ends_with_str;
use crate::strutil::find_char;
use crate::strutil::spec_contains_str;
use crate::strutil::spec_ends_with;
use crate::strutil::starts_with_char;

verus! {

/// Identifies one event partition: a module within a department.
#[derive(Debug, PartialEq, Eq, Hash)]
pub struct EventMeta {
    /// The department name.
    pub department: String,
    /// The module name.
    pub module: String,
}

/// A point in time as an event carries it: a calendar date plus a
/// time of day.
#[derive(Debug, Clone, Copy, PartialEq, Eq, Hash, Structural)]
pub struct EventTime {
    pub date: Date,
    pub hour: u8,
    pub minute: u8,
    pub second: u8,
}

impl EventTime {
    /// Well-formedness of the time-of-day part.
    pub open spec fn valid(self) -> bool {
        self.date.valid() && self.hour < 24 && self.minute < 60 && self.second < 60
    }

    /// Builds a point in time, accepting exactly the well-formed
    /// combinations.
    pub fn new(date: Date, hour: u8, minute: u8, second: u8) -> (r: Option<EventTime>)
        requires
            date.valid(),
        ensures
            r is Some <==> hour < 24 && minute < 60 && second < 60,
            r is Some ==> r->0 == (EventTime { date, hour, minute, second }) && r->0.valid(),
    {
        if hour < 24 && minute < 60 && second < 60 {
            Some(EventTime { date, hour, minute, second })
        } else {
            None
        }
    }
}

/// One calendar event of a module.
#[derive(Debug, PartialEq)]
pub struct EventRecord {
    pub name: String,
    pub location: String,
    pub description: String,
    pub start: EventTime,
    pub end: EventTime,
}

/// The events of a batch that start on the given date.
pub open spec fn spec_events_on_date(events: Seq<EventRecord>, date: Date) -> Seq<
    EventRecord,
> {
    events.filter(|e: EventRecord| e.start.date == date)
}

/// Keeps the events starting exactly on `date`, in order.
pub fn select_events_on_date(events: Vec<EventRecord>, date: Date) -> (r: Vec<EventRecord>)
    ensures
        r@ == spec_events_on_date(events@, date),
{
    let ghost orig: Seq<EventRecord> = events@;
    let ghost pred = |e: EventRecord| e.start.date == date;
    let mut remaining = events;
    let mut kept: Vec<EventRecord> = Vec::new();
    proof {
        reveal(Seq::filter);
        assert(kept@ =~= orig.subrange(0, 0).filter(pred));
        assert(remaining@ =~= orig.subrange(0, orig.len() as int));
    }
    while remaining.len() > 0
        invariant
            remaining@.len() <= orig.len(),
            remaining@ == orig.subrange(orig.len() - remaining@.len(), orig.len() as int),
            kept@ == orig.subrange(0, orig.len() - remaining@.len()).filter(pred),
            pred == (|e: EventRecord| e.start.date == date),
        decreases remaining@.len(),
    {
        let ghost done: int = orig.len() - remaining@.len();
        let e = remaining.remove(0);
        proof {
            assert(e == orig[done]);
            assert(remaining@ =~= orig.subrange(done + 1, orig.len() as int));
            let prefix = orig.subrange(0, done);
            let next = orig.subrange(0, done + 1);
            assert(next.drop_last() =~= prefix);
            assert(next.last() == e);
            reveal(Seq::filter);
            assert(next.filter(pred) == if pred(e) {
                prefix.filter(pred).push(e)
            } else {
                prefix.filter(pred)
            });
        }
        if e.start.date.year == date.year && e.start.date.month == date.month
            && e.start.date.day == date.day {
            kept.push(e);
        }
    }
    proof {
        assert(orig.subrange(0, orig.len() as int) =~= orig);
    }
    kept
}

/// `i` is the position of the first colon of `s`.
pub open spec fn spec_first_colon_at(s: Seq<char>, i: int) -> bool {
    0 <= i < s.len() && s[i] == ':' && (forall|j: int| 0 <= j < i ==> s[j] != ':')
}

/// Splits a stored `department:module` descriptor at its first
/// colon. A descriptor without a colon is rejected.
pub fn parse_descriptor(s: &str) -> (r: Option<EventMeta>)
    ensures
        r is Some <==> (exists|i: int| 0 <= i < s@.len() && s@[i] == ':'),
        r matches Some(m) ==> exists|i: int|
            #![trigger s@[i]]
            spec_first_colon_at(s@, i) && m.department@ == s@.subrange(0, i) && m.module@
                == s@.subrange(i + 1, s@.len() as int),
{
    let n = s.unicode_len();
    match find_char(s, ':') {
        Some(i) => {
            let department = String::from_str(s.substring_char(0, i));
            let module = String::from_str(s.substring_char(i + 1, n));
            proof {
                assert(spec_first_colon_at(s@, i as int));
            }
            Some(EventMeta { department, module })
        },
        None => None,
    }
}

/// Checks a per-module fetch request: both names must be non-empty
/// and the module must be among the department's known modules.
pub fn validate_module_request(event: &EventMeta, valid_modules: &Vec<String>) -> (r: Result<
    (),
    String,
>)
    ensures
        r is Ok <==> event.department@.len() > 0 && event.module@.len() > 0 && (exists|i: int|
            0 <= i < valid_modules@.len() && (#[trigger] valid_modules@[i])@
                == event.module@),
{
    if event.department.as_str().is_empty() || event.module.as_str().is_empty() {
        let mut msg = String::from_str(
            "Department and module must be specified. Got: department='",
        );
        msg.append(event.department.as_str());
        msg.append("', module='");
        msg.append(event.module.as_str());
        msg.append("'");
        return Err(msg);
    }
    if !contains_string(valid_modules, event.module.as_str()) {
        let mut msg = String::from_str("Invalid module '");
        msg.append(event.module.as_str());
        msg.append("' for department '");
        msg.append(event.department.as_str());
        msg.append("'");
        return Err(msg);
    }
    Ok(())
}

/// A directory entry that stores a module's events: a `.json` file
/// that is not hidden.
pub open spec fn spec_is_module_file(f: Seq<char>) -> bool {
    spec_ends_with(f, ".json"@) && !(f.len() > 0 && f[0] == '.')
}

/// The module names a directory listing yields: the stems of its
/// non-hidden `.json` entries, in listing order.
pub open spec fn spec_module_names(files: Seq<Seq<char>>) -> Seq<Seq<char>> {
    files.filter(|f: Seq<char>| spec_is_module_file(f)).map_values(
        |f: Seq<char>| f.subrange(0, f.len() - ".json"@.len()),
    )
}

/// The module names whose name contains the pattern.
pub open spec fn spec_filter_names(names: Seq<Seq<char>>, pattern: Seq<char>) -> Seq<
    Seq<char>,
> {
    names.filter(|n: Seq<char>| spec_contains_str(n, pattern))
}

/// Turns a department directory's file listing into module names:
/// keeps non-hidden `.json` entries, strips their extension, and,
/// when a pattern is given, keeps only names containing it.
pub fn module_names(files: &Vec<String>, pattern: Option<&str>) -> (r: Vec<String>)
    ensures
        pattern is None ==> r.deep_view() == spec_module_names(files.deep_view()),
        pattern matches Some(p) ==> r.deep_view() == spec_filter_names(
            spec_module_names(files.deep_view()),
            p@,
        ),
{
    let ghost fpred = |f: Seq<char>| spec_is_module_file(f);
    let ghost strip = |f: Seq<char>| f.subrange(0, f.len() - ".json"@.len());
    let ext_len = ".json".unicode_len();
    let mut names: Vec<String> = Vec::new();
    let mut i: usize = 0;
    proof {
        reveal(Seq::filter);
        assert(names.deep_view() =~= files.deep_view().subrange(0, 0).filter(fpred)
            .map_values(strip));
    }
    while i < files.len()
        invariant
            0 <= i <= files@.len(),
            files.deep_view().len() == files@.len(),
            forall|j: int|
                0 <= j < files@.len() ==> files.deep_view()[j] == (#[trigger] files@[j])@,
            ".json"@.len() == ext_len,
            names.deep_view() == files.deep_view().subrange(0, i as int).filter(fpred)
                .map_values(strip),
            fpred == (|f: Seq<char>| spec_is_module_file(f)),
            strip == (|f: Seq<char>| f.subrange(0, f.len() - ".json"@.len())),
        decreases files@.len() - i,
    {
        let ghost prefix = files.deep_view().subrange(0, i as int);
        let ghost next = files.deep_view().subrange(0, i + 1);
        let ghost f = files@[i as int]@;
        proof {
            reveal(Seq::filter);
            assert(next.drop_last() =~= prefix);
            assert(next.last() == f);
            assert(next.filter(fpred) == if fpred(f) {
                prefix.filter(fpred).push(f)
            } else {
                prefix.filter(fpred)
            });
        }
        let entry = &files[i];
        if ends_with_str(entry.as_str(), ".json") && !starts_with_char(entry.as_str(), '.') {
            let flen = entry.as_str().unicode_len();
            let stem = String::from_str(entry.as_str().substring_char(0, flen - ext_len));
            let ghost names_before = names.deep_view();
            names.push(stem);
            proof {
                assert(names.deep_view() =~= names_before.push(strip(f)));
                assert(prefix.filter(fpred).push(f).map_values(strip) =~= prefix.filter(
                    fpred,
                ).map_values(strip).push(strip(f)));
            }
        }
        i = i + 1;
    }
    proof {
        assert(files.deep_view().subrange(0, files@.len() as int) =~= files.deep_view());
    }
    match pattern {
        None => names,
        Some(p) => {
            let ghost npred = |n: Seq<char>| spec_contains_str(n, p@);
            let ghost all = names.deep_view();
            let mut kept: Vec<String> = Vec::new();
            let mut k: usize = 0;
            proof {
                reveal(Seq::filter);
                assert(kept.deep_view() =~= all.subrange(0, 0).filter(npred));
            }
            while k < names.len()
                invariant
                    0 <= k <= names@.len(),
                    all == names.deep_view(),
                    all.len() == names@.len(),
                    forall|j: int|
                        0 <= j < names@.len() ==> all[j] == (#[trigger] names@[j])@,
                    kept.deep_view() == all.subrange(0, k as int).filter(npred),
                    npred == (|n: Seq<char>| spec_contains_str(n, p@)),
                decreases names@.len() - k,
            {
                let ghost prefix = all.subrange(0, k as int);
                let ghost next = all.subrange(0, k + 1);
                proof {
                    reveal(Seq::filter);
                    assert(next.drop_last() =~= prefix);
                    assert(next.last() == names@[k as int]@);
                    assert(next.filter(npred) == if npred(names@[k as int]@) {
                        prefix.filter(npred).push(names@[k as int]@)
                    } else {
                        prefix.filter(npred)
                    });
                }
                if contains_str(names[k].as_str(), p) {
                    let ghost kept_before = kept.deep_view();
                    kept.push(names[k].clone());
                    proof {
                        assert(kept.deep_view() =~= kept_before.push(names@[k as int]@));
                    }
                }
                k = k + 1;
            }
            proof {
                assert(all.subrange(0, names@.len() as int) =~= all);
            }
            kept
        },
    }
}

/// The department names a cache listing yields: every non-hidden
/// entry, in listing order. (The caller lists directories only.)
pub open spec fn spec_department_names(entries: Seq<Seq<char>>) -> Seq<Seq<char>> {
    entries.filter(|d: Seq<char>| !(d.len() > 0 && d[0] == '.'))
}

/// Keeps the non-hidden entries of a cache directory listing.
pub fn department_names(entries: &Vec<String>) -> (r: Vec<String>)
    ensures
        r.deep_view() == spec_department_names(entries.deep_view()),
{
    let ghost pred = |d: Seq<char>| !(d.len() > 0 && d[0] == '.');
    let mut kept: Vec<String> = Vec::new();
    let mut i: usize = 0;
    proof {
        reveal(Seq::filter);
        assert(kept.deep_view() =~= entries.deep_view().subrange(0, 0).filter(pred));
    }
    while i < entries.len()
        invariant
            0 <= i <= entries@.len(),
            entries.deep_view().len() == entries@.len(),
            forall|j: int|
                0 <= j < entries@.len() ==> entries.deep_view()[j] == (
                #[trigger] entries@[j])@,
            kept.deep_view() == entries.deep_view().subrange(0, i as int).filter(pred),
            pred == (|d: Seq<char>| !(d.len() > 0 && d[0] == '.')),
        decreases entries@.len() - i,
    {
        let ghost prefix = entries.deep_view().subrange(0, i as int);
        let ghost next = entries.deep_view().subrange(0, i + 1);
        proof {
            reveal(Seq::filter);
            assert(next.drop_last() =~= prefix);
            assert(next.last() == entries@[i as int]@);
            assert(next.filter(pred) == if pred(entries@[i as int]@) {
                prefix.filter(pred).push(entries@[i as int]@)
            } else {
                prefix.filter(pred)
            });
        }
        if !starts_with_char(entries[i].as_str(), '.') {
            let ghost kept_before = kept.deep_view();
            kept.push(entries[i].clone());
            proof {
                assert(kept.deep_view() =~= kept_before.push(entries@[i as int]@));
            }
        }
        i = i + 1;
    }
    proof {
        assert(entries.deep_view().subrange(0, entries@.len() as int)
            =~= entries.deep_view());
    }
    kept
}

} // verus!
