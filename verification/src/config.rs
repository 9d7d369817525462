//! The user configuration record and its pure operations.
//!
//! The configuration names the primary canteen, the list of extra
//! canteens, the occupation, the configured filter predicates, the
//! event descriptors (`department:module` entries) and the remote
//! credentials. Reading and writing the configuration file belongs to
//! the surrounding application; this module only transforms the
//! in-memory value.

use vstd::prelude::*;

use crate::extras::Extras;
use crate::extras::Occupations;
use crate::strutil::contains_string;
use crate::strutil::remove_matching_string;

verus! {

/// One `department:module` event descriptor.
pub open spec fn spec_module_entry(department: Seq<char>, module: Seq<char>) -> Seq<char> {
    department + seq![':'] + module
}

/// Builds the `department:module` descriptor an event subscription is
/// stored under.
pub fn module_entry(department: &str, module: &str) -> (r: String)
    ensures
        r@ == spec_module_entry(department@, module@),
{
    let mut out = String::from_str(department);
    crate::strutil::push_char(&mut out, ':');
    out.append(module);
    out
}

/// The persistent user configuration.
#[derive(Debug)]
pub struct Config {
    pub primary_mensa: Option<String>,
    pub mensa_list: Option<Vec<String>>,
    pub occupation: Option<Occupations>,
    pub extras: Option<Vec<Extras>>,
    pub events: Option<Vec<String>>,
    pub vusername: Option<String>,
    pub vpassword: Option<String>,
}

impl Config {
    /// A fresh configuration: empty lists and names, no occupation.
    pub fn new() -> (r: Config)
        ensures
            r.primary_mensa matches Some(p) && p@.len() == 0,
            r.mensa_list matches Some(l) && l@.len() == 0,
            r.occupation is None,
            r.extras matches Some(e) && e@.len() == 0,
            r.events matches Some(ev) && ev@.len() == 0,
            r.vusername matches Some(u) && u@.len() == 0,
            r.vpassword matches Some(w) && w@.len() == 0,
    {
        Config {
            primary_mensa: Some(String::new()),
            mensa_list: Some(Vec::new()),
            occupation: None,
            extras: Some(Vec::new()),
            events: Some(Vec::new()),
            vusername: Some(String::new()),
            vpassword: Some(String::new()),
        }
    }

    /// Replaces the primary canteen.
    pub fn update_primary_mensa(&mut self, mensa_to_add: String)
        ensures
            *final (self) == (Config { primary_mensa: Some(mensa_to_add), ..*old(self) }),
    {
        self.primary_mensa = Some(mensa_to_add);
    }

    /// The primary canteen, if one is configured.
    pub fn get_primary_mensa(&self) -> (r: Option<String>)
        ensures
            r.deep_view() == self.primary_mensa.deep_view(),
    {
        match &self.primary_mensa {
            Some(s) => Some(s.clone()),
            None => None,
        }
    }

    /// Appends a canteen to the list of extra canteens.
    pub fn update_mensa_list(&mut self, mensa_to_add: String)
        requires
            old(self).mensa_list is Some,
        ensures
            *final (self) == (Config { mensa_list: final (self).mensa_list, ..*old(self) }),
            final (self).mensa_list matches Some(l) && l@ == old(self).mensa_list->0@.push(
                mensa_to_add,
            ),
    {
        if let Some(l) = &mut self.mensa_list {
            l.push(mensa_to_add);
        }
    }

    /// The list of extra canteens.
    pub fn get_mensa_list(&mut self) -> (r: Option<&Vec<String>>)
        requires
            old(self).mensa_list is Some,
        ensures
            *final (self) == *old(self),
            r matches Some(l) && *l == old(self).mensa_list->0,
    {
        match &self.mensa_list {
            Some(l) => Some(l),
            None => None,
        }
    }

    /// Drops every list entry spelled exactly like `mensa_to_remove`.
    pub fn remove_mensa(&mut self, mensa_to_remove: String)
        ensures
            *final (self) == (Config { mensa_list: final (self).mensa_list, ..*old(self) }),
            old(self).mensa_list is None ==> final (self).mensa_list is None,
            old(self).mensa_list matches Some(l) ==> final (self).mensa_list matches Some(nl)
                && nl.deep_view() == crate::strutil::spec_remove_string(
                l.deep_view(),
                mensa_to_remove@,
            ),
    {
        match &self.mensa_list {
            Some(l) => {
                let kept = remove_matching_string(l, mensa_to_remove.as_str());
                self.mensa_list = Some(kept);
            },
            None => (),
        }
    }

    /// Replaces the occupation.
    pub fn update_occupation(&mut self, new_occ: Occupations)
        ensures
            *final (self) == (Config { occupation: Some(new_occ), ..*old(self) }),
    {
        self.occupation = Some(new_occ);
    }

    /// The configured occupation, if any.
    pub fn get_occupation(&self) -> (r: Option<&Occupations>)
        ensures
            r is Some <==> self.occupation is Some,
            r is Some ==> *r->0 == self.occupation->0,
    {
        match &self.occupation {
            Some(o) => Some(o),
            None => None,
        }
    }

    /// Appends a filter predicate to the configured extras.
    pub fn add_extra(&mut self, extra_to_add: Extras)
        requires
            old(self).extras is Some,
        ensures
            *final (self) == (Config { extras: final (self).extras, ..*old(self) }),
            final (self).extras matches Some(e) && e@ == old(self).extras->0@.push(
                extra_to_add,
            ),
    {
        if let Some(e) = &mut self.extras {
            e.push(extra_to_add);
        }
    }

    /// Drops every occurrence of the given predicate.
    pub fn remove_extra(&mut self, extra_to_remove: Extras)
        ensures
            *final (self) == (Config { extras: final (self).extras, ..*old(self) }),
            old(self).extras is None ==> final (self).extras is None,
            old(self).extras matches Some(e) ==> final (self).extras matches Some(ne)
                && ne@ == e@.filter(|x: Extras| x != extra_to_remove),
    {
        match &self.extras {
            Some(e) => {
                let kept = remove_matching_extra(e, extra_to_remove);
                self.extras = Some(kept);
            },
            None => (),
        }
    }

    /// The configured filter predicates.
    pub fn get_extras(&self) -> (r: Option<&Vec<Extras>>)
        ensures
            r is Some <==> self.extras is Some,
            r is Some ==> *r->0 == self.extras->0,
    {
        match &self.extras {
            Some(e) => Some(e),
            None => None,
        }
    }

    /// Replaces the remote username.
    pub fn update_username(&mut self, username: String)
        ensures
            *final (self) == (Config { vusername: Some(username), ..*old(self) }),
    {
        self.vusername = Some(username);
    }

    /// The remote username, if any.
    pub fn get_username(&self) -> (r: Option<String>)
        ensures
            r.deep_view() == self.vusername.deep_view(),
    {
        match &self.vusername {
            Some(s) => Some(s.clone()),
            None => None,
        }
    }

    /// Replaces the remote password.
    pub fn update_password(&mut self, password: String)
        ensures
            *final (self) == (Config { vpassword: Some(password), ..*old(self) }),
    {
        self.vpassword = Some(password);
    }

    /// The remote password, if any.
    pub fn get_password(&self) -> (r: Option<String>)
        ensures
            r.deep_view() == self.vpassword.deep_view(),
    {
        match &self.vpassword {
            Some(s) => Some(s.clone()),
            None => None,
        }
    }

    /// Subscribes a module: stores its `department:module` descriptor
    /// unless the descriptor is already present or the event list is
    /// uninitialised.
    pub fn add_module(&mut self, module: &str, department: &str) -> (r: Result<(), String>)
        ensures
            old(self).events is None ==> r is Err && *final (self) == *old(self),
            old(self).events matches Some(l) ==> {
                let entry = spec_module_entry(department@, module@);
                &&& *final (self) == (Config { events: final (self).events, ..*old(self) })
                &&& ((exists|i: int| 0 <= i < l@.len() && (#[trigger] l@[i])@ == entry)
                    ==> r is Err && *final (self) == *old(self))
                &&& (!(exists|i: int| 0 <= i < l@.len() && (#[trigger] l@[i])@ == entry)
                    ==> r is Ok && (final (self).events matches Some(nl)
                        && nl.deep_view() == l.deep_view().push(entry)))
            },
    {
        let entry = module_entry(department, module);
        match &mut self.events {
            Some(l) => {
                if contains_string(l, entry.as_str()) {
                    Err(already_exists_message(module, department))
                } else {
                    let ghost before = l.deep_view();
                    l.push(entry);
                    proof {
                        assert(l.deep_view() =~= before.push(
                            spec_module_entry(department@, module@),
                        ));
                    }
                    Ok(())
                }
            },
            None => Err(String::from_str("Events list is not initialized.")),
        }
    }

    /// Unsubscribes a module: removes its descriptor, failing when it
    /// was not subscribed or the event list is uninitialised.
    pub fn remove_module(&mut self, module: &str, department: &str) -> (r: Result<(), String>)
        ensures
            old(self).events is None ==> r is Err && *final (self) == *old(self),
            old(self).events matches Some(l) ==> {
                let entry = spec_module_entry(department@, module@);
                &&& *final (self) == (Config { events: final (self).events, ..*old(self) })
                &&& (!(exists|i: int| 0 <= i < l@.len() && (#[trigger] l@[i])@ == entry)
                    ==> r is Err && *final (self) == *old(self))
                &&& ((exists|i: int| 0 <= i < l@.len() && (#[trigger] l@[i])@ == entry)
                    ==> r is Ok && (final (self).events matches Some(nl)
                        && nl.deep_view() == crate::strutil::spec_remove_string(
                        l.deep_view(),
                        entry,
                    )))
            },
    {
        let entry = module_entry(department, module);
        match &self.events {
            Some(l) => {
                if contains_string(l, entry.as_str()) {
                    let kept = remove_matching_string(l, entry.as_str());
                    self.events = Some(kept);
                    Ok(())
                } else {
                    Err(does_not_exist_message(module, department))
                }
            },
            None => Err(String::from_str("Events list is not initialized.")),
        }
    }

    /// The subscribed event descriptors.
    pub fn get_events(&self) -> (r: Option<&Vec<String>>)
        ensures
            r is Some <==> self.events is Some,
            r is Some ==> *r->0 == self.events->0,
    {
        match &self.events {
            Some(l) => Some(l),
            None => None,
        }
    }
}

/// Chooses the canteen a menu query is answered for: with no number
/// given, the primary canteen; with a one-based number, that entry of
/// the extra-canteen list. Rejects a missing primary, a missing list
/// and an out-of-range number.
pub fn pick_mensa_name(config: &Config, number: Option<i32>) -> (r: Result<String, String>)
    ensures
        number is None ==> (match config.primary_mensa {
            Some(p) => r matches Ok(n) && n@ == p@,
            None => r is Err,
        }),
        number matches Some(k) ==> (match config.mensa_list {
            Some(l) => {
                if 1 <= k && k <= l@.len() {
                    r matches Ok(n) && n@ == (l@[k - 1])@
                } else {
                    r is Err
                }
            },
            None => r is Err,
        }),
{
    match number {
        None => match &config.primary_mensa {
            Some(p) => Ok(p.clone()),
            None => Err(
                String::from_str("Primary Mensa is not set - please set it in the config"),
            ),
        },
        Some(k) => match &config.mensa_list {
            Some(l) => {
                if k < 1 || (k as usize) > l.len() {
                    Err(String::from_str("Invalid mensa number specified."))
                } else {
                    Ok(l[(k - 1) as usize].clone())
                }
            },
            None => Err(String::from_str("No additional mensas configured.")),
        },
    }
}

/// A string with a leading NUL character removed; any other string is
/// returned unchanged.
pub open spec fn spec_strip_leading_null(s: Seq<char>) -> Seq<char> {
    if s.len() > 0 && s[0] == '\0' {
        s.subrange(1, s.len() as int)
    } else {
        s
    }
}

/// Strips one leading NUL character, as stray encodings sometimes
/// prepend to a configuration file.
pub fn strip_leading_null(s: &str) -> (r: String)
    ensures
        r@ == spec_strip_leading_null(s@),
{
    let n = s.unicode_len();
    if n > 0 && s.get_char(0) == '\0' {
        String::from_str(s.substring_char(1, n))
    } else {
        String::from_str(s)
    }
}

/// The names of the configuration file's fields.
#[allow(non_camel_case_types)]
#[derive(Debug, Clone, Copy, PartialEq, Eq, Structural)]
pub enum ConfigName {
    primary_mensa,
    mensa_list,
    occupation,
    extras,
    events,
    vusername,
    vpassword,
}

/// The field name each [`ConfigName`] stands for.
pub open spec fn spec_config_name(n: ConfigName) -> Seq<char> {
    match n {
        ConfigName::primary_mensa => "primary_mensa"@,
        ConfigName::mensa_list => "mensa_list"@,
        ConfigName::occupation => "occupation"@,
        ConfigName::extras => "extras"@,
        ConfigName::events => "events"@,
        ConfigName::vusername => "vusername"@,
        ConfigName::vpassword => "vpassword"@,
    }
}

impl ConfigName {
    /// The field's name as it appears in the configuration file.
    pub fn as_str(&self) -> (r: &str)
        ensures
            r@ == spec_config_name(*self),
    {
        match self {
            ConfigName::primary_mensa => "primary_mensa",
            ConfigName::mensa_list => "mensa_list",
            ConfigName::occupation => "occupation",
            ConfigName::extras => "extras",
            ConfigName::events => "events",
            ConfigName::vusername => "vusername",
            ConfigName::vpassword => "vpassword",
        }
    }
}

/// A string wrapped in double quotes.
pub open spec fn spec_quoted(s: Seq<char>) -> Seq<char> {
    seq!['"'] + s + seq!['"']
}

/// Quoted strings joined by a comma and a space.
pub open spec fn spec_quoted_join(l: Seq<Seq<char>>) -> Seq<char>
    decreases l.len(),
{
    if l.len() == 0 {
        Seq::<char>::empty()
    } else if l.len() == 1 {
        spec_quoted(l[0])
    } else {
        spec_quoted_join(l.drop_last()) + ", "@ + spec_quoted(l.last())
    }
}

/// A quoted optional string; an absent one renders as `null`.
pub open spec fn spec_json_string_field(o: Option<String>) -> Seq<char> {
    match o {
        Some(s) => spec_quoted(s@),
        None => "null"@,
    }
}

/// An optional string list as a bracketed, quoted listing; an absent
/// list renders as `null`, like the absent string fields.
pub open spec fn spec_json_list_field(o: Option<Vec<String>>) -> Seq<char> {
    match o {
        Some(v) => seq!['['] + spec_quoted_join(v.deep_view()) + seq![']'],
        None => "null"@,
    }
}

/// The capitalised spelling the occupation field is written with.
pub open spec fn spec_occupation_field_name(o: Occupations) -> Seq<char> {
    match o {
        Occupations::Student => "Student"@,
        Occupations::Employee => "Employee"@,
        Occupations::Guest => "Guest"@,
    }
}

/// The occupation field: quoted name, or `null` when unset.
pub open spec fn spec_json_occupation_field(o: Option<Occupations>) -> Seq<char> {
    match o {
        Some(oc) => spec_quoted(spec_occupation_field_name(oc)),
        None => "null"@,
    }
}

/// The extras field: a bracketed listing of the predicates' stored
/// spellings, or `null` when unset.
pub open spec fn spec_json_extras_field(o: Option<Vec<Extras>>) -> Seq<char> {
    match o {
        Some(v) => seq!['['] + spec_quoted_join(
            v@.map_values(|e: Extras| crate::extras::spec_extra_name(e)),
        ) + seq![']'],
        None => "null"@,
    }
}

/// The configuration file's whole text for a configuration value.
pub open spec fn spec_config_json(c: Config) -> Seq<char> {
    "{ \n   \"primary_mensa\": "@ + spec_json_string_field(c.primary_mensa)
        + ",\n   \"mensa_list\": "@ + spec_json_list_field(c.mensa_list)
        + ",\n   \"occupation\": "@ + spec_json_occupation_field(c.occupation)
        + ",\n   \"extras\": "@ + spec_json_extras_field(c.extras) + ",\n   \"events\": "@
        + spec_json_list_field(c.events) + ",\n   \"vusername\": "@
        + spec_json_string_field(c.vusername) + ",\n   \"vpassword\": "@
        + spec_json_string_field(c.vpassword) + "\n}"@
}

/// Joins string entries as a quoted, comma-separated listing.
fn quoted_join(v: &Vec<String>) -> (r: String)
    ensures
        r@ == spec_quoted_join(v.deep_view()),
{
    let mut out = String::new();
    let mut i: usize = 0;
    proof {
        assert(out@ =~= spec_quoted_join(v.deep_view().subrange(0, 0)));
    }
    while i < v.len()
        invariant
            0 <= i <= v@.len(),
            v.deep_view().len() == v@.len(),
            forall|j: int| 0 <= j < v@.len() ==> v.deep_view()[j] == (#[trigger] v@[j])@,
            out@ == spec_quoted_join(v.deep_view().subrange(0, i as int)),
        decreases v@.len() - i,
    {
        if i > 0 {
            out.append(", ");
        }
        crate::strutil::push_char(&mut out, '"');
        out.append(v[i].as_str());
        crate::strutil::push_char(&mut out, '"');
        proof {
            let prefix = v.deep_view().subrange(0, i as int);
            let next = v.deep_view().subrange(0, i + 1);
            assert(next.drop_last() =~= prefix);
            assert(next.last() == v@[i as int]@);
            if i == 0 {
                assert(out@ =~= spec_quoted(v@[0]@));
            } else {
                assert(out@ =~= spec_quoted_join(prefix) + ", "@ + spec_quoted(
                    v@[i as int]@,
                ));
            }
        }
        i = i + 1;
    }
    proof {
        assert(v.deep_view().subrange(0, v@.len() as int) =~= v.deep_view());
    }
    out
}

/// Joins predicates as a quoted listing of their stored spellings.
fn quoted_extras_join(v: &Vec<Extras>) -> (r: String)
    ensures
        r@ == spec_quoted_join(v@.map_values(|e: Extras| crate::extras::spec_extra_name(e))),
{
    let ghost names = v@.map_values(|e: Extras| crate::extras::spec_extra_name(e));
    let mut out = String::new();
    let mut i: usize = 0;
    proof {
        assert(out@ =~= spec_quoted_join(names.subrange(0, 0)));
    }
    while i < v.len()
        invariant
            0 <= i <= v@.len(),
            names == v@.map_values(|e: Extras| crate::extras::spec_extra_name(e)),
            names.len() == v@.len(),
            out@ == spec_quoted_join(names.subrange(0, i as int)),
        decreases v@.len() - i,
    {
        if i > 0 {
            out.append(", ");
        }
        crate::strutil::push_char(&mut out, '"');
        out.append(v[i].as_str());
        crate::strutil::push_char(&mut out, '"');
        proof {
            let prefix = names.subrange(0, i as int);
            let next = names.subrange(0, i + 1);
            assert(next.drop_last() =~= prefix);
            assert(next.last() == names[i as int]);
            if i == 0 {
                assert(out@ =~= spec_quoted(names[0]));
            } else {
                assert(out@ =~= spec_quoted_join(prefix) + ", "@ + spec_quoted(
                    names[i as int],
                ));
            }
        }
        i = i + 1;
    }
    proof {
        assert(names.subrange(0, v@.len() as int) =~= names);
    }
    out
}

/// Renders a configuration as its file text. Every field is written
/// on its own line; an absent field renders as `null`, so the text
/// is always well-formed JSON.
#[verifier::rlimit(50)]
pub fn json_file_from_struct(config: &Config) -> (r: String)
    ensures
        r@ == spec_config_json(*config),
{
    let mut out = String::from_str("{ \n   \"primary_mensa\": ");
    append_string_field(&mut out, &config.primary_mensa);
    out.append(",\n   \"mensa_list\": ");
    append_list_field(&mut out, &config.mensa_list);
    out.append(",\n   \"occupation\": ");
    match &config.occupation {
        Some(oc) => {
            crate::strutil::push_char(&mut out, '"');
            match oc {
                Occupations::Student => out.append("Student"),
                Occupations::Employee => out.append("Employee"),
                Occupations::Guest => out.append("Guest"),
            }
            crate::strutil::push_char(&mut out, '"');
        },
        None => out.append("null"),
    }
    out.append(",\n   \"extras\": ");
    match &config.extras {
        Some(v) => {
            crate::strutil::push_char(&mut out, '[');
            out.append(quoted_extras_join(v).as_str());
            crate::strutil::push_char(&mut out, ']');
        },
        None => out.append("null"),
    }
    out.append(",\n   \"events\": ");
    append_list_field(&mut out, &config.events);
    out.append(",\n   \"vusername\": ");
    append_string_field(&mut out, &config.vusername);
    out.append(",\n   \"vpassword\": ");
    append_string_field(&mut out, &config.vpassword);
    out.append("\n}");
    proof {
        assert(out@ =~= spec_config_json(*config));
    }
    out
}

/// Appends a quoted optional string, or `null`.
fn append_string_field(out: &mut String, o: &Option<String>)
    ensures
        final (out)@ == old(out)@ + spec_json_string_field(*o),
{
    match o {
        Some(s) => {
            crate::strutil::push_char(out, '"');
            out.append(s.as_str());
            crate::strutil::push_char(out, '"');
            proof {
                assert(out@ =~= old(out)@ + spec_quoted(s@));
            }
        },
        None => out.append("null"),
    }
}

/// Appends a bracketed string listing, or `null` for an absent one.
fn append_list_field(out: &mut String, o: &Option<Vec<String>>)
    ensures
        final (out)@ == old(out)@ + spec_json_list_field(*o),
{
    match o {
        Some(v) => {
            crate::strutil::push_char(out, '[');
            out.append(quoted_join(v).as_str());
            crate::strutil::push_char(out, ']');
            proof {
                assert(out@ =~= old(out)@ + seq!['['] + spec_quoted_join(v.deep_view())
                    + seq![']']);
            }
        },
        None => out.append("null"),
    }
}

/// The entries of `l` other than the removed predicate, in order.
fn remove_matching_extra(l: &Vec<Extras>, x: Extras) -> (r: Vec<Extras>)
    ensures
        r@ == l@.filter(|e: Extras| e != x),
{
    let ghost pred = |e: Extras| e != x;
    let mut kept: Vec<Extras> = Vec::new();
    let mut i: usize = 0;
    proof {
        reveal(Seq::filter);
        assert(kept@ =~= l@.subrange(0, 0).filter(pred));
    }
    while i < l.len()
        invariant
            0 <= i <= l@.len(),
            kept@ == l@.subrange(0, i as int).filter(pred),
            pred == (|e: Extras| e != x),
        decreases l@.len() - i,
    {
        proof {
            reveal(Seq::filter);
            let prefix = l@.subrange(0, i as int);
            let next = l@.subrange(0, i + 1);
            assert(next.drop_last() =~= prefix);
            assert(next.last() == l@[i as int]);
            assert(next.filter(pred) == if pred(l@[i as int]) {
                prefix.filter(pred).push(l@[i as int])
            } else {
                prefix.filter(pred)
            });
        }
        if !(l[i] == x) {
            kept.push(l[i]);
        }
        i = i + 1;
    }
    proof {
        assert(l@.subrange(0, l@.len() as int) =~= l@);
    }
    kept
}

/// The message reported when a module is subscribed twice.
fn already_exists_message(module: &str, department: &str) -> String {
    let mut out = String::from_str("Module '");
    out.append(module);
    out.append("' in department '");
    out.append(department);
    out.append("' already exists.");
    out
}

/// The message reported when an unsubscribed module is removed.
fn does_not_exist_message(module: &str, department: &str) -> String {
    let mut out = String::from_str("Module '");
    out.append(module);
    out.append("' in department '");
    out.append(department);
    out.append("' does not exist.");
    out
}

} // verus!
