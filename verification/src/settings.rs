//! The compact settings record and its predicate set.
//!
//! Beside the full configuration of [`crate::config`], the
//! application keeps a smaller settings record with its own, shorter
//! list of filter predicates. Its file handling stays with the
//! caller; this module holds the pure updates and the filter entry
//! points working on this predicate set.

use vstd::prelude::*;

use crate::extras::Occupations;
use crate::meal::Contents;
use crate::meal::Meal;

verus! {

/// The settings record's filter predicates.
#[derive(Debug, Clone, Copy, PartialEq, Eq, Structural)]
pub enum Extras {
    /// Inclusive: keep records flagged vegan.
    Vegan,
    /// Inclusive: keep records flagged vegetarian.
    Vegetarisch,
    /// Inclusive: keep records flagged lactose-free.
    LactoseFree,
    /// Exclusive: drop records containing alcohol.
    AlcoholFree,
    /// Exclusive: drop records containing beef.
    BeefFree,
    /// Exclusive: drop records containing fish.
    FishFree,
}

/// Whether a record with flags `c` satisfies the settings predicate
/// `e`.
pub open spec fn spec_matches_setting(c: Contents, e: Extras) -> bool {
    match e {
        Extras::Vegan => c.vegan,
        Extras::Vegetarisch => c.vegetarian,
        Extras::LactoseFree => c.lactose_free,
        Extras::AlcoholFree => !c.alcohol,
        Extras::BeefFree => !c.beef,
        Extras::FishFree => !c.fish,
    }
}

/// A record survives exactly when it matches every predicate.
pub open spec fn spec_matches_all_settings(c: Contents, es: Seq<Extras>) -> bool {
    forall|i: int| 0 <= i < es.len() ==> spec_matches_setting(c, es[i])
}

/// What filtering a batch by these predicates returns.
pub open spec fn spec_filter_settings(batch: Seq<Meal>, es: Seq<Extras>) -> Seq<Meal> {
    batch.filter(|m: Meal| spec_matches_all_settings(m.contents, es))
}

/// Whether one record passes every configured predicate; with no
/// predicates configured every record passes.
pub fn filter_food_by_extras_single(food: &Meal, extras: &Vec<Extras>) -> (r: bool)
    ensures
        r == spec_matches_all_settings(food.contents, extras@),
{
    let mut i: usize = 0;
    while i < extras.len()
        invariant
            0 <= i <= extras@.len(),
            forall|j: int| 0 <= j < i ==> spec_matches_setting(food.contents, extras@[j]),
        decreases extras@.len() - i,
    {
        if !matches_setting(&food.contents, &extras[i]) {
            assert(!spec_matches_setting(food.contents, extras@[i as int]));
            return false;
        }
        i = i + 1;
    }
    true
}

/// Evaluates one settings predicate against a record's flags.
pub fn matches_setting(c: &Contents, e: &Extras) -> (r: bool)
    ensures
        r == spec_matches_setting(*c, *e),
{
    match e {
        Extras::Vegan => c.vegan,
        Extras::Vegetarisch => c.vegetarian,
        Extras::LactoseFree => c.lactose_free,
        Extras::AlcoholFree => !c.alcohol,
        Extras::BeefFree => !c.beef,
        Extras::FishFree => !c.fish,
    }
}

/// Narrows a batch to the records passing every configured
/// predicate, keeping the batch's order.
pub fn filter_food_by_extras(food: Vec<Meal>, extras: &Vec<Extras>) -> (r: Vec<Meal>)
    ensures
        r@ == spec_filter_settings(food@, extras@),
{
    let ghost orig: Seq<Meal> = food@;
    let ghost pred = |m: Meal| spec_matches_all_settings(m.contents, extras@);
    let mut remaining = food;
    let mut kept: Vec<Meal> = Vec::new();
    proof {
        reveal(Seq::filter);
        assert(kept@ =~= orig.subrange(0, 0).filter(pred));
        assert(remaining@ =~= orig.subrange(0, orig.len() as int));
    }
    while remaining.len() > 0
        invariant
            remaining@.len() <= orig.len(),
            remaining@ == orig.subrange(orig.len() - remaining@.len(), orig.len() as int),
            kept@ == orig.subrange(0, orig.len() - remaining@.len()).filter(pred),
            pred == (|m: Meal| spec_matches_all_settings(m.contents, extras@)),
        decreases remaining@.len(),
    {
        let ghost done: int = orig.len() - remaining@.len();
        let m = remaining.remove(0);
        proof {
            assert(m == orig[done]);
            assert(remaining@ =~= orig.subrange(done + 1, orig.len() as int));
            let prefix = orig.subrange(0, done);
            let next = orig.subrange(0, done + 1);
            assert(next.drop_last() =~= prefix);
            assert(next.last() == m);
            reveal(Seq::filter);
            assert(next.filter(pred) == if pred(m) {
                prefix.filter(pred).push(m)
            } else {
                prefix.filter(pred)
            });
        }
        if filter_food_by_extras_single(&m, extras) {
            kept.push(m);
        }
    }
    proof {
        assert(orig.subrange(0, orig.len() as int) =~= orig);
    }
    kept
}

/// The settings record persisted beside the full configuration.
#[derive(Debug)]
pub struct Config {
    pub primary_mensa: Option<String>,
    pub mensa_list: Option<Vec<String>>,
    pub occupation: Option<Occupations>,
    pub extras: Option<Vec<Extras>>,
}

impl Config {
    /// Empty settings: no primary canteen, empty lists, no
    /// occupation.
    pub fn new() -> (r: Config)
        ensures
            r.primary_mensa is None,
            r.mensa_list matches Some(l) && l@.len() == 0,
            r.occupation is None,
            r.extras matches Some(e) && e@.len() == 0,
    {
        Config {
            primary_mensa: None,
            mensa_list: Some(Vec::new()),
            occupation: None,
            extras: Some(Vec::new()),
        }
    }
}

/// The settings a first run starts from: the central canteen as
/// primary, a student occupation, and a vegan, lactose-free filter.
pub fn new_config() -> (r: Config)
    ensures
        r.primary_mensa matches Some(p) && p@ == "Berliner Tor"@,
        r.mensa_list is None,
        r.occupation == Some(Occupations::Student),
        r.extras matches Some(e) && e@ == seq![Extras::Vegan, Extras::LactoseFree],
{
    let mut extra_vec: Vec<Extras> = Vec::new();
    extra_vec.push(Extras::Vegan);
    extra_vec.push(Extras::LactoseFree);
    proof {
        assert(extra_vec@ =~= seq![Extras::Vegan, Extras::LactoseFree]);
    }
    Config {
        primary_mensa: Some(String::from_str("Berliner Tor")),
        mensa_list: None,
        occupation: Some(Occupations::Student),
        extras: Some(extra_vec),
    }
}

/// Appends a canteen to the settings' list; when no list exists yet,
/// an empty one is created (and the name is not retained).
pub fn add_mensa(config: &mut Config, mensa: String)
    ensures
        *final (config) == (Config { mensa_list: final (config).mensa_list, ..*old(config) }),
        old(config).mensa_list matches Some(l) ==> (final (config).mensa_list matches Some(nl)
            && nl@ == l@.push(mensa)),
        old(config).mensa_list is None ==> (final (config).mensa_list matches Some(nl)
            && nl@.len() == 0),
{
    match &mut config.mensa_list {
        Some(list) => {
            list.push(mensa);
        },
        None => {
            config.mensa_list = Some(Vec::new());
        },
    }
}

/// Replaces the settings' occupation.
pub fn set_occupation(config: &mut Config, occupation: Occupations)
    ensures
        *final (config) == (Config { occupation: Some(occupation), ..*old(config) }),
{
    config.occupation = Some(occupation);
}

/// Replaces the settings' primary canteen.
pub fn set_primary_mensa(config: &mut Config, primary_mensa: String)
    ensures
        *final (config) == (Config { primary_mensa: Some(primary_mensa), ..*old(config) }),
{
    config.primary_mensa = Some(primary_mensa);
}

/// How [`set_extras`] folds new predicates into the stored ones: a
/// predicate of the input is appended only when the list already
/// holds it, so only repetitions of stored predicates accumulate.
pub open spec fn spec_accumulate_extras(base: Seq<Extras>, more: Seq<Extras>) -> Seq<Extras>
    decreases more.len(),
{
    if more.len() == 0 {
        base
    } else {
        let grown = if base.contains(more[0]) {
            base.push(more[0])
        } else {
            base
        };
        spec_accumulate_extras(grown, more.drop_first())
    }
}

/// Folds the given predicates into the stored ones (starting from an
/// empty list when none are stored).
pub fn set_extras(config: &mut Config, extras: Vec<Extras>)
    ensures
        *final (config) == (Config { extras: final (config).extras, ..*old(config) }),
        final (config).extras matches Some(ne) && ne@ == spec_accumulate_extras(
            match old(config).extras {
                Some(e) => e@,
                None => Seq::<Extras>::empty(),
            },
            extras@,
        ),
{
    let mut conf_ex: Vec<Extras> = Vec::new();
    match &config.extras {
        Some(e) => {
            let mut k: usize = 0;
            while k < e.len()
                invariant
                    0 <= k <= e@.len(),
                    conf_ex@ == e@.subrange(0, k as int),
                decreases e@.len() - k,
            {
                conf_ex.push(e[k]);
                proof {
                    assert(e@.subrange(0, k + 1) =~= e@.subrange(0, k as int).push(
                        e@[k as int],
                    ));
                }
                k = k + 1;
            }
            proof {
                assert(e@.subrange(0, e@.len() as int) =~= e@);
            }
        },
        None => (),
    }
    let ghost base0 = conf_ex@;
    let mut i: usize = 0;
    proof {
        assert(extras@.subrange(0, extras@.len() as int) =~= extras@);
    }
    while i < extras.len()
        invariant
            0 <= i <= extras@.len(),
            spec_accumulate_extras(conf_ex@, extras@.subrange(i as int, extras@.len() as int))
                == spec_accumulate_extras(base0, extras@),
        decreases extras@.len() - i,
    {
        let ghost rest = extras@.subrange(i as int, extras@.len() as int);
        proof {
            assert(rest.len() > 0);
            assert(rest[0] == extras@[i as int]);
            assert(rest.drop_first() =~= extras@.subrange(i + 1, extras@.len() as int));
        }
        if contains_extra(&conf_ex, extras[i]) {
            conf_ex.push(extras[i]);
        }
        i = i + 1;
    }
    proof {
        assert(extras@.subrange(extras@.len() as int, extras@.len() as int)
            =~= Seq::<Extras>::empty());
    }
    config.extras = Some(conf_ex);
}

/// Whether the list holds the given predicate.
fn contains_extra(l: &Vec<Extras>, x: Extras) -> (r: bool)
    ensures
        r == l@.contains(x),
{
    let mut i: usize = 0;
    while i < l.len()
        invariant
            0 <= i <= l@.len(),
            forall|j: int| 0 <= j < i ==> l@[j] != x,
        decreases l@.len() - i,
    {
        if l[i] == x {
            return true;
        }
        i = i + 1;
    }
    false
}

} // verus!
