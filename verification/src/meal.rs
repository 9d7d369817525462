//! Menu records and their content flags.
//!
//! A meal carries a fixed set of boolean content flags
//! ([`Contents`]); the filter pipeline consults only those flags.
//! Prices and presentation belong to the surrounding application, not
//! to the cache and filter core, so they do not appear here.

use vstd::prelude::*;

use crate::date::Date;
use crate::extras::Extras;
use crate::filter;

verus! {

/// Identifies one menu partition: a canteen on a calendar date.
#[derive(Debug, PartialEq, Eq, Hash)]
pub struct Meta {
    pub canteen: String,
    pub date: Date,
}

/// The fixed set of boolean content flags a record carries. The
/// cache layer never interprets them; only the filter pipeline does.
#[derive(Debug, Clone, Copy, PartialEq, Eq, Default, Structural)]
pub struct Contents {
    pub alcohol: bool,
    pub beef: bool,
    pub fish: bool,
    pub game: bool,
    pub gelatine: bool,
    pub lactose_free: bool,
    pub lamb: bool,
    pub pig: bool,
    pub poultry: bool,
    pub vegan: bool,
    pub vegetarian: bool,
}

/// One menu record of a partition.
#[derive(Debug, PartialEq)]
pub struct Meal {
    pub name: String,
    pub category: String,
    pub date: Date,
    pub additives: Vec<String>,
    pub contents: Contents,
}

impl Meal {
    /// The record's content flags.
    pub fn get_contents(&self) -> (r: &Contents)
        ensures
            *r == self.contents,
    {
        &self.contents
    }

    /// Whether this record satisfies every predicate in `extras`.
    pub fn filter_food_by_extras_single(food: &Meal, extras: &Vec<Extras>) -> (r: bool)
        ensures
            r == filter::spec_matches_all(food.contents, extras@),
    {
        filter::matches_all_extras(&food.contents, extras)
    }

    /// Whether this record satisfies the single predicate `extra`.
    pub fn filter_food_by_extra(food: &Meal, extra: &Extras) -> (r: bool)
        ensures
            r == crate::extras::spec_matches_extra(food.contents, *extra),
    {
        crate::extras::matches_extra(&food.contents, extra)
    }

    /// Narrows a batch to the records that satisfy every predicate,
    /// keeping the batch's order.
    pub fn filter_food_by_extras(foods: Vec<Meal>, extras: &Vec<Extras>) -> (r: Vec<Meal>)
        ensures
            r@ == filter::spec_filter_batch(foods@, extras@),
    {
        filter::filter_batch(foods, extras)
    }
}

} // verus!
