use calendarbot::date::Date;
use calendarbot::extras::Extras;
use calendarbot::meal::Contents;
use calendarbot::meal::Meal;

fn standard_meal() -> Meal {
    Meal {
        name: "Testgericht".to_string(),
        date: Date::new(2025, 6, 1).unwrap(),
        category: "Hauptgericht".to_string(),
        additives: Vec::new(),
        contents: Contents {
            alcohol: false,
            beef: false,
            fish: false,
            game: false,
            gelatine: false,
            vegetarian: true,
            vegan: true,
            lactose_free: false,
            lamb: false,
            pig: false,
            poultry: false,
        },
    }
}

#[test]
fn test_filter_food_by_extras() {
    // arrange
    let meal = standard_meal();
    let mut meal2 = standard_meal();
    meal2.name = "Nicht veganes Gericht".to_string();
    meal2.contents.alcohol = true;
    meal2.contents.beef = true;
    meal2.contents.vegetarian = false;
    meal2.contents.vegan = false;
    let extras = vec![Extras::Vegan, Extras::Vegetarian];

    // act
    let filtered_meals = Meal::filter_food_by_extras(vec![meal, meal2], &extras);

    // assert
    assert_eq!(filtered_meals.len(), 1, "Filtered meals count does not match expected");
}

#[test]
fn test_filter_food_by_extras_single() {
    // arrange
    let meal = standard_meal();
    let extras = vec![Extras::Vegan];
    let result = Meal::filter_food_by_extras_single(&meal, &extras);
    assert!(result, "Meal should match the vegan extra filter");
    let non_matching_extras = vec![Extras::Alcohol];

    // act
    let result_non_matching = Meal::filter_food_by_extras_single(&meal, &non_matching_extras);

    // assert
    assert!(!result_non_matching, "Meal should not match the alcohol extra filter");
}

#[test]
fn test_empty_extras() {
    // arrange
    let meal = standard_meal();
    let extras = vec![];

    // act
    let result = Meal::filter_food_by_extras_single(&meal, &extras);

    // assert
    assert!(result, "Meal should match when no extras are specified");
}

#[test]
fn test_negative_extras() {
    // arrange
    let mut meal = standard_meal();
    meal.contents.alcohol = true;
    meal.contents.fish = true;
    meal.contents.vegetarian = false;
    meal.contents.vegan = false;
    let extras = vec![Extras::Fish];

    // act
    let result = Meal::filter_food_by_extras_single(&meal, &extras);

    // assert
    assert!(!result, "Meal should not match the fish-free extra filter");
}

fn named_meal(name: &str, contents: Contents) -> Meal {
    Meal {
        name: name.to_string(),
        date: Date::new(2025, 6, 1).unwrap(),
        category: "Hauptgericht".to_string(),
        additives: Vec::new(),
        contents,
    }
}

fn plain_contents() -> Contents {
    Contents {
        alcohol: false,
        beef: false,
        fish: false,
        game: false,
        gelatine: false,
        lactose_free: false,
        lamb: false,
        pig: false,
        poultry: false,
        vegan: false,
        vegetarian: false,
    }
}

#[test]
fn inclusive_vegan_keeps_exactly_the_vegan_records() {
    let vegan = named_meal("vegan", Contents { vegan: true, ..plain_contents() });
    let not_vegan = named_meal("not vegan", plain_contents());
    let also_vegan = named_meal("also vegan", Contents { vegan: true, ..plain_contents() });

    let out = Meal::filter_food_by_extras(
        vec![vegan, not_vegan, also_vegan],
        &vec![Extras::Vegan],
    );

    assert_eq!(out.len(), 2);
    assert_eq!(out[0].name, "vegan");
    assert_eq!(out[1].name, "also vegan");
    assert!(out.iter().all(|m| m.contents.vegan));
}

#[test]
fn exclusive_beef_free_drops_exactly_the_beef_records() {
    let with_beef = named_meal("beef", Contents { beef: true, ..plain_contents() });
    let without_beef = named_meal("no beef", plain_contents());

    let out = Meal::filter_food_by_extras(vec![with_beef, without_beef], &vec![
        Extras::BeefFree,
    ]);

    assert_eq!(out.len(), 1);
    assert_eq!(out[0].name, "no beef");
}

#[test]
fn intersection_of_two_predicates_keeps_only_records_satisfying_both() {
    let a = named_meal(
        "A",
        Contents { vegan: true, lactose_free: true, ..plain_contents() },
    );
    let b = named_meal("B", Contents { vegan: true, ..plain_contents() });
    let c = named_meal("C", Contents { lactose_free: true, ..plain_contents() });

    let out = Meal::filter_food_by_extras(vec![a, b, c], &vec![
        Extras::Vegan,
        Extras::LactoseFree,
    ]);

    assert_eq!(out.len(), 1);
    assert_eq!(out[0].name, "A");
}

#[test]
fn empty_predicate_list_returns_the_batch_unchanged() {
    let batch = vec![
        named_meal("one", Contents { beef: true, ..plain_contents() }),
        named_meal("two", plain_contents()),
        named_meal("three", Contents { vegan: true, ..plain_contents() }),
    ];
    let expected = vec![
        named_meal("one", Contents { beef: true, ..plain_contents() }),
        named_meal("two", plain_contents()),
        named_meal("three", Contents { vegan: true, ..plain_contents() }),
    ];

    let out = Meal::filter_food_by_extras(batch, &vec![]);

    assert_eq!(out, expected);
}

#[test]
fn filtering_preserves_the_original_order() {
    let batch = vec![
        named_meal("k1", Contents { vegan: true, ..plain_contents() }),
        named_meal("d1", plain_contents()),
        named_meal("k2", Contents { vegan: true, ..plain_contents() }),
        named_meal("d2", plain_contents()),
        named_meal("k3", Contents { vegan: true, ..plain_contents() }),
    ];

    let out = Meal::filter_food_by_extras(batch, &vec![Extras::Vegan]);

    let names: Vec<&str> = out.iter().map(|m| m.name.as_str()).collect();
    assert_eq!(names, vec!["k1", "k2", "k3"]);
}

#[test]
fn unknown_extra_drops_nothing() {
    let batch = vec![
        named_meal("one", Contents { beef: true, ..plain_contents() }),
        named_meal("two", plain_contents()),
    ];

    let out = Meal::filter_food_by_extras(batch, &vec![Extras::Unknown]);

    assert_eq!(out.len(), 2);
}

#[test]
fn single_record_check_agrees_with_each_flag() {
    let meal = named_meal(
        "mixed",
        Contents { vegan: true, gelatine: true, ..plain_contents() },
    );
    assert!(Meal::filter_food_by_extra(&meal, &Extras::Vegan));
    assert!(!Meal::filter_food_by_extra(&meal, &Extras::GelatineFree));
    assert!(Meal::filter_food_by_extra(&meal, &Extras::PigFree));
    assert!(!Meal::filter_food_by_extra(&meal, &Extras::Alcohol));
    assert_eq!(*meal.get_contents(), meal.contents);
}
