use dominion::{
    gen_setup, BaneCard, BaneCount, BaseCost, Expansion, Expansions, GenSetupError, ProjectCount,
    Setup, SetupConfig, KC,
};
use std::collections::HashSet;

const ROUNDS: usize = 200;

fn config(bane_count: Option<BaneCount>) -> SetupConfig {
    SetupConfig {
        include_expansions: Some(vec![Expansion::Cornucopia, Expansion::Seaside]),
        ban_cards: Some(vec![KC::Hamlet, KC::Jester]),
        include_cards: Some(vec![KC::Witch, KC::Moat, KC::Witch]),
        project_count: None,
        bane_count,
    }
}

fn assert_valid(setup: &Setup) {
    let kingdom: HashSet<KC> = setup.kingdom_cards.iter().cloned().collect();
    assert_eq!(setup.kingdom_cards.len(), 10);
    assert_eq!(kingdom.len(), 10);

    let tagged: HashSet<KC> = setup.bane_cards.iter().map(|pair| pair.0).collect();
    let tags: HashSet<BaneCard> = setup.bane_cards.iter().map(|pair| pair.1).collect();
    assert_eq!(tagged.len(), setup.bane_cards.len());
    assert_eq!(tags.len(), setup.bane_cards.len());
    assert!(tagged.is_subset(&kingdom));

    assert_eq!(
        setup.bane_card.is_some(),
        kingdom.contains(&KC::YoungWitch)
    );
    if let Some(bane) = setup.bane_card {
        assert!(bane.base_cost() == 2 || bane.base_cost() == 3);
        assert!(!kingdom.contains(&bane));
        assert!(!tagged.contains(&bane));
        assert_eq!(setup.cards().len(), 11);
    } else {
        assert_eq!(setup.cards().len(), 10);
    }

    assert_eq!(
        setup.second_zebra.is_some(),
        tags.contains(&BaneCard::Zebra)
    );
    if let Some(zebra) = setup.second_zebra {
        assert!(!kingdom.contains(&zebra));
        assert_ne!(setup.bane_card, Some(zebra));
    }

    let projects: HashSet<_> = setup.project_cards.iter().cloned().collect();
    assert_eq!(projects.len(), setup.project_cards.len());
}

#[test]
fn generated_setups_keep_every_invariant() {
    for _ in 0..ROUNDS {
        match gen_setup(SetupConfig {
            bane_count: Some(BaneCount::ThreeBanes),
            ..SetupConfig::none()
        }) {
            Ok(setup) => assert_valid(&setup),
            Err(err) => assert_eq!(err, GenSetupError::CouldNotSatisfySecondZebra),
        }
    }
}

#[test]
fn generated_setups_follow_the_request() {
    let wanted = [Expansion::Cornucopia, Expansion::Seaside];
    for _ in 0..ROUNDS {
        let setup = gen_setup(config(Some(BaneCount::TwoBanes))).unwrap();
        assert_valid(&setup);

        assert!(setup.kingdom_cards.contains(&KC::Witch));
        assert!(setup.kingdom_cards.contains(&KC::Moat));
        for card in setup.cards().into_iter().chain(setup.second_zebra) {
            assert!(card != KC::Hamlet && card != KC::Jester);
            if card != KC::Witch && card != KC::Moat {
                assert!(card.expansions().iter().any(|e| wanted.contains(e)));
            }
        }
        assert_eq!(setup.bane_cards.len(), 2);
        assert!(setup.project_cards.is_empty());
    }
}

#[test]
fn forced_cards_come_last_in_request_order_each_once() {
    let setup = gen_setup(config(None)).unwrap();

    assert_eq!(setup.kingdom_cards[8..], [KC::Witch, KC::Moat]);
}

#[test]
fn bane_count_decides_the_number_of_tags() {
    let counts = [
        (None, 0),
        (Some(BaneCount::NoBanes), 0),
        (Some(BaneCount::OneBane), 1),
        (Some(BaneCount::TwoBanes), 2),
        (Some(BaneCount::ThreeBanes), 3),
    ];
    for (bane_count, expected) in counts {
        assert_eq!(bane_count.map_or(0, |count| count.count()), expected);
        for _ in 0..20 {
            match gen_setup(SetupConfig {
                bane_count,
                ban_cards: Some(vec![KC::YoungWitch]),
                ..SetupConfig::none()
            }) {
                Ok(setup) => assert_eq!(setup.bane_cards.len(), expected),
                Err(err) => panic!("a kingdom with spare cards failed: {:?}", err),
            }
        }
    }
}

#[test]
fn project_count_decides_the_number_of_projects() {
    let counts = [
        (ProjectCount::NoProjects, 0),
        (ProjectCount::OneProject, 1),
        (ProjectCount::TwoProjects, 2),
    ];
    for (project_count, expected) in counts {
        assert_eq!(project_count.count(), expected);
        let setup = gen_setup(SetupConfig {
            project_count: Some(project_count),
            ..SetupConfig::none()
        })
        .unwrap();
        assert_eq!(setup.project_cards.len(), expected);
    }
}

#[test]
fn open_project_count_stays_below_three() {
    let mut seen = HashSet::new();
    for _ in 0..ROUNDS {
        let setup = gen_setup(SetupConfig::none()).unwrap();
        assert!(setup.project_cards.len() < 3);
        seen.insert(setup.project_cards.len());
    }
    assert!(seen.len() > 1);
}

#[test]
fn shuffling_changes_the_kingdom() {
    let kingdoms: HashSet<Vec<KC>> = (0..20)
        .map(|_| gen_setup(SetupConfig::none()).unwrap().kingdom_cards)
        .collect();

    assert!(kingdoms.len() > 1);
    assert!(kingdoms.iter().any(|kingdom| kingdom[..] != KC::all()[..10]));
}

#[test]
fn tags_are_chosen_anew_each_time() {
    let tagged: HashSet<Vec<(KC, BaneCard)>> = (0..20)
        .map(|_| {
            gen_setup(SetupConfig {
                bane_count: Some(BaneCount::OneBane),
                ban_cards: Some(vec![KC::YoungWitch]),
                ..SetupConfig::none()
            })
            .unwrap()
            .bane_cards
        })
        .collect();

    assert!(tagged.len() > 1);
}

#[test]
fn zebra_without_spare_cards_fails() {
    // Ten cards of Cornucopia are left: the kingdom uses the pool up.
    let mut failures = 0;
    for _ in 0..ROUNDS {
        match gen_setup(SetupConfig {
            include_expansions: Some(vec![Expansion::Cornucopia]),
            ban_cards: Some(vec![KC::YoungWitch, KC::Hamlet, KC::Jester]),
            include_cards: None,
            project_count: None,
            bane_count: Some(BaneCount::ThreeBanes),
        }) {
            Ok(setup) => assert_eq!(setup.second_zebra, None),
            Err(err) => {
                assert_eq!(err, GenSetupError::CouldNotSatisfySecondZebra);
                failures += 1;
            }
        }
    }
    assert!(failures > 0);
}

#[test]
fn forced_young_witch_without_bane_worthy_cards_fails() {
    let cheap: Vec<KC> = KC::all()
        .into_iter()
        .filter(|card| card.base_cost() <= 3)
        .collect();
    let err = gen_setup(SetupConfig {
        ban_cards: Some(cheap),
        include_cards: Some(vec![KC::YoungWitch]),
        ..SetupConfig::none()
    })
    .unwrap_err();

    assert_eq!(err, GenSetupError::CouldNotSatisfyBaneCard);
}

#[test]
fn overlap_is_reported_whole_and_before_anything_else() {
    let err = gen_setup(SetupConfig {
        include_expansions: Some(Vec::new()),
        ban_cards: Some(vec![KC::Moat, KC::Witch, KC::Moat, KC::Mine]),
        include_cards: Some(KC::all()),
        project_count: Some(ProjectCount::TwoProjects),
        bane_count: None,
    })
    .unwrap_err();

    assert_eq!(
        err,
        GenSetupError::IntersectingCardBansAndIncludes(vec![KC::Moat, KC::Witch, KC::Mine])
    );
}

#[test]
fn eleven_forced_cards_fail_before_projects_and_expansions_are_looked_at() {
    let err = gen_setup(SetupConfig {
        include_expansions: Some(Vec::new()),
        ban_cards: None,
        include_cards: Some(KC::all().into_iter().take(11).collect()),
        project_count: Some(ProjectCount::TwoProjects),
        bane_count: None,
    })
    .unwrap_err();

    assert_eq!(err, GenSetupError::TooManyCardsIncluded);
}

#[test]
fn ten_forced_cards_repeated_are_not_too_many() {
    let mut cards: Vec<KC> = KC::all().into_iter().take(10).collect();
    cards.extend(cards.clone());
    let setup = gen_setup(SetupConfig {
        include_expansions: Some(Vec::new()),
        ban_cards: None,
        include_cards: Some(cards),
        project_count: None,
        bane_count: None,
    })
    .unwrap();

    assert_eq!(setup.kingdom_cards[..], KC::all()[..10]);
    assert!(setup.project_cards.is_empty());
}

#[test]
fn missing_projects_are_reported_before_missing_cards() {
    let err = gen_setup(SetupConfig {
        include_expansions: Some(Vec::new()),
        ban_cards: None,
        include_cards: None,
        project_count: Some(ProjectCount::OneProject),
        bane_count: None,
    })
    .unwrap_err();

    assert_eq!(err, GenSetupError::CouldNotSatisfyProjectsFromExpansions);
}

#[test]
fn including_the_young_witch_gives_eleven_cards_and_a_cheap_bane() {
    for _ in 0..ROUNDS {
        let setup = gen_setup(SetupConfig::including_cards(vec![KC::YoungWitch])).unwrap();
        let bane = setup.bane_card.unwrap();

        assert!(bane.base_cost() == 2 || bane.base_cost() == 3);
        assert_eq!(setup.cards().len(), 11);
        assert_eq!(setup.cards()[10], bane);
    }
}
