use dominion::{
    expansion_set, gen_setup, Expansion, GenSetupError, ProjectCount, Setup, SetupConfig, KC,
};
use rand::seq::SliceRandom;
use std::collections::HashSet;

fn gen_expansion() -> Expansion {
    let mut rng = rand::thread_rng();

    Expansion::all().choose(&mut rng).unwrap().clone()
}

fn gen_kingdom_card() -> KC {
    let mut rng = rand::thread_rng();

    KC::all().choose(&mut rng).unwrap().clone()
}

fn is_disjoint(left: &[Expansion], right: &[Expansion]) -> bool {
    left.iter().all(|expansion| !right.contains(expansion))
}

#[test]
fn bane_setup_has_the_expected_cards() {
    let others = vec![KC::Chapel, KC::Sentry, KC::YoungWitch];
    let setup = Setup::bane(KC::Bandit, others.clone());

    assert!(setup.cards().contains(&KC::Bandit));
    for other in others {
        assert!(setup.cards().contains(&other));
    }

    assert_eq!(setup.cards().len(), 4);
}

#[test]
fn expansion_set_works_for_some_basic_cases() {
    let militia_expansions = expansion_set(&KC::Militia);

    assert!(militia_expansions.contains(&Expansion::Base1));
    assert!(militia_expansions.contains(&Expansion::Base2));
    assert_eq!(militia_expansions.len(), 2);

    let sentry_expansions = expansion_set(&KC::Sentry);

    assert!(sentry_expansions.contains(&Expansion::Base2));
    assert_eq!(sentry_expansions.len(), 1);
}

#[test]
fn forcing_projects_and_expansions_without_projects_is_incoherrent() {
    let err = gen_setup(SetupConfig {
        include_expansions: Some(vec![Expansion::Base2]),
        project_count: Some(ProjectCount::OneProject),
        include_cards: None,
        ban_cards: None,
        bane_count: None,
    })
    .unwrap_err();

    assert_eq!(err, GenSetupError::CouldNotSatisfyProjectsFromExpansions);
}

#[test]
fn forcing_no_expansions_at_all_is_incoherrent() {
    let err = gen_setup(SetupConfig::including_expansions(Vec::new())).unwrap_err();

    assert_eq!(err, GenSetupError::CouldNotSatisfyKingdomCards);
}

#[test]
fn banned_cards_dont_come_up_in_the_setup() {
    let setup = gen_setup(SetupConfig {
        include_expansions: Some(vec![Expansion::Base2]),
        project_count: None,
        include_cards: None,
        ban_cards: Some(vec![KC::Witch, KC::Militia]),
        bane_count: None,
    })
    .unwrap();

    assert!(!setup.cards().contains(&KC::Witch));
    assert!(!setup.cards().contains(&KC::Militia));
}

#[test]
fn expansion_list_is_respected() {
    let expansion_1 = gen_expansion();
    let expansion_2 = gen_expansion();
    let expansions = vec![expansion_1, expansion_2];
    let setup = gen_setup(SetupConfig::including_expansions(expansions.clone())).unwrap();

    for card in setup.cards() {
        assert!(!is_disjoint(&expansion_set(&card), &expansions))
    }
}

#[test]
fn cards_are_distinct() {
    let setup = gen_setup(SetupConfig::none()).unwrap();

    let cards = setup.cards();
    let card_set: HashSet<_> = cards.iter().collect();

    assert_eq!(cards.len(), card_set.len());
}

#[test]
fn young_witch_implies_an_11th_bane_card() {
    let setup = gen_setup(SetupConfig::including_cards(vec![KC::YoungWitch])).unwrap();

    assert!(&setup.bane_card.is_some());
    assert_eq!(11, setup.cards().len());
}

#[test]
fn no_young_witch_no_bane_card() {
    let setup = gen_setup(SetupConfig {
        include_expansions: Some(vec![Expansion::Cornucopia]),
        project_count: None,
        include_cards: None,
        ban_cards: Some(vec![KC::YoungWitch]),
        bane_count: None,
    })
    .unwrap();

    assert!(&setup.bane_card.is_none());
    assert_eq!(setup.cards().len(), 10);
}

#[test]
fn banned_cards_are_not_included() {
    let banned_card = gen_kingdom_card();
    let setup = gen_setup(SetupConfig {
        include_expansions: Some(expansion_set(&banned_card)),
        project_count: None,
        include_cards: None,
        ban_cards: Some(vec![banned_card.clone()]),
        bane_count: None,
    })
    .unwrap();

    assert!(!setup.cards().contains(&banned_card));
}

#[test]
fn included_cards_are_included() {
    let included_card = gen_kingdom_card();
    let setup = gen_setup(SetupConfig::including_cards(vec![included_card.clone()])).unwrap();

    assert!(setup.cards().contains(&included_card));
}

#[test]
fn included_cards_dont_change_kingdom_size() {
    let mut included_card = gen_kingdom_card();

    while included_card == KC::YoungWitch {
        included_card = gen_kingdom_card();
    }

    let setup = gen_setup(SetupConfig {
        include_expansions: None,
        project_count: None,
        include_cards: Some(vec![included_card.clone()]),
        ban_cards: Some(vec![KC::YoungWitch]),
        bane_count: None,
    })
    .unwrap();

    assert_eq!(setup.cards().len(), 10);
}

#[test]
fn included_cards_need_not_have_their_expansions_included() {
    let included_card = gen_kingdom_card();
    let expansion = gen_expansion();
    let setup = gen_setup(SetupConfig {
        include_expansions: Some(vec![expansion]),
        project_count: None,
        include_cards: Some(vec![included_card.clone()]),
        ban_cards: None,
        bane_count: None,
    })
    .unwrap();

    assert!(setup.cards().contains(&included_card));
}

#[test]
fn cannot_include_more_than_ten_cards() {
    let err = gen_setup(SetupConfig::including_cards(
        KC::all().into_iter().take(11).collect(),
    ))
    .unwrap_err();

    assert_eq!(err, GenSetupError::TooManyCardsIncluded);
}

#[test]
fn card_bans_and_includes_cannot_intersect() {
    let card = gen_kingdom_card();
    let err = gen_setup(SetupConfig {
        include_expansions: None,
        project_count: None,
        include_cards: Some(vec![card.clone()]),
        ban_cards: Some(vec![card.clone()]),
        bane_count: None,
    })
    .unwrap_err();

    assert_eq!(
        err,
        GenSetupError::IntersectingCardBansAndIncludes(vec![card])
    );
}

#[test]
fn bans_can_make_kingdom_cards_incoherent() {
    let err = gen_setup(SetupConfig {
        include_expansions: None,
        project_count: None,
        include_cards: None,
        ban_cards: Some(KC::all()),
        bane_count: None,
    })
    .unwrap_err();

    assert_eq!(err, GenSetupError::CouldNotSatisfyKingdomCards);
}

#[test]
fn bans_can_make_bane_card_incoherent() {
    let err = gen_setup(SetupConfig {
        include_expansions: Some(vec![Expansion::Cornucopia]),
        project_count: None,
        include_cards: None,
        // We have enough kingdom cards but not enough to pick a bane card
        ban_cards: Some(vec![KC::Hamlet, KC::FortuneTeller, KC::Menagerie]),
        bane_count: None,
    })
    .unwrap_err();

    assert_eq!(err, GenSetupError::CouldNotSatisfyBaneCard);
}
