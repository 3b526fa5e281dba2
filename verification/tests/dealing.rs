use dominion::generator::{complete_setup, deal_kingdom, Deal, Dealing};
use dominion::{BaneCard, GenSetupError, Project, KC};

fn dealt(dealing: Dealing) -> Deal {
    match dealing {
        Dealing::Dealt(deal) => deal,
        other => panic!("no kingdom was dealt: {:?}", other),
    }
}

fn ten_costly_cards() -> Vec<KC> {
    vec![
        KC::Market,
        KC::Militia,
        KC::Mine,
        KC::Smithy,
        KC::Witch,
        KC::Bandit,
        KC::Library,
        KC::Festival,
        KC::Gardens,
        KC::Remodel,
    ]
}

#[test]
fn deal_fills_the_free_places_from_the_front() {
    let forced = vec![KC::Witch, KC::Moat];
    let mut shuffled = ten_costly_cards();
    shuffled.retain(|card| *card != KC::Witch);

    let deal = dealt(deal_kingdom(&forced, &shuffled));

    assert_eq!(
        deal.kingdom_cards,
        vec![
            KC::Market,
            KC::Militia,
            KC::Mine,
            KC::Smithy,
            KC::Bandit,
            KC::Library,
            KC::Festival,
            KC::Gardens,
            KC::Witch,
            KC::Moat,
        ]
    );
    assert_eq!(deal.bane_card, None);
    assert_eq!(deal.spare, vec![KC::Remodel]);
}

#[test]
fn deal_of_a_pool_used_up_leaves_nothing_spare() {
    let deal = dealt(deal_kingdom(&Vec::new(), &ten_costly_cards()));

    assert_eq!(deal.kingdom_cards, ten_costly_cards());
    assert_eq!(deal.bane_card, None);
    assert!(deal.spare.is_empty());
}

#[test]
fn deal_takes_the_first_left_over_card_of_cost_two_or_three_as_bane() {
    let forced = vec![KC::YoungWitch];
    let mut shuffled = ten_costly_cards();
    shuffled.truncate(9);
    // Laboratory costs 5, Chapel 2, Village 3, Duke 5.
    shuffled.extend([KC::Laboratory, KC::Chapel, KC::Village, KC::Duke]);

    let deal = dealt(deal_kingdom(&forced, &shuffled));

    assert_eq!(deal.kingdom_cards.len(), 10);
    assert_eq!(deal.kingdom_cards[9], KC::YoungWitch);
    assert_eq!(deal.bane_card, Some(KC::Chapel));
    assert_eq!(deal.spare, vec![KC::Village, KC::Duke]);
}

#[test]
fn deal_finds_the_young_witch_among_the_dealt_cards() {
    let mut shuffled = ten_costly_cards();
    shuffled[3] = KC::YoungWitch;
    shuffled.push(KC::Village);

    let deal = dealt(deal_kingdom(&Vec::new(), &shuffled));

    assert_eq!(deal.bane_card, Some(KC::Village));
    assert!(deal.spare.is_empty());
}

#[test]
fn deal_is_dealt_again_when_only_the_kingdom_holds_a_bane_worthy_card() {
    let forced = vec![KC::YoungWitch];
    let mut shuffled = ten_costly_cards();
    shuffled.truncate(9);
    shuffled[0] = KC::Chapel;
    shuffled.push(KC::Duke);

    assert!(matches!(deal_kingdom(&forced, &shuffled), Dealing::Redeal));
}

#[test]
fn deal_fails_when_no_card_anywhere_is_bane_worthy() {
    let forced = vec![KC::YoungWitch];
    let mut shuffled = ten_costly_cards();
    shuffled.truncate(9);
    shuffled.push(KC::Duke);

    assert!(matches!(
        deal_kingdom(&forced, &shuffled),
        Dealing::Failed(GenSetupError::CouldNotSatisfyBaneCard)
    ));
}

#[test]
fn deal_fails_when_the_pool_is_too_small() {
    let mut shuffled = ten_costly_cards();
    shuffled.truncate(8);

    assert!(matches!(
        deal_kingdom(&vec![KC::Moat], &shuffled),
        Dealing::Failed(GenSetupError::CouldNotSatisfyKingdomCards)
    ));
}

#[test]
fn deal_fails_when_more_than_ten_cards_are_forced() {
    let mut forced = ten_costly_cards();
    forced.push(KC::Moat);

    assert!(matches!(
        deal_kingdom(&forced, &Vec::new()),
        Dealing::Failed(GenSetupError::TooManyCardsIncluded)
    ));
}

#[test]
fn deal_of_ten_forced_cards_needs_no_pool() {
    let deal = dealt(deal_kingdom(&ten_costly_cards(), &vec![KC::Moat]));

    assert_eq!(deal.kingdom_cards, ten_costly_cards());
    assert_eq!(deal.spare, vec![KC::Moat]);
}

fn plain_deal(spare: Vec<KC>) -> Deal {
    Deal {
        kingdom_cards: ten_costly_cards(),
        bane_card: None,
        spare,
    }
}

#[test]
fn complete_setup_pairs_cards_and_tags_in_order() {
    let setup = complete_setup(
        plain_deal(vec![KC::Moat]),
        vec![Project::Canal],
        vec![KC::Mine, KC::Market],
        vec![BaneCard::Lion, BaneCard::Hippo],
    )
    .unwrap();

    assert_eq!(setup.kingdom_cards, ten_costly_cards());
    assert_eq!(setup.bane_card, None);
    assert_eq!(setup.project_cards, vec![Project::Canal]);
    assert_eq!(
        setup.bane_cards,
        vec![(KC::Mine, BaneCard::Lion), (KC::Market, BaneCard::Hippo)]
    );
    assert_eq!(setup.second_zebra, None);
}

#[test]
fn complete_setup_takes_the_first_spare_card_for_a_zebra() {
    let setup = complete_setup(
        plain_deal(vec![KC::Moat, KC::Duke]),
        Vec::new(),
        vec![KC::Mine, KC::Market],
        vec![BaneCard::Lion, BaneCard::Zebra],
    )
    .unwrap();

    assert_eq!(setup.second_zebra, Some(KC::Moat));
    assert_eq!(setup.bane_cards.len(), 2);
}

#[test]
fn complete_setup_fails_for_a_zebra_without_spare_cards() {
    let err = complete_setup(
        plain_deal(Vec::new()),
        Vec::new(),
        vec![KC::Mine],
        vec![BaneCard::Zebra],
    )
    .unwrap_err();

    assert_eq!(err, GenSetupError::CouldNotSatisfySecondZebra);
}

#[test]
fn complete_setup_without_zebra_needs_no_spare_cards() {
    let setup = complete_setup(
        plain_deal(Vec::new()),
        Vec::new(),
        vec![KC::Mine],
        vec![BaneCard::Giraffe],
    )
    .unwrap();

    assert_eq!(setup.second_zebra, None);
}

#[test]
fn complete_setup_ignores_a_tag_without_a_card() {
    let setup = complete_setup(
        plain_deal(Vec::new()),
        Vec::new(),
        vec![KC::Mine],
        vec![BaneCard::Giraffe, BaneCard::Zebra],
    )
    .unwrap();

    assert_eq!(setup.bane_cards, vec![(KC::Mine, BaneCard::Giraffe)]);
    assert_eq!(setup.second_zebra, None);
}
