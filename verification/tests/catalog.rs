use dominion::cards::{ALL_KINGDOM_CARDS, NO_SUCH_NAME};
use dominion::{
    expansion_set, BaneCard, BaneCount, BaseCost, CardType, CardTypes, Expansion, Expansions,
    Project, ProjectCount, KC,
};
use std::collections::HashSet;

#[test]
fn catalog_lists_every_kingdom_card_once_in_order() {
    let all = KC::all();

    assert_eq!(all.len(), 135);
    assert_eq!(all[..], ALL_KINGDOM_CARDS[..]);
    assert_eq!(all.iter().collect::<HashSet<_>>().len(), 135);
    assert_eq!(all[0], KC::ActingTroupe);
    assert_eq!(all[134], KC::YoungWitch);
    let mut sorted = all.clone();
    sorted.sort();
    assert_eq!(sorted, all);
    for (at, card) in all.iter().enumerate() {
        assert_eq!(card.position(), at);
    }
}

#[test]
fn smaller_catalogs_list_every_item_once_in_order() {
    assert_eq!(
        Expansion::all(),
        vec![
            Expansion::Base1,
            Expansion::Base2,
            Expansion::Renaissance,
            Expansion::Guilds,
            Expansion::Cornucopia,
            Expansion::Intrigue2,
            Expansion::Seaside,
        ]
    );
    assert_eq!(
        CardType::all(),
        vec![
            CardType::Action,
            CardType::Attack,
            CardType::Reaction,
            CardType::Victory,
            CardType::Treasure,
            CardType::Duration,
        ]
    );
    let projects = Project::all();
    assert_eq!(projects.len(), 20);
    assert_eq!(projects[0], Project::Academy);
    assert_eq!(projects[19], Project::StarChart);
    assert_eq!(projects.iter().collect::<HashSet<_>>().len(), 20);
    let tags = BaneCard::all();
    assert!(tags.len() >= 3);
    assert!(tags.contains(&BaneCard::Zebra));
    assert_eq!(tags.iter().collect::<HashSet<_>>().len(), tags.len());
    for (at, tag) in tags.iter().enumerate() {
        assert_eq!(tag.position(), at);
    }
}

#[test]
fn names_are_the_names_of_the_variants() {
    for card in KC::all() {
        assert_eq!(card.name(), format!("{:?}", card));
    }
    for expansion in Expansion::all() {
        assert_eq!(expansion.name(), format!("{:?}", expansion));
    }
    for card_type in CardType::all() {
        assert_eq!(card_type.name(), format!("{:?}", card_type));
    }
    for project in Project::all() {
        assert_eq!(project.name(), format!("{:?}", project));
    }
    for tag in BaneCard::all() {
        assert_eq!(tag.name(), format!("{:?}", tag));
    }
}

#[test]
fn names_are_read_back() {
    for card in KC::all() {
        assert_eq!(KC::from_name(card.name()), Some(card));
        assert_eq!(card.name().parse::<KC>(), Ok(card));
    }
    for expansion in Expansion::all() {
        assert_eq!(Expansion::from_name(expansion.name()), Some(expansion));
        assert_eq!(expansion.name().parse::<Expansion>(), Ok(expansion));
    }
    assert_eq!("Base2".parse::<Expansion>(), Ok(Expansion::Base2));
    assert_eq!("YoungWitch".parse::<KC>(), Ok(KC::YoungWitch));
}

#[test]
fn unknown_names_are_refused() {
    assert_eq!(KC::from_name("youngwitch"), None);
    assert_eq!(KC::from_name(""), None);
    assert_eq!(KC::from_name("Young Witch"), None);
    assert_eq!(Expansion::from_name("Base3"), None);
    assert_eq!("Base".parse::<Expansion>(), Err(NO_SUCH_NAME.to_string()));
    assert_eq!("Witches".parse::<KC>(), Err(NO_SUCH_NAME.to_string()));
}

#[test]
fn unknown_names_are_answered_as_strum_answers_them() {
    assert_eq!(NO_SUCH_NAME, strum::ParseError::VariantNotFound.to_string());
}

#[test]
fn counts_are_read_from_numbers() {
    assert_eq!("0".parse::<ProjectCount>(), Ok(ProjectCount::NoProjects));
    assert_eq!("1".parse::<ProjectCount>(), Ok(ProjectCount::OneProject));
    assert_eq!("2".parse::<ProjectCount>(), Ok(ProjectCount::TwoProjects));
    assert_eq!("3".parse::<ProjectCount>(), Err(NO_SUCH_NAME.to_string()));
    assert_eq!("0".parse::<BaneCount>(), Ok(BaneCount::NoBanes));
    assert_eq!("1".parse::<BaneCount>(), Ok(BaneCount::OneBane));
    assert_eq!("2".parse::<BaneCount>(), Ok(BaneCount::TwoBanes));
    assert_eq!("3".parse::<BaneCount>(), Ok(BaneCount::ThreeBanes));
    assert_eq!("4".parse::<BaneCount>(), Err(NO_SUCH_NAME.to_string()));
    assert_eq!("one".parse::<BaneCount>(), Err(NO_SUCH_NAME.to_string()));
}

#[test]
fn count_gives_the_number() {
    assert_eq!(ProjectCount::NoProjects.count(), 0);
    assert_eq!(ProjectCount::OneProject.count(), 1);
    assert_eq!(ProjectCount::TwoProjects.count(), 2);
    assert_eq!(BaneCount::NoBanes.count(), 0);
    assert_eq!(BaneCount::ThreeBanes.count(), 3);
}

#[test]
fn costs_are_as_printed_on_the_cards() {
    assert_eq!(KC::Chapel.base_cost(), 2);
    assert_eq!(KC::Village.base_cost(), 3);
    assert_eq!(KC::YoungWitch.base_cost(), 4);
    assert_eq!(KC::Witch.base_cost(), 5);
    assert_eq!(KC::Artisan.base_cost(), 6);
    let mut per_cost = [0usize; 9];
    for card in KC::all() {
        per_cost[card.base_cost() as usize] += 1;
    }
    assert_eq!(per_cost, [0, 0, 17, 25, 44, 44, 5, 0, 0]);
}

#[test]
fn every_card_has_types_and_expansions() {
    for card in KC::all() {
        let types = card.card_types();
        let expansions = card.expansions();
        assert!(!types.is_empty());
        assert!(!expansions.is_empty());
        assert_eq!(types.iter().collect::<HashSet<_>>().len(), types.len());
        assert_eq!(expansion_set(&card), expansions);
    }
    assert_eq!(
        KC::Militia.card_types(),
        vec![CardType::Action, CardType::Attack]
    );
    assert_eq!(
        KC::Harem.card_types(),
        vec![CardType::Treasure, CardType::Victory]
    );
    assert_eq!(
        KC::Militia.expansions(),
        vec![Expansion::Base2, Expansion::Base1]
    );
    assert_eq!(KC::YoungWitch.expansions(), vec![Expansion::Cornucopia]);
    assert_eq!(KC::Adventurer.expansions(), vec![Expansion::Base1]);
}

#[test]
fn every_project_belongs_to_renaissance() {
    for project in Project::all() {
        assert_eq!(project.expansions(), vec![Expansion::Renaissance]);
        assert_eq!(expansion_set(&project), vec![Expansion::Renaissance]);
    }
}
