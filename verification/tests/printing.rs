use dominion::clock::Moment;
use dominion::hist::Hist;
use dominion::pretty::{
    code, code_at, cost_hist, expansion_hist, format_card, format_setup, gen_error, hists,
    kingdom_card_by_expansion_list, pretty, project_card_by_expansion_list, type_hist,
};
use dominion::rank::by_rank;
use dominion::text::{distinct_texts, push_decimal, push_grouped, push_repeated, push_signed};
use dominion::{CardType, Expansion, GenSetupError, Project, Setup, KC};

fn decimal(n: u64) -> String {
    let mut out = String::new();
    push_decimal(&mut out, n);
    out
}

fn signed(n: i32) -> String {
    let mut out = String::new();
    push_signed(&mut out, n);
    out
}

#[test]
fn numbers_are_written_in_decimal() {
    for n in [0, 1, 9, 10, 11, 99, 100, 101, 12345, u64::MAX] {
        assert_eq!(decimal(n), n.to_string());
    }
    for n in [0, 7, -7, 2026, -2026, i32::MAX, i32::MIN] {
        assert_eq!(signed(n), n.to_string());
    }
    let mut out = "x".to_string();
    push_decimal(&mut out, 42);
    assert_eq!(out, "x42");
}

#[test]
fn repeated_text_is_appended() {
    let mut out = "ab".to_string();
    push_repeated(&mut out, "xy", 3);
    assert_eq!(out, "abxyxyxy");
    push_repeated(&mut out, "z", 0);
    assert_eq!(out, "abxyxyxy");
}

fn strings(texts: &[&str]) -> Vec<String> {
    texts.iter().map(|text| text.to_string()).collect()
}

#[test]
fn distinct_texts_keeps_first_occurrences() {
    assert_eq!(
        distinct_texts(&strings(&["b", "a", "b", "c", "a"])),
        strings(&["b", "a", "c"])
    );
    assert_eq!(distinct_texts(&Vec::new()), Vec::<String>::new());
}

#[test]
fn lines_are_grouped_by_label_in_order_of_first_occurrence() {
    let mut out = "head\n".to_string();
    push_grouped(
        &mut out,
        &strings(&["B", "A", "B", "A", "C"]),
        &strings(&["1", "2", "3", "4", "5"]),
    );

    assert_eq!(out, "head\nB\n1\n3\nA\n2\n4\nC\n5\n");
}

#[test]
fn by_rank_sorts_and_keeps_repetitions() {
    assert_eq!(
        by_rank(&vec![KC::Witch, KC::Chapel, KC::Witch, KC::Artisan], 135),
        vec![KC::Artisan, KC::Chapel, KC::Witch, KC::Witch]
    );
    assert_eq!(by_rank(&vec![5u8, 3, 9, 3], 9), vec![3, 3, 5]);
}

#[test]
fn errors_are_explained() {
    assert_eq!(
        gen_error(GenSetupError::CouldNotSatisfyProjectsFromExpansions),
        "The requested project count could not be satisfied! Ensure you're not specifying expansions which preclude projects."
    );
    assert_eq!(
        gen_error(GenSetupError::CouldNotSatisfyKingdomCards),
        "Could not pick 10 kingdom cards! Ensure your filters don't over-limit cards."
    );
    assert_eq!(
        gen_error(GenSetupError::CouldNotSatisfyBaneCard),
        "Could not pick a bane card! Ensure your filters don't over-limit cards."
    );
    assert_eq!(
        gen_error(GenSetupError::IntersectingCardBansAndIncludes(vec![
            KC::Witch,
            KC::Moat
        ])),
        format!(
            "I can't ban and include cards! The following exist in the ban and include lists: {:?}",
            vec![KC::Witch, KC::Moat]
        )
    );
    assert_eq!(
        gen_error(GenSetupError::IntersectingCardBansAndIncludes(Vec::new())),
        "I can't ban and include cards! The following exist in the ban and include lists: []"
    );
    assert_eq!(
        gen_error(GenSetupError::TooManyCardsIncluded),
        "Too many cards were asked to be included! I currently can't generate a kingdom with more than 10 cards."
    );
    assert!(gen_error(GenSetupError::CouldNotSatisfySecondZebra).contains("zebra"));
}

fn kingdom() -> Vec<KC> {
    vec![KC::Witch, KC::Chapel, KC::Sentry]
}

#[test]
fn setups_are_written_as_terms() {
    assert_eq!(
        format_setup(&Setup::new(kingdom(), None, Vec::new())),
        format!("S.standard {:?}", kingdom())
    );
    assert_eq!(
        format_setup(&Setup::bane(KC::Moat, kingdom())),
        format!("S.bane {:?} {:?}", KC::Moat, kingdom())
    );
    assert_eq!(
        format_setup(&Setup::new(kingdom(), None, vec![Project::Canal, Project::Fair])),
        "S.standardWithProjects [Canal, Fair] [Witch, Chapel, Sentry]"
    );
    assert_eq!(
        format_setup(&Setup::new(kingdom(), Some(KC::Moat), vec![Project::Canal])),
        "S.baneWithProjects Moat [Canal] [Witch, Chapel, Sentry]"
    );
    assert_eq!(
        format_setup(&Setup::new(Vec::new(), None, Vec::new())),
        "S.standard []"
    );
}

#[test]
fn code_records_name_date_and_setup() {
    let now = Moment {
        stamp: "2026-10-28 09:05:00.5 +01:00".to_string(),
        year: 2026,
        month: 10,
        day: 28,
    };
    let text = code_at("Game", &now, &Setup::bane(KC::Moat, kingdom()));

    assert_eq!(
        text,
        "  , Played { name = Just \"Game at 2026-10-28 09:05:00.5 +01:00\"
           , at = Just $ Date {year=2026, month=10, day=28}
           , setup = S.bane Moat [Witch, Chapel, Sentry]
           , players = Just []
           , rating = Nothing
           }
"
    );
}

#[test]
fn code_reads_the_clock() {
    let text = code("Game", &Setup::new(kingdom(), None, Vec::new()));

    assert!(text.starts_with("  , Played { name = Just \"Game at 2"));
    assert!(text.contains(", at = Just $ Date {year=2"));
    assert!(text.contains(", setup = S.standard [Witch, Chapel, Sentry]\n"));
    assert!(text.ends_with("           }\n"));
}

#[test]
fn cards_are_written_on_lines() {
    assert_eq!(format_card(&KC::Witch, &None), " - Witch");
    assert_eq!(format_card(&KC::Witch, &Some(KC::Moat)), " - Witch ");
    assert_eq!(format_card(&KC::Moat, &Some(KC::Moat)), " - Moat  (Bane)");
}

#[test]
fn kingdom_is_listed_by_expansion() {
    let setup = Setup::new(
        vec![KC::Witch, KC::Sentry, KC::Chapel, KC::Artisan, KC::Wharf],
        None,
        Vec::new(),
    );

    assert_eq!(
        kingdom_card_by_expansion_list(&setup),
        "\
._______________.
|               |
| Kingdom Cards |
|_______________|

Base2
 - Artisan
 - Sentry
Base2/Base1
 - Chapel
 - Witch
Seaside
 - Wharf
"
    );
}

#[test]
fn bane_card_is_listed_and_marked() {
    let setup = Setup::bane(KC::Hamlet, vec![KC::YoungWitch, KC::Wharf]);

    assert_eq!(
        kingdom_card_by_expansion_list(&setup),
        "\
._______________.
|               |
| Kingdom Cards |
|_______________|

Cornucopia
 - Hamlet  (Bane)
 - YoungWitch 
Seaside
 - Wharf 
"
    );
}

#[test]
fn projects_are_listed_by_expansion() {
    assert_eq!(project_card_by_expansion_list(&Vec::new()), "");
    assert_eq!(
        project_card_by_expansion_list(&vec![Project::Fair, Project::Canal]),
        "\
._______________.
|               |
| Project Cards |
|_______________|

Renaissance
 - Canal
 - Fair
"
    );
}

#[test]
fn pretty_puts_projects_under_the_kingdom() {
    let setup = Setup::new(vec![KC::Wharf], None, vec![Project::Fair]);

    assert_eq!(
        pretty(&setup),
        format!(
            "{}\n{}",
            kingdom_card_by_expansion_list(&setup),
            project_card_by_expansion_list(&setup.project_cards)
        )
    );
    assert!(pretty(&Setup::new(vec![KC::Wharf], None, Vec::new())).ends_with("Seaside\n - Wharf\n\n"));
}

#[test]
fn hist_counts_instances() {
    let c: Hist<u8> = Hist::empty();
    assert_eq!(c.count(&3), 0);
    assert_eq!(c.pretty(), "");

    let c = Hist::one(CardType::Attack);
    assert_eq!(c.count(&CardType::Attack), 1);
    assert_eq!(c.count(&CardType::Action), 0);

    let c = Hist::n(Expansion::Guilds, 5);
    assert_eq!(c.count(&Expansion::Guilds), 5);

    let c = Hist::one(7u8) + Hist::one(4u8) + Hist::one(7u8);
    assert_eq!(c.count(&7), 2);
    assert_eq!(c.count(&4), 1);
    assert_eq!(c.count(&5), 0);

    let c = (Hist::n(2u8, 3) + Hist::n(2u8, 4)).tally(9, 1).tally(2, 0);
    assert_eq!(c.count(&2), 7);
    assert_eq!(c.count(&9), 1);
}

#[test]
fn hist_of_counts_items_and_keeps_empty_buckets() {
    let hist = Hist::of(
        &vec![CardType::Victory, CardType::Action],
        &vec![CardType::Attack, CardType::Action, CardType::Attack],
    );

    assert_eq!(hist.count(&CardType::Action), 1);
    assert_eq!(hist.count(&CardType::Attack), 2);
    assert_eq!(hist.count(&CardType::Victory), 0);
    assert_eq!(
        hist.pretty(),
        "Action : ■ (1)\nAttack : ■■ (2)\nVictory:  (0)"
    );
}

#[test]
fn hist_is_printed_in_order_with_bars() {
    let hist = Hist::n(10u8, 12) + Hist::one(3u8) + Hist::n(200u8, 0);

    assert_eq!(
        hist.pretty(),
        "3  : ■ (1)\n10 : ■■■■■■■■■■■■ (12)\n200:  (0)"
    );
}

#[test]
fn histograms_of_a_setup() {
    let cards = vec![KC::Witch, KC::Chapel, KC::Harem, KC::Moat];

    let costs = cost_hist(&cards);
    assert_eq!(
        [2u8, 3, 4, 5, 6, 7].map(|cost| costs.count(&cost)),
        [2, 0, 0, 1, 1, 0]
    );
    let types = type_hist(&cards);
    assert_eq!(types.count(&CardType::Action), 3);
    assert_eq!(types.count(&CardType::Attack), 1);
    assert_eq!(types.count(&CardType::Reaction), 1);
    assert_eq!(types.count(&CardType::Treasure), 1);
    assert_eq!(types.count(&CardType::Victory), 1);
    assert_eq!(types.count(&CardType::Duration), 0);
    let expansions = expansion_hist(&cards);
    assert_eq!(expansions.count(&Expansion::Base1), 3);
    assert_eq!(expansions.count(&Expansion::Base2), 3);
    assert_eq!(expansions.count(&Expansion::Intrigue2), 1);
    assert_eq!(expansions.count(&Expansion::Seaside), 0);

    assert_eq!(
        hists(&Setup::bane(KC::Moat, vec![KC::Witch, KC::Chapel, KC::Harem])),
        "\
Cards' Costs:
-------------
2: ■■ (2)
3:  (0)
4:  (0)
5: ■ (1)
6: ■ (1)

Cards' types:
-------------
Action  : ■■■ (3)
Attack  : ■ (1)
Reaction: ■ (1)
Victory : ■ (1)
Treasure: ■ (1)
Duration:  (0)

Expansions' cards:
-----------------
Base1    : ■■■ (3)
Base2    : ■■■ (3)
Intrigue2: ■ (1)

"
    );
}
