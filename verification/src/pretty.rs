//! Setups and errors as text.

use crate::cards::{
    BaseCost, CardType, CardTypes, Expansion, Expansions, Project, ALL_KINGDOM_CARDS, KC,
};
use crate::clock::{local_now, Moment};
use crate::config::GenSetupError;
use crate::hist::{hist_text, histogram_of, Hist};
use crate::rank::{by_rank, ranked_below};
use crate::setup::Setup;
use crate::text::{
    decimal, grouped_text, join, lemma_join_push, push_decimal, push_grouped, push_signed,
    signed_decimal, texts,
};
use vstd::prelude::*;

verus! {

/// What to say when the projects asked for cannot be had.
pub const NO_PROJECTS: &'static str =
    "The requested project count could not be satisfied! Ensure you're not specifying expansions which preclude projects.";

/// What to say when ten kingdom cards cannot be had.
pub const NO_KINGDOM: &'static str =
    "Could not pick 10 kingdom cards! Ensure your filters don't over-limit cards.";

/// What to say when no bane card can be had.
pub const NO_BANE: &'static str =
    "Could not pick a bane card! Ensure your filters don't over-limit cards.";

/// What to say when no second zebra can be had.
pub const NO_SECOND_ZEBRA: &'static str =
    "Could not pick a second zebra! Ensure your filters leave a card over for it.";

/// What to say, before their list, when cards are both banned and forced.
pub const BANNED_AND_FORCED: &'static str =
    "I can't ban and include cards! The following exist in the ban and include lists: ";

/// What to say when more cards are forced than a kingdom holds.
pub const TOO_MANY: &'static str =
    "Too many cards were asked to be included! I currently can't generate a kingdom with more than 10 cards.";

/// The names of the cards.
pub open spec fn card_names(cards: Seq<KC>) -> Seq<Seq<char>> {
    Seq::new(cards.len(), |i: int| cards[i].name_text())
}

/// The names of the projects.
pub open spec fn project_names(projects: Seq<Project>) -> Seq<Seq<char>> {
    Seq::new(projects.len(), |i: int| projects[i].name_text())
}

/// The names in square brackets, with a comma and a blank between each two.
pub open spec fn bracketed(names: Seq<Seq<char>>) -> Seq<char> {
    "["@ + join(names, ", "@) + "]"@
}

/// The message for the error.
pub open spec fn error_text(error: GenSetupError) -> Seq<char> {
    match error {
        GenSetupError::CouldNotSatisfyProjectsFromExpansions => NO_PROJECTS@,
        GenSetupError::CouldNotSatisfyKingdomCards => NO_KINGDOM@,
        GenSetupError::CouldNotSatisfyBaneCard => NO_BANE@,
        GenSetupError::CouldNotSatisfySecondZebra => NO_SECOND_ZEBRA@,
        GenSetupError::IntersectingCardBansAndIncludes(cards) => BANNED_AND_FORCED@ + bracketed(
            card_names(cards@),
        ),
        GenSetupError::TooManyCardsIncluded => TOO_MANY@,
    }
}

/// The setup as a term: its form, the bane card where there is one, the
/// projects where there are any, and the kingdom cards.
pub open spec fn setup_text(setup: &Setup) -> Seq<char> {
    let kingdom = bracketed(card_names(setup.kingdom_cards@));
    let projects = bracketed(project_names(setup.project_cards@));
    match setup.bane_card {
        None => if setup.project_cards@.len() == 0 {
            "S.standard "@ + kingdom
        } else {
            "S.standardWithProjects "@ + projects + " "@ + kingdom
        },
        Some(bane) => if setup.project_cards@.len() == 0 {
            "S.bane "@ + bane.name_text() + " "@ + kingdom
        } else {
            "S.baneWithProjects "@ + bane.name_text() + " "@ + projects + " "@ + kingdom
        },
    }
}

/// The record of a game played at `now` with the setup, as far as it is
/// known before the game.
pub open spec fn code_text(name: Seq<char>, now: &Moment, setup: &Setup) -> Seq<char> {
    "  , Played { name = Just \""@ + name + " at "@ + now.stamp@ + "\"\n"@
        + "           , at = Just $ Date {year="@ + signed_decimal(now.year as int) + ", month="@
        + decimal(now.month as nat) + ", day="@ + decimal(now.day as nat) + "}\n"@
        + "           , setup = "@ + setup_text(setup) + "\n"@
        + "           , players = Just []\n"@ + "           , rating = Nothing\n"@
        + "           }\n"@
}

/// Writes the names of the cards at the end of `out`, in square brackets.
pub fn push_cards(out: &mut String, cards: &Vec<KC>)
    ensures
        final(out)@ == old(out)@ + bracketed(card_names(cards@)),
{
    out.append("[");
    let ghost start = out@;
    let mut i: usize = 0;
    while i < cards.len()
        invariant
            i <= cards.len(),
            out@ == start + join(card_names(cards@.take(i as int)), ", "@),
        decreases cards.len() - i,
    {
        proof {
            let names = card_names(cards@.take(i as int));
            assert(card_names(cards@.take(i + 1)) =~= names.push(cards@[i as int].name_text()));
            lemma_join_push(names, ", "@, cards@[i as int].name_text());
        }
        if i > 0 {
            out.append(", ");
        }
        out.append(cards[i].name());
        i = i + 1;
        assert(out@ =~= start + join(card_names(cards@.take(i as int)), ", "@));
    }
    assert(cards@.take(cards.len() as int) =~= cards@);
    out.append("]");
    assert(out@ =~= old(out)@ + bracketed(card_names(cards@)));
}

/// Writes the names of the projects at the end of `out`, in square brackets.
pub fn push_projects(out: &mut String, projects: &Vec<Project>)
    ensures
        final(out)@ == old(out)@ + bracketed(project_names(projects@)),
{
    out.append("[");
    let ghost start = out@;
    let mut i: usize = 0;
    while i < projects.len()
        invariant
            i <= projects.len(),
            out@ == start + join(project_names(projects@.take(i as int)), ", "@),
        decreases projects.len() - i,
    {
        proof {
            let names = project_names(projects@.take(i as int));
            assert(project_names(projects@.take(i + 1)) =~= names.push(
                projects@[i as int].name_text(),
            ));
            lemma_join_push(names, ", "@, projects@[i as int].name_text());
        }
        if i > 0 {
            out.append(", ");
        }
        out.append(projects[i].name());
        i = i + 1;
        assert(out@ =~= start + join(project_names(projects@.take(i as int)), ", "@));
    }
    assert(projects@.take(projects.len() as int) =~= projects@);
    out.append("]");
    assert(out@ =~= old(out)@ + bracketed(project_names(projects@)));
}

/// Why generation failed, and what to do about it.
pub fn gen_error(err: GenSetupError) -> (message: String)
    ensures
        message@ == error_text(err),
{
    match err {
        GenSetupError::CouldNotSatisfyProjectsFromExpansions => NO_PROJECTS.to_owned(),
        GenSetupError::CouldNotSatisfyKingdomCards => NO_KINGDOM.to_owned(),
        GenSetupError::CouldNotSatisfyBaneCard => NO_BANE.to_owned(),
        GenSetupError::CouldNotSatisfySecondZebra => NO_SECOND_ZEBRA.to_owned(),
        GenSetupError::IntersectingCardBansAndIncludes(cards) => {
            let mut message = BANNED_AND_FORCED.to_owned();
            push_cards(&mut message, &cards);
            message
        },
        GenSetupError::TooManyCardsIncluded => TOO_MANY.to_owned(),
    }
}

/// The setup as a term.
pub fn format_setup(setup: &Setup) -> (text: String)
    ensures
        text@ == setup_text(setup),
{
    let mut text = String::new();
    match setup.bane_card {
        None => {
            if setup.project_cards.len() == 0 {
                text.append("S.standard ");
            } else {
                text.append("S.standardWithProjects ");
                push_projects(&mut text, &setup.project_cards);
                text.append(" ");
            }
        },
        Some(bane) => {
            if setup.project_cards.len() == 0 {
                text.append("S.bane ");
                text.append(bane.name());
                text.append(" ");
            } else {
                text.append("S.baneWithProjects ");
                text.append(bane.name());
                text.append(" ");
                push_projects(&mut text, &setup.project_cards);
                text.append(" ");
            }
        },
    }
    push_cards(&mut text, &setup.kingdom_cards);
    assert(text@ =~= setup_text(setup));
    text
}

/// The record of a game played at `now` with the setup, as far as it is
/// known before the game.
pub fn code_at(name: &str, now: &Moment, setup: &Setup) -> (text: String)
    ensures
        text@ == code_text(name@, now, setup),
{
    let mut text = String::new();
    text.append("  , Played { name = Just \"");
    text.append(name);
    text.append(" at ");
    text.append(now.stamp.as_str());
    text.append("\"\n");
    text.append("           , at = Just $ Date {year=");
    push_signed(&mut text, now.year);
    text.append(", month=");
    push_decimal(&mut text, now.month as u64);
    text.append(", day=");
    push_decimal(&mut text, now.day as u64);
    text.append("}\n");
    text.append("           , setup = ");
    let setup_term = format_setup(setup);
    text.append(setup_term.as_str());
    text.append("\n");
    text.append("           , players = Just []\n");
    text.append("           , rating = Nothing\n");
    text.append("           }\n");
    assert(text@ =~= code_text(name@, now, setup));
    text
}

/// The record of a game played now with the setup, as far as it is known
/// before the game. Which moment "now" is, the clock decides.
pub fn code(name: &str, setup: &Setup) -> (text: String)
    ensures
        exists|now: Moment|
            1 <= now.month <= 12 && 1 <= now.day <= 31 && text@ == code_text(name@, &now, setup),
{
    let now = local_now();
    code_at(name, &now, setup)
}

/// What stands above the kingdom cards.
pub const KINGDOM_HEADER: &'static str =
    "._______________.\n|               |\n| Kingdom Cards |\n|_______________|\n\n";

/// What stands above the projects.
pub const PROJECT_HEADER: &'static str =
    "._______________.\n|               |\n| Project Cards |\n|_______________|\n\n";

/// The names of the expansions.
pub open spec fn expansion_names(expansions: Seq<Expansion>) -> Seq<Seq<char>> {
    Seq::new(expansions.len(), |i: int| expansions[i].name_text())
}

/// The label of an item: the names of its expansions, with a stroke between
/// each two.
pub open spec fn expansion_label<T: Expansions>(item: T) -> Seq<char> {
    join(expansion_names(item.expansion_list()), "/"@)
}

/// The line of a card. Where the setup has a bane card, a blank follows the
/// name, and the bane card is marked as such.
pub open spec fn card_line(card: KC, bane: Option<KC>) -> Seq<char> {
    match bane {
        Some(bane) => " - "@ + card.name_text() + " "@ + if bane == card {
            " (Bane)"@
        } else {
            ""@
        },
        None => " - "@ + card.name_text(),
    }
}

/// The line of a project.
pub open spec fn project_line(project: Project) -> Seq<char> {
    " - "@ + project.name_text()
}

/// The labels of the cards.
pub open spec fn card_labels(cards: Seq<KC>) -> Seq<Seq<char>> {
    Seq::new(cards.len(), |i: int| expansion_label(cards[i]))
}

/// The lines of the cards.
pub open spec fn card_lines(cards: Seq<KC>, bane: Option<KC>) -> Seq<Seq<char>> {
    Seq::new(cards.len(), |i: int| card_line(cards[i], bane))
}

/// The labels of the projects.
pub open spec fn project_labels(projects: Seq<Project>) -> Seq<Seq<char>> {
    Seq::new(projects.len(), |i: int| expansion_label(projects[i]))
}

/// The lines of the projects.
pub open spec fn project_lines(projects: Seq<Project>) -> Seq<Seq<char>> {
    Seq::new(projects.len(), |i: int| project_line(projects[i]))
}

/// The cards to lay out, in catalog order and in groups by their expansions,
/// under their header.
pub open spec fn kingdom_text(setup: &Setup) -> Seq<char> {
    let sorted = ranked_below(setup.card_list(), 135);
    KINGDOM_HEADER@ + grouped_text(card_labels(sorted), card_lines(sorted, setup.bane_card))
}

/// The projects, in catalog order and in groups by their expansions, under
/// their header; nothing at all where there are no projects.
pub open spec fn projects_text(projects: Seq<Project>) -> Seq<char> {
    if projects.len() == 0 {
        Seq::empty()
    } else {
        let sorted = ranked_below(projects, 20);
        PROJECT_HEADER@ + grouped_text(project_labels(sorted), project_lines(sorted))
    }
}

/// The setup as it is printed: kingdom cards, an empty line, projects.
pub open spec fn pretty_text(setup: &Setup) -> Seq<char> {
    kingdom_text(setup) + "\n"@ + projects_text(setup.project_cards@)
}

/// The base costs of the cards.
pub open spec fn cost_list(cards: Seq<KC>) -> Seq<u8> {
    Seq::new(cards.len(), |i: int| cards[i].cost())
}

/// The types of the cards up to `upto`, one list after the other.
pub open spec fn types_upto(cards: Seq<KC>, upto: int) -> Seq<CardType>
    decreases upto,
{
    if upto <= 0 {
        Seq::empty()
    } else {
        types_upto(cards, upto - 1) + cards[upto - 1].type_list()
    }
}

/// The expansions of the cards up to `upto`, one list after the other.
pub open spec fn expansions_upto(cards: Seq<KC>, upto: int) -> Seq<Expansion>
    decreases upto,
{
    if upto <= 0 {
        Seq::empty()
    } else {
        expansions_upto(cards, upto - 1) + cards[upto - 1].expansion_list()
    }
}

/// The three histograms under their headings.
pub open spec fn hists_text(costs: Seq<char>, types: Seq<char>, expansions: Seq<char>) -> Seq<char> {
    "Cards' Costs:\n-------------\n"@ + costs + "\n\nCards' types:\n-------------\n"@ + types
        + "\n\nExpansions' cards:\n-----------------\n"@ + expansions + "\n\n"@
}

/// The label of an item: the names of its expansions, with a stroke between
/// each two.
pub fn expansion_label_of<T: Expansions>(item: &T) -> (label: String)
    ensures
        label@ == expansion_label(*item),
{
    let expansions = item.expansions();
    let mut label = String::new();
    let mut i: usize = 0;
    while i < expansions.len()
        invariant
            i <= expansions.len(),
            label@ == join(expansion_names(expansions@.take(i as int)), "/"@),
        decreases expansions.len() - i,
    {
        proof {
            let names = expansion_names(expansions@.take(i as int));
            assert(expansion_names(expansions@.take(i + 1)) =~= names.push(
                expansions@[i as int].name_text(),
            ));
            lemma_join_push(names, "/"@, expansions@[i as int].name_text());
        }
        if i > 0 {
            label.append("/");
        }
        label.append(expansions[i].name());
        i = i + 1;
        assert(label@ =~= join(expansion_names(expansions@.take(i as int)), "/"@));
    }
    assert(expansions@.take(expansions.len() as int) =~= expansions@);
    label
}

/// The line of a card.
pub fn format_card(card: &KC, bane: &Option<KC>) -> (line: String)
    ensures
        line@ == card_line(*card, *bane),
{
    let mut line = String::new();
    line.append(" - ");
    line.append(card.name());
    match bane {
        Some(bane) => {
            line.append(" ");
            if *bane == *card {
                line.append(" (Bane)");
            } else {
                line.append("");
            }
        },
        None => {},
    }
    assert(line@ =~= card_line(*card, *bane));
    line
}

/// The cards to lay out, in catalog order and in groups by their expansions,
/// under their header.
pub fn kingdom_card_by_expansion_list(setup: &Setup) -> (text: String)
    ensures
        text@ == kingdom_text(setup),
{
    let cards = setup.cards();
    let sorted = by_rank(&cards, 135);
    let mut labels: Vec<String> = Vec::new();
    let mut lines: Vec<String> = Vec::new();
    let mut i: usize = 0;
    while i < sorted.len()
        invariant
            i <= sorted.len(),
            texts(labels@) == card_labels(sorted@.take(i as int)),
            texts(lines@) == card_lines(sorted@.take(i as int), setup.bane_card),
        decreases sorted.len() - i,
    {
        let ghost labels_before = texts(labels@);
        let ghost lines_before = texts(lines@);
        let label = expansion_label_of(&sorted[i]);
        let line = format_card(&sorted[i], &setup.bane_card);
        labels.push(label);
        lines.push(line);
        assert(texts(labels@) =~= labels_before.push(expansion_label(sorted@[i as int])));
        assert(texts(lines@) =~= lines_before.push(card_line(sorted@[i as int], setup.bane_card)));
        i = i + 1;
        assert(texts(labels@) =~= card_labels(sorted@.take(i as int)));
        assert(texts(lines@) =~= card_lines(sorted@.take(i as int), setup.bane_card));
    }
    assert(sorted@.take(i as int) =~= sorted@);
    let mut text = KINGDOM_HEADER.to_owned();
    push_grouped(&mut text, &labels, &lines);
    text
}

/// The projects, in catalog order and in groups by their expansions, under
/// their header; nothing at all where there are no projects.
pub fn project_card_by_expansion_list(project_cards: &Vec<Project>) -> (text: String)
    ensures
        text@ == projects_text(project_cards@),
{
    if project_cards.len() == 0 {
        return String::new();
    }
    let sorted = by_rank(project_cards, 20);
    let mut labels: Vec<String> = Vec::new();
    let mut lines: Vec<String> = Vec::new();
    let mut i: usize = 0;
    while i < sorted.len()
        invariant
            i <= sorted.len(),
            texts(labels@) == project_labels(sorted@.take(i as int)),
            texts(lines@) == project_lines(sorted@.take(i as int)),
        decreases sorted.len() - i,
    {
        let ghost labels_before = texts(labels@);
        let ghost lines_before = texts(lines@);
        let label = expansion_label_of(&sorted[i]);
        let mut line = String::new();
        line.append(" - ");
        line.append(sorted[i].name());
        assert(line@ =~= project_line(sorted@[i as int]));
        labels.push(label);
        lines.push(line);
        assert(texts(labels@) =~= labels_before.push(expansion_label(sorted@[i as int])));
        assert(texts(lines@) =~= lines_before.push(project_line(sorted@[i as int])));
        i = i + 1;
        assert(texts(labels@) =~= project_labels(sorted@.take(i as int)));
        assert(texts(lines@) =~= project_lines(sorted@.take(i as int)));
    }
    assert(sorted@.take(i as int) =~= sorted@);
    let mut text = PROJECT_HEADER.to_owned();
    push_grouped(&mut text, &labels, &lines);
    text
}

/// The setup as it is printed: kingdom cards, an empty line, projects.
pub fn pretty(setup: &Setup) -> (text: String)
    ensures
        text@ == pretty_text(setup),
{
    let mut text = kingdom_card_by_expansion_list(setup);
    let projects = project_card_by_expansion_list(&setup.project_cards);
    text.append("\n");
    text.append(projects.as_str());
    text
}

/// The histogram of the cards' base costs, with an empty bucket for each
/// cost in the catalog that no card of the list has.
pub fn cost_hist(cards: &Vec<KC>) -> (hist: Hist<u8>)
    ensures
        hist.counts(cost_list(KC::catalog()), cost_list(cards@)),
{
    let mut known: Vec<u8> = Vec::new();
    let mut k: usize = 0;
    while k < ALL_KINGDOM_CARDS.len()
        invariant
            k <= ALL_KINGDOM_CARDS@.len(),
            known@ == cost_list(KC::catalog().take(k as int)),
        decreases ALL_KINGDOM_CARDS@.len() - k,
    {
        known.push(ALL_KINGDOM_CARDS[k].base_cost());
        k = k + 1;
        assert(known@ =~= cost_list(KC::catalog().take(k as int)));
    }
    assert(KC::catalog().take(k as int) =~= KC::catalog());
    let mut costs: Vec<u8> = Vec::new();
    let mut i: usize = 0;
    while i < cards.len()
        invariant
            i <= cards.len(),
            costs@ == cost_list(cards@.take(i as int)),
        decreases cards.len() - i,
    {
        costs.push(cards[i].base_cost());
        i = i + 1;
        assert(costs@ =~= cost_list(cards@.take(i as int)));
    }
    assert(cards@.take(i as int) =~= cards@);
    Hist::of(&known, &costs)
}

/// The histogram of the cards' types, with an empty bucket for each type
/// that no card of the list has.
pub fn type_hist(cards: &Vec<KC>) -> (hist: Hist<CardType>)
    ensures
        hist.counts(CardType::catalog(), types_upto(cards@, cards@.len() as int)),
{
    let known = CardType::all();
    let mut types: Vec<CardType> = Vec::new();
    let mut i: usize = 0;
    while i < cards.len()
        invariant
            i <= cards.len(),
            types@ == types_upto(cards@, i as int),
        decreases cards.len() - i,
    {
        let mut own = cards[i].card_types();
        types.append(&mut own);
        i = i + 1;
    }
    Hist::of(&known, &types)
}

/// The histogram of the cards' expansions.
pub fn expansion_hist(cards: &Vec<KC>) -> (hist: Hist<Expansion>)
    ensures
        hist.counts(Seq::empty(), expansions_upto(cards@, cards@.len() as int)),
{
    let known: Vec<Expansion> = Vec::new();
    let mut expansions: Vec<Expansion> = Vec::new();
    let mut i: usize = 0;
    while i < cards.len()
        invariant
            i <= cards.len(),
            expansions@ == expansions_upto(cards@, i as int),
        decreases cards.len() - i,
    {
        let mut own = cards[i].expansions();
        expansions.append(&mut own);
        i = i + 1;
    }
    Hist::of(&known, &expansions)
}

/// Histograms of the costs, types and expansions of the cards to lay out,
/// each under its heading.
pub fn hists(setup: &Setup) -> (text: String)
    ensures
        exists|costs: Seq<(u8, usize)>, types: Seq<(CardType, usize)>, expansions: Seq<(Expansion, usize)>|
            {
                &&& histogram_of(costs, cost_list(KC::catalog()), cost_list(setup.card_list()))
                &&& histogram_of(
                    types,
                    CardType::catalog(),
                    types_upto(setup.card_list(), setup.card_list().len() as int),
                )
                &&& histogram_of(
                    expansions,
                    Seq::empty(),
                    expansions_upto(setup.card_list(), setup.card_list().len() as int),
                )
                &&& text@ == hists_text(hist_text(costs), hist_text(types), hist_text(expansions))
            },
{
    let cards = setup.cards();
    let costs = cost_hist(&cards);
    let types = type_hist(&cards);
    let expansions = expansion_hist(&cards);
    let mut text = String::new();
    text.append("Cards' Costs:\n-------------\n");
    text.append(costs.pretty().as_str());
    text.append("\n\nCards' types:\n-------------\n");
    text.append(types.pretty().as_str());
    text.append("\n\nExpansions' cards:\n-----------------\n");
    text.append(expansions.pretty().as_str());
    text.append("\n\n");
    assert(text@ =~= hists_text(
        hist_text(costs.entries()),
        hist_text(types.entries()),
        hist_text(expansions.entries()),
    ));
    text
}

} // verus!
