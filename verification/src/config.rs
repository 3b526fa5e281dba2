//! What a caller may ask of a setup, and the reasons for which a request is
//! turned down.

use crate::cards::{
    Expansion, Expansions, Project, ALL_KINGDOM_CARDS, ALL_PROJECTS, KC, NO_SUCH_NAME,
};
use crate::lists::{
    distinct, distinct_cards, has_card, has_expansion, lemma_distinct, lemma_filter_distinct,
};
use crate::text::{decimal, DIGITS};
use std::str::FromStr;
use vstd::prelude::*;

verus! {

/// The size of a kingdom.
pub const KINGDOM_SIZE: usize = 10;

/// The number of projects allowed in a game.
#[derive(Debug, Clone, Copy, PartialEq, Eq, Structural)]
pub enum ProjectCount {
    NoProjects,
    OneProject,
    TwoProjects,
}

impl ProjectCount {
    /// The count that the choice stands for.
    pub open spec fn number(self) -> nat {
        match self {
            ProjectCount::NoProjects => 0,
            ProjectCount::OneProject => 1,
            ProjectCount::TwoProjects => 2,
        }
    }

    /// Convert enum to actual count.
    pub fn count(&self) -> (n: usize)
        ensures
            n == self.number(),
    {
        match self {
            ProjectCount::NoProjects => 0,
            ProjectCount::OneProject => 1,
            ProjectCount::TwoProjects => 2,
        }
    }

    /// The choice as it is written: its count in decimal digits.
    pub open spec fn name_text(self) -> Seq<char> {
        decimal(self.number())
    }

    /// The choice that is written so, if there is one: the least, should
    /// several be written so.
    pub fn from_name(text: &str) -> (found: Option<ProjectCount>)
        ensures
            match found {
                Some(count) => {
                    &&& count.name_text() == text@
                    &&& forall|other: ProjectCount|
                        other.number() < count.number() ==> other.name_text() != text@
                },
                None => forall|count: ProjectCount| count.name_text() != text@,
            },
    {
        let wanted = text.to_owned();
        if wanted == DIGITS[0].to_owned() {
            Some(ProjectCount::NoProjects)
        } else if wanted == DIGITS[1].to_owned() {
            Some(ProjectCount::OneProject)
        } else if wanted == DIGITS[2].to_owned() {
            Some(ProjectCount::TwoProjects)
        } else {
            None
        }
    }
}

impl FromStr for ProjectCount {
    type Err = String;

    /// The choice written as a number: the one that `from_name` finds. Where
    /// no choice is written so, the message that says so.
    fn from_str(text: &str) -> (parsed: Result<ProjectCount, String>)
        ensures
            match parsed {
                Ok(count) => {
                    &&& count.name_text() == text@
                    &&& forall|other: ProjectCount|
                        other.number() < count.number() ==> other.name_text() != text@
                },
                Err(message) => {
                    &&& message@ == NO_SUCH_NAME@
                    &&& forall|count: ProjectCount| count.name_text() != text@
                },
            },
    {
        match ProjectCount::from_name(text) {
            Some(count) => Ok(count),
            None => Err(NO_SUCH_NAME.to_owned()),
        }
    }
}

/// The number of bane tags laid on the kingdom.
#[derive(Debug, Clone, Copy, PartialEq, Eq, Structural)]
pub enum BaneCount {
    NoBanes,
    OneBane,
    TwoBanes,
    ThreeBanes,
}

impl BaneCount {
    /// The count that the choice stands for.
    pub open spec fn number(self) -> nat {
        match self {
            BaneCount::NoBanes => 0,
            BaneCount::OneBane => 1,
            BaneCount::TwoBanes => 2,
            BaneCount::ThreeBanes => 3,
        }
    }

    /// Convert enum to actual count.
    pub fn count(&self) -> (n: usize)
        ensures
            n == self.number(),
    {
        match self {
            BaneCount::NoBanes => 0,
            BaneCount::OneBane => 1,
            BaneCount::TwoBanes => 2,
            BaneCount::ThreeBanes => 3,
        }
    }

    /// The choice as it is written: its count in decimal digits.
    pub open spec fn name_text(self) -> Seq<char> {
        decimal(self.number())
    }

    /// The choice that is written so, if there is one: the least, should
    /// several be written so.
    pub fn from_name(text: &str) -> (found: Option<BaneCount>)
        ensures
            match found {
                Some(count) => {
                    &&& count.name_text() == text@
                    &&& forall|other: BaneCount|
                        other.number() < count.number() ==> other.name_text() != text@
                },
                None => forall|count: BaneCount| count.name_text() != text@,
            },
    {
        let wanted = text.to_owned();
        if wanted == DIGITS[0].to_owned() {
            Some(BaneCount::NoBanes)
        } else if wanted == DIGITS[1].to_owned() {
            Some(BaneCount::OneBane)
        } else if wanted == DIGITS[2].to_owned() {
            Some(BaneCount::TwoBanes)
        } else if wanted == DIGITS[3].to_owned() {
            Some(BaneCount::ThreeBanes)
        } else {
            None
        }
    }
}

impl FromStr for BaneCount {
    type Err = String;

    /// The choice written as a number: the one that `from_name` finds. Where
    /// no choice is written so, the message that says so.
    fn from_str(text: &str) -> (parsed: Result<BaneCount, String>)
        ensures
            match parsed {
                Ok(count) => {
                    &&& count.name_text() == text@
                    &&& forall|other: BaneCount|
                        other.number() < count.number() ==> other.name_text() != text@
                },
                Err(message) => {
                    &&& message@ == NO_SUCH_NAME@
                    &&& forall|count: BaneCount| count.name_text() != text@
                },
            },
    {
        match BaneCount::from_name(text) {
            Some(count) => Ok(count),
            None => Err(NO_SUCH_NAME.to_owned()),
        }
    }
}

/// How to set up a game. The three lists are read as sets: repetition in
/// them means nothing, and their order decides only the order in which
/// cards are listed.
#[derive(Debug)]
pub struct SetupConfig {
    /// Which specific expansions to draw from; all of them if absent.
    pub include_expansions: Option<Vec<Expansion>>,
    /// Cards that must not come up.
    pub ban_cards: Option<Vec<KC>>,
    /// Cards that must come up. They need not belong to `include_expansions`.
    pub include_cards: Option<Vec<KC>>,
    /// How many projects to lay out; a random number below three if absent.
    pub project_count: Option<ProjectCount>,
    /// How many kingdom cards get a bane tag; none if absent.
    pub bane_count: Option<BaneCount>,
}

/// Errors we may encounter when generating a setup. These are mostly due to
/// incoherent configurations.
#[derive(Debug, PartialEq)]
pub enum GenSetupError {
    /// Asked for some number of projects but didn't supply enough expansions
    /// to choose them.
    CouldNotSatisfyProjectsFromExpansions,
    /// Filtered in such a way as to not allow us to pick enough kingdom cards.
    CouldNotSatisfyKingdomCards,
    /// Filtered in such a way as to not allow us to pick a bane card.
    CouldNotSatisfyBaneCard,
    /// A Zebra tag was laid and no card is left over to go with it.
    CouldNotSatisfySecondZebra,
    /// Asked to ban and to force one or more cards: those cards.
    IntersectingCardBansAndIncludes(Vec<KC>),
    /// Asked to force more cards than a kingdom holds.
    TooManyCardsIncluded,
}

impl SetupConfig {
    /// Give us a totally random game.
    pub fn none() -> (config: SetupConfig)
        ensures
            config.include_expansions is None,
            config.ban_cards is None,
            config.include_cards is None,
            config.project_count is None,
            config.bane_count is None,
    {
        SetupConfig {
            include_expansions: None,
            ban_cards: None,
            include_cards: None,
            project_count: None,
            bane_count: None,
        }
    }

    /// Only draw from these expansions.
    pub fn including_expansions(expansions: Vec<Expansion>) -> (config: SetupConfig)
        ensures
            config.include_expansions == Some(expansions),
            config.ban_cards is None,
            config.include_cards is None,
            config.project_count is None,
            config.bane_count is None,
    {
        SetupConfig {
            include_expansions: Some(expansions),
            ban_cards: None,
            include_cards: None,
            project_count: None,
            bane_count: None,
        }
    }

    /// Be sure to have (at least) these cards.
    pub fn including_cards(cards: Vec<KC>) -> (config: SetupConfig)
        ensures
            config.include_expansions is None,
            config.ban_cards is None,
            config.include_cards == Some(cards),
            config.project_count is None,
            config.bane_count is None,
    {
        SetupConfig {
            include_expansions: None,
            ban_cards: None,
            include_cards: Some(cards),
            project_count: None,
            bane_count: None,
        }
    }

    /// Is the expansion one to draw from?
    pub open spec fn draws_from(&self, expansion: Expansion) -> bool {
        match self.include_expansions {
            Some(list) => list@.contains(expansion),
            None => true,
        }
    }

    /// Does one of the item's expansions count among those to draw from?
    pub open spec fn offers<T: Expansions>(&self, item: T) -> bool {
        exists|e: Expansion| #[trigger] item.expansion_list().contains(e) && self.draws_from(e)
    }

    /// Is the card banned?
    pub open spec fn bans(&self, card: KC) -> bool {
        match self.ban_cards {
            Some(list) => list@.contains(card),
            None => false,
        }
    }

    /// Is the card forced into the kingdom?
    pub open spec fn forces(&self, card: KC) -> bool {
        match self.include_cards {
            Some(list) => list@.contains(card),
            None => false,
        }
    }

    /// May the card fill a free place of the kingdom? It must come from a
    /// wanted expansion, and be neither banned nor forced.
    pub open spec fn eligible(&self, card: KC) -> bool {
        self.offers(card) && !self.bans(card) && !self.forces(card)
    }

    /// `eligible` as a predicate to filter by.
    pub open spec fn eligibility(&self) -> spec_fn(KC) -> bool {
        |card: KC| self.eligible(card)
    }

    /// `offers`, of projects, as a predicate to filter by.
    pub open spec fn availability(&self) -> spec_fn(Project) -> bool {
        |project: Project| self.offers(project)
    }

    /// `forces` as a predicate to filter by.
    pub open spec fn forcing(&self) -> spec_fn(KC) -> bool {
        |card: KC| self.forces(card)
    }

    /// The forced cards, each once, in the order of `include_cards`.
    pub open spec fn forced(&self) -> Seq<KC> {
        match self.include_cards {
            Some(list) => distinct(list@),
            None => Seq::empty(),
        }
    }

    /// The cards both banned and forced, each once, in the order of `ban_cards`.
    pub open spec fn conflict(&self) -> Seq<KC> {
        match self.ban_cards {
            Some(list) => distinct(list@).filter(self.forcing()),
            None => Seq::empty(),
        }
    }

    /// The cards that may fill the free places, in catalog order.
    pub open spec fn pool(&self) -> Seq<KC> {
        KC::catalog().filter(self.eligibility())
    }

    /// The projects to choose from, in catalog order.
    pub open spec fn project_pool(&self) -> Seq<Project> {
        Project::catalog().filter(self.availability())
    }

    /// The number of free places: those that the forced cards leave.
    pub open spec fn free_places(&self) -> int {
        KINGDOM_SIZE - self.forced().len()
    }

    /// The number of bane tags asked for.
    pub open spec fn tag_count(&self) -> nat {
        match self.bane_count {
            Some(count) => count.number(),
            None => 0,
        }
    }

    /// More projects are asked for than the wanted expansions hold.
    pub open spec fn lacks_projects(&self) -> bool {
        self.project_count matches Some(count) && count.number() > self.project_pool().len()
    }

    /// The request can be met as far as that is settled before any card is
    /// drawn: bans and forced cards are apart, the forced cards fit, and
    /// there are projects and cards enough.
    pub open spec fn coherent(&self) -> bool {
        &&& self.conflict().len() == 0
        &&& self.forced().len() <= KINGDOM_SIZE
        &&& !self.lacks_projects()
        &&& self.pool().len() >= self.free_places()
    }

    /// `error` is the reason for which the request is turned down before any
    /// card is drawn: the first that applies, in the order of the branches.
    pub open spec fn rejects(&self, error: GenSetupError) -> bool {
        if self.conflict().len() > 0 {
            error matches GenSetupError::IntersectingCardBansAndIncludes(cards) && cards@
                == self.conflict()
        } else if self.forced().len() > KINGDOM_SIZE {
            error == GenSetupError::TooManyCardsIncluded
        } else if self.lacks_projects() {
            error == GenSetupError::CouldNotSatisfyProjectsFromExpansions
        } else if self.pool().len() < self.free_places() {
            error == GenSetupError::CouldNotSatisfyKingdomCards
        } else {
            false
        }
    }

    /// Does one of the item's expansions count among those to draw from?
    pub fn offers_item<T: Expansions>(&self, item: &T) -> (offered: bool)
        ensures
            offered == self.offers(*item),
    {
        let own = item.expansions();
        match &self.include_expansions {
            None => {
                proof {
                    if own@.len() > 0 {
                        assert(item.expansion_list().contains(own@[0]));
                    }
                }
                own.len() > 0
            },
            Some(wanted) => {
                let mut i: usize = 0;
                while i < own.len()
                    invariant
                        i <= own.len(),
                        own@ == item.expansion_list(),
                        self.include_expansions == Some(*wanted),
                        forall|j: int| 0 <= j < i ==> !wanted@.contains(own@[j]),
                    decreases own.len() - i,
                {
                    if has_expansion(wanted, own[i]) {
                        assert(item.expansion_list().contains(own@[i as int]));
                        return true;
                    }
                    i = i + 1;
                }
                false
            },
        }
    }

    /// Is the card banned?
    pub fn is_banned(&self, card: KC) -> (banned: bool)
        ensures
            banned == self.bans(card),
    {
        match &self.ban_cards {
            Some(list) => has_card(list, card),
            None => false,
        }
    }

    /// Is the card forced into the kingdom?
    pub fn is_forced(&self, card: KC) -> (forced: bool)
        ensures
            forced == self.forces(card),
    {
        match &self.include_cards {
            Some(list) => has_card(list, card),
            None => false,
        }
    }

    /// The forced cards, each once.
    pub fn forced_cards(&self) -> (cards: Vec<KC>)
        ensures
            cards@ == self.forced(),
    {
        match &self.include_cards {
            Some(list) => distinct_cards(list),
            None => Vec::new(),
        }
    }

    /// The cards both banned and forced, each once.
    pub fn conflicting_cards(&self) -> (cards: Vec<KC>)
        ensures
            cards@ == self.conflict(),
    {
        let mut cards: Vec<KC> = Vec::new();
        match &self.ban_cards {
            None => {},
            Some(list) => {
                let banned = distinct_cards(list);
                let mut i: usize = 0;
                while i < banned.len()
                    invariant
                        i <= banned.len(),
                        cards@ == banned@.take(i as int).filter(self.forcing()),
                    decreases banned.len() - i,
                {
                    let card = banned[i];
                    proof {
                        assert(banned@.take(i + 1) =~= banned@.take(i as int).push(card));
                        banned@.take(i as int).lemma_filter_push(card, self.forcing());
                    }
                    if self.is_forced(card) {
                        cards.push(card);
                    }
                    i = i + 1;
                }
                assert(banned@.take(banned.len() as int) =~= banned@);
            },
        }
        cards
    }

    /// The cards that may fill the free places.
    pub fn candidate_cards(&self) -> (cards: Vec<KC>)
        ensures
            cards@ == self.pool(),
    {
        let mut cards: Vec<KC> = Vec::new();
        let mut i: usize = 0;
        while i < ALL_KINGDOM_CARDS.len()
            invariant
                i <= ALL_KINGDOM_CARDS@.len(),
                cards@ == KC::catalog().take(i as int).filter(self.eligibility()),
            decreases ALL_KINGDOM_CARDS@.len() - i,
        {
            let card = ALL_KINGDOM_CARDS[i];
            proof {
                assert(KC::catalog().take(i + 1) =~= KC::catalog().take(i as int).push(card));
                KC::catalog().take(i as int).lemma_filter_push(card, self.eligibility());
            }
            if self.offers_item(&card) && !self.is_banned(card) && !self.is_forced(card) {
                cards.push(card);
            }
            i = i + 1;
        }
        assert(KC::catalog().take(KC::catalog().len() as int) =~= KC::catalog());
        cards
    }

    /// The projects to choose from.
    pub fn candidate_projects(&self) -> (projects: Vec<Project>)
        ensures
            projects@ == self.project_pool(),
    {
        let mut projects: Vec<Project> = Vec::new();
        let mut i: usize = 0;
        while i < ALL_PROJECTS.len()
            invariant
                i <= ALL_PROJECTS@.len(),
                projects@ == Project::catalog().take(i as int).filter(self.availability()),
            decreases ALL_PROJECTS@.len() - i,
        {
            let project = ALL_PROJECTS[i];
            proof {
                assert(Project::catalog().take(i + 1) =~= Project::catalog().take(i as int).push(
                    project,
                ));
                Project::catalog().take(i as int).lemma_filter_push(project, self.availability());
            }
            if self.offers_item(&project) {
                projects.push(project);
            }
            i = i + 1;
        }
        assert(Project::catalog().take(Project::catalog().len() as int) =~= Project::catalog());
        projects
    }

    /// The lists that a request stands for hold what their names say, each
    /// item once.
    pub proof fn lemma_lists(&self)
        ensures
            self.forced().no_duplicates(),
            forall|card: KC| self.forced().contains(card) <==> self.forces(card),
            self.conflict().no_duplicates(),
            forall|card: KC| self.conflict().contains(card) <==> self.bans(card) && self.forces(card),
            self.pool().no_duplicates(),
            forall|card: KC| self.pool().contains(card) <==> self.eligible(card),
            self.project_pool().no_duplicates(),
            forall|project: Project| self.project_pool().contains(project) <==> self.offers(project),
    {
        match self.include_cards {
            Some(list) => lemma_distinct(list@),
            None => {},
        }
        match self.ban_cards {
            Some(list) => {
                lemma_distinct(list@);
                lemma_filter_distinct(distinct(list@), self.forcing());
            },
            None => {},
        }
        KC::lemma_catalog_distinct();
        lemma_filter_distinct(KC::catalog(), self.eligibility());
        assert forall|card: KC| self.pool().contains(card) <==> self.eligible(card) by {
            card.lemma_catalog_complete();
        }
        Project::lemma_catalog_distinct();
        lemma_filter_distinct(Project::catalog(), self.availability());
        assert forall|project: Project| self.project_pool().contains(project) <==> self.offers(
            project,
        ) by {
            project.lemma_catalog_complete();
        }
    }
}

} // verus!
