//! A game's setup, and what makes one valid.

use crate::cards::{BaneCard, BaseCost, Project, KC};
use crate::config::{SetupConfig, KINGDOM_SIZE};
use vstd::prelude::*;

verus! {

/// A game's setup.
#[derive(Debug)]
pub struct Setup {
    /// The cards of the kingdom.
    pub kingdom_cards: Vec<KC>,
    /// The extra card that goes with the Young Witch.
    pub bane_card: Option<KC>,
    /// The projects laid out.
    pub project_cards: Vec<Project>,
    /// The bane tags, each with the kingdom card it lies on.
    pub bane_cards: Vec<(KC, BaneCard)>,
    /// The card from outside the kingdom that goes with a Zebra tag.
    pub second_zebra: Option<KC>,
}

/// May the card go with the Young Witch? Its base cost must be 2 or 3.
pub open spec fn bane_worthy(card: KC) -> bool {
    card.cost() == 2 || card.cost() == 3
}

/// May the card go with the Young Witch?
pub fn is_bane_worthy(card: KC) -> (worthy: bool)
    ensures
        worthy == bane_worthy(card),
{
    let cost = card.base_cost();
    cost == 2 || cost == 3
}

impl Setup {
    /// A setup of kingdom cards, bane card and projects, without bane tags.
    pub fn new(
        kingdom_cards: Vec<KC>,
        bane_card: Option<KC>,
        project_cards: Vec<Project>,
    ) -> (setup: Self)
        ensures
            setup.kingdom_cards == kingdom_cards,
            setup.bane_card == bane_card,
            setup.project_cards == project_cards,
            setup.bane_cards@.len() == 0,
            setup.second_zebra is None,
    {
        Self { kingdom_cards, bane_card, project_cards, bane_cards: Vec::new(), second_zebra: None }
    }

    /// A setup with a bane card, and neither projects nor bane tags.
    pub fn bane(bane: KC, other_kingdom: Vec<KC>) -> (setup: Self)
        ensures
            setup.kingdom_cards == other_kingdom,
            setup.bane_card == Some(bane),
            setup.project_cards@.len() == 0,
            setup.bane_cards@.len() == 0,
            setup.second_zebra is None,
    {
        Self {
            kingdom_cards: other_kingdom,
            bane_card: Some(bane),
            project_cards: Vec::new(),
            bane_cards: Vec::new(),
            second_zebra: None,
        }
    }

    /// The kingdom cards, followed by the bane card where there is one.
    pub open spec fn card_list(&self) -> Seq<KC> {
        match self.bane_card {
            Some(bane) => self.kingdom_cards@.push(bane),
            None => self.kingdom_cards@,
        }
    }

    /// The cards to lay out: the kingdom cards, followed by the bane card
    /// where there is one.
    pub fn cards(&self) -> (cards: Vec<KC>)
        ensures
            cards@ == self.card_list(),
    {
        let mut cards: Vec<KC> = Vec::new();
        let mut i: usize = 0;
        while i < self.kingdom_cards.len()
            invariant
                i <= self.kingdom_cards.len(),
                cards@ == self.kingdom_cards@.take(i as int),
            decreases self.kingdom_cards.len() - i,
        {
            cards.push(self.kingdom_cards[i]);
            i = i + 1;
        }
        assert(self.kingdom_cards@.take(i as int) =~= self.kingdom_cards@);
        match self.bane_card {
            Some(bane) => cards.push(bane),
            None => {},
        }
        cards
    }

    /// The kingdom cards that carry a bane tag, in the order of `bane_cards`.
    pub open spec fn tagged(&self) -> Seq<KC> {
        Seq::new(self.bane_cards@.len(), |i: int| self.bane_cards@[i].0)
    }

    /// The bane tags laid, in the order of `bane_cards`.
    pub open spec fn tags(&self) -> Seq<BaneCard> {
        Seq::new(self.bane_cards@.len(), |i: int| self.bane_cards@[i].1)
    }

    /// The bane tags as a mapping from kingdom card to tag.
    pub open spec fn tag_map(&self) -> Map<KC, BaneCard> {
        Map::new(
            |card: KC| self.tagged().contains(card),
            |card: KC| self.tags()[self.tagged().index_of(card)],
        )
    }

    /// The kingdom holds ten cards, none twice.
    pub open spec fn kingdom_valid(&self) -> bool {
        &&& self.kingdom_cards@.len() == KINGDOM_SIZE
        &&& self.kingdom_cards@.no_duplicates()
    }

    /// There is a bane card exactly where the Young Witch is in the kingdom.
    /// It costs 2 or 3, is no kingdom card and carries no bane tag.
    pub open spec fn bane_valid(&self) -> bool {
        &&& self.bane_card is Some <==> self.kingdom_cards@.contains(KC::YoungWitch)
        &&& self.bane_card matches Some(bane) ==> {
            &&& bane_worthy(bane)
            &&& !self.kingdom_cards@.contains(bane)
            &&& !self.tagged().contains(bane)
        }
    }

    /// Every bane tag lies on a kingdom card, no card carries two, and no
    /// tag is laid twice.
    pub open spec fn tags_valid(&self) -> bool {
        &&& forall|card: KC| #[trigger]
            self.tagged().contains(card) ==> self.kingdom_cards@.contains(card)
        &&& self.tagged().no_duplicates()
        &&& self.tags().no_duplicates()
    }

    /// There is a second zebra exactly where a Zebra tag was laid. It is
    /// neither a kingdom card nor the bane card.
    pub open spec fn zebra_valid(&self) -> bool {
        &&& self.second_zebra is Some <==> self.tags().contains(BaneCard::Zebra)
        &&& self.second_zebra matches Some(zebra) ==> {
            &&& !self.kingdom_cards@.contains(zebra)
            &&& self.bane_card != Some(zebra)
        }
    }

    /// What holds of every setup that the generator hands out, whatever was
    /// asked for.
    pub open spec fn well_formed(&self) -> bool {
        &&& self.kingdom_valid()
        &&& self.bane_valid()
        &&& self.tags_valid()
        &&& self.zebra_valid()
        &&& self.project_cards@.no_duplicates()
    }

    /// The kingdom follows the request: every forced card is in it, no banned
    /// one is, and every other card of it comes from a wanted expansion. The
    /// forced cards stand last, in the order of the request.
    pub open spec fn kingdom_follows(&self, config: &SetupConfig) -> bool {
        &&& self.kingdom_cards@.skip(config.free_places()) == config.forced()
        &&& forall|card: KC| config.forces(card) ==> #[trigger] self.kingdom_cards@.contains(card)
        &&& forall|card: KC| #[trigger]
            self.kingdom_cards@.contains(card) ==> !config.bans(card)
        &&& forall|card: KC| #[trigger]
            self.kingdom_cards@.contains(card) && !config.forces(card) ==> config.offers(card)
    }

    /// The cards from outside the kingdom are cards that could have filled a
    /// free place of it.
    pub open spec fn extras_follow(&self, config: &SetupConfig) -> bool {
        &&& self.bane_card matches Some(bane) ==> config.eligible(bane)
        &&& self.second_zebra matches Some(zebra) ==> config.eligible(zebra)
    }

    /// As many bane tags are laid as were asked for.
    pub open spec fn tags_follow(&self, config: &SetupConfig) -> bool {
        self.bane_cards@.len() == config.tag_count()
    }

    /// The projects come from the wanted expansions, and are as many as were
    /// asked for; fewer than three where the number was left open.
    pub open spec fn projects_follow(&self, config: &SetupConfig) -> bool {
        &&& forall|project: Project| #[trigger]
            self.project_cards@.contains(project) ==> config.offers(project)
        &&& match config.project_count {
            Some(count) => self.project_cards@.len() == count.number(),
            None => self.project_cards@.len() < 3,
        }
    }

    /// The setup is valid and is what `config` asks for.
    pub open spec fn fulfils(&self, config: &SetupConfig) -> bool {
        &&& self.well_formed()
        &&& self.kingdom_follows(config)
        &&& self.extras_follow(config)
        &&& self.tags_follow(config)
        &&& self.projects_follow(config)
    }
}

} // verus!
