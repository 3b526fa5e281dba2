//! What holds of every request and of every setup that the generator hands
//! out, stated one law at a time.
//!
//! `gen_setup` returns `Ok(setup)` only with `setup.fulfils(&config)`, turns
//! an incoherent request down with an error that `config.rejects`, and fails
//! on a coherent one only as `may_fail` allows. The laws below say what
//! those predicates mean.

use crate::cards::{BaneCard, Expansion, Expansions, Project, KC};
use crate::config::{GenSetupError, SetupConfig, KINGDOM_SIZE};
use crate::generator::{bane_may_lack, may_fail, worthiness, worthy_pool, zebra_may_lack};
use crate::hist::{histogram_of, lemma_same_entries};
use crate::lists::{
    lemma_distinct, lemma_filter_distinct, lemma_holds_as_many, lemma_shared_out,
};
use crate::rank::Ranked;
use crate::setup::{bane_worthy, Setup};
use vstd::prelude::*;

verus! {

/// The kingdom of a generated setup has exactly ten cards, all distinct.
pub proof fn law_ten_distinct_cards(setup: Setup, config: &SetupConfig)
    requires
        setup.fulfils(config),
    ensures
        setup.kingdom_cards@.len() == 10,
        setup.kingdom_cards@.no_duplicates(),
{
}

/// Every card that carries a bane tag is a kingdom card, and carries one
/// tag only.
pub proof fn law_tags_lie_on_kingdom_cards(setup: Setup, config: &SetupConfig, i: int)
    requires
        setup.fulfils(config),
        0 <= i < setup.bane_cards@.len(),
    ensures
        setup.kingdom_cards@.contains(setup.bane_cards@[i].0),
        forall|j: int|
            0 <= j < setup.bane_cards@.len() && j != i ==> setup.bane_cards@[j].0
                != setup.bane_cards@[i].0,
        setup.tag_map().dom().contains(setup.bane_cards@[i].0),
        setup.tag_map()[setup.bane_cards@[i].0] == setup.bane_cards@[i].1,
{
    let tagged = setup.tagged();
    assert(tagged[i] == setup.bane_cards@[i].0);
    assert(tagged.contains(tagged[i]));
    assert forall|j: int| 0 <= j < setup.bane_cards@.len() && j != i implies setup.bane_cards@[j].0
        != setup.bane_cards@[i].0 by {
        assert(tagged[j] == setup.bane_cards@[j].0);
    }
    let found = tagged.index_of(tagged[i]);
    assert(tagged[found] == tagged[i]);
    assert(setup.tags()[i] == setup.bane_cards@[i].1);
}

/// The bane tags of a generated setup are pairwise distinct.
pub proof fn law_tags_are_distinct(setup: Setup, config: &SetupConfig, i: int, j: int)
    requires
        setup.fulfils(config),
        0 <= i < setup.bane_cards@.len(),
        0 <= j < setup.bane_cards@.len(),
        i != j,
    ensures
        setup.bane_cards@[i].1 != setup.bane_cards@[j].1,
{
    assert(setup.tags()[i] == setup.bane_cards@[i].1);
    assert(setup.tags()[j] == setup.bane_cards@[j].1);
}

/// The bane card of a generated setup carries no bane tag.
pub proof fn law_bane_card_is_untagged(setup: Setup, config: &SetupConfig)
    requires
        setup.fulfils(config),
    ensures
        setup.bane_card matches Some(bane) ==> {
            &&& !setup.tag_map().dom().contains(bane)
            &&& forall|i: int| 0 <= i < setup.bane_cards@.len() ==> setup.bane_cards@[i].0 != bane
        },
{
    assert forall|i: int| 0 <= i < setup.bane_cards@.len() implies setup.bane_card != Some(
        setup.bane_cards@[i].0,
    ) by {
        assert(setup.tagged()[i] == setup.bane_cards@[i].0);
        assert(setup.tagged().contains(setup.tagged()[i]));
    }
}

/// Every kingdom card that was not forced belongs to an expansion that the
/// request draws from. A forced card need not: it may come from anywhere.
pub proof fn law_expansions_are_respected(setup: Setup, config: &SetupConfig, card: KC)
    requires
        setup.fulfils(config),
        setup.kingdom_cards@.contains(card),
        !config.forces(card),
    ensures
        exists|expansion: Expansion| #[trigger]
            card.expansion_list().contains(expansion) && config.draws_from(expansion),
{
}

/// No banned card is in the kingdom, and none is the bane card or the
/// second zebra.
pub proof fn law_bans_are_respected(setup: Setup, config: &SetupConfig, card: KC)
    requires
        setup.fulfils(config),
        config.bans(card),
    ensures
        !setup.kingdom_cards@.contains(card),
        setup.bane_card != Some(card),
        setup.second_zebra != Some(card),
{
}

/// Every forced card is in the kingdom.
pub proof fn law_forced_cards_are_in(setup: Setup, config: &SetupConfig, card: KC)
    requires
        setup.fulfils(config),
        config.forces(card),
    ensures
        setup.kingdom_cards@.contains(card),
{
}

/// A request that draws from no expansion at all is turned down for want of
/// kingdom cards. Left out are the requests that fail before cards are
/// counted (a card both banned and forced, projects asked for), and those
/// whose forced cards make up the kingdom by themselves.
pub proof fn law_no_expansion_no_kingdom(config: &SetupConfig)
    requires
        config.include_expansions matches Some(list) && list@.len() == 0,
        config.conflict().len() == 0,
        config.forced().len() < KINGDOM_SIZE,
        config.project_count matches Some(count) ==> count.number() == 0,
    ensures
        !config.coherent(),
        config.rejects(GenSetupError::CouldNotSatisfyKingdomCards),
        forall|error: GenSetupError| #[trigger]
            config.rejects(error) ==> error == GenSetupError::CouldNotSatisfyKingdomCards,
{
    config.lemma_lists();
    let pool = config.pool();
    if pool.len() > 0 {
        assert(pool.contains(pool[0]));
        assert(config.offers(pool[0]));
    }
}

/// A request for more projects than its expansions hold is turned down for
/// want of projects. All projects belong to Renaissance, so a request that
/// does not draw from it can have none. Left out are the requests that fail
/// before projects are counted: a card both banned and forced, or more
/// forced cards than a kingdom holds.
pub proof fn law_projects_need_their_expansion(config: &SetupConfig)
    requires
        config.conflict().len() == 0,
        config.forced().len() <= KINGDOM_SIZE,
        config.project_count matches Some(count) && {
            ||| count.number() > config.project_pool().len()
            ||| count.number() > 0 && !config.draws_from(Expansion::Renaissance)
        },
    ensures
        !config.coherent(),
        config.rejects(GenSetupError::CouldNotSatisfyProjectsFromExpansions),
        forall|error: GenSetupError| #[trigger]
            config.rejects(error) ==> error
                == GenSetupError::CouldNotSatisfyProjectsFromExpansions,
{
    config.lemma_lists();
    let pool = config.project_pool();
    if !config.draws_from(Expansion::Renaissance) && pool.len() > 0 {
        let project = pool[0];
        assert(pool.contains(project));
        assert(config.offers(project));
        let expansion = choose|e: Expansion| #[trigger]
            project.expansion_list().contains(e) && config.draws_from(e);
        let i = choose|i: int|
            0 <= i < project.expansion_list().len() && project.expansion_list()[i] == expansion;
        assert(project.expansion_list()[i] == Expansion::Renaissance);
    }
}

/// A request that forces more than ten different cards is turned down as
/// forcing too many, whatever its expansions are. Left out are the requests
/// that ban one of the forced cards: they fail for that.
pub proof fn law_eleven_are_too_many(config: &SetupConfig)
    requires
        config.include_cards matches Some(list) && list@.to_set().len() > 10,
        config.conflict().len() == 0,
    ensures
        !config.coherent(),
        config.rejects(GenSetupError::TooManyCardsIncluded),
        forall|error: GenSetupError| #[trigger]
            config.rejects(error) ==> error == GenSetupError::TooManyCardsIncluded,
{
    let list = config.include_cards.unwrap()@;
    lemma_distinct(list);
    config.forced().unique_seq_to_set();
    assert(config.forced().to_set() =~= list.to_set());
}

/// A request that bans a card and forces it too is turned down with the
/// cards that are both banned and forced: all of them, each once.
pub proof fn law_bans_and_forced_cards_are_apart(
    config: &SetupConfig,
    card: KC,
    error: GenSetupError,
)
    requires
        config.bans(card),
        config.forces(card),
        config.rejects(error),
    ensures
        !config.coherent(),
        error matches GenSetupError::IntersectingCardBansAndIncludes(cards) && {
            &&& cards@.no_duplicates()
            &&& forall|other: KC| cards@.contains(other) <==> config.bans(other) && config.forces(other)
        },
{
    config.lemma_lists();
    assert(config.conflict().contains(card));
}

/// As many bane tags are laid as the request asks for: none where it is
/// silent.
pub proof fn law_tags_as_asked(setup: Setup, config: &SetupConfig)
    requires
        setup.fulfils(config),
    ensures
        setup.bane_cards@.len() == match config.bane_count {
            Some(count) => count.number(),
            None => 0,
        },
        setup.bane_cards@.len() <= 3,
{
}

/// With the Young Witch in the kingdom there is a bane card of cost 2 or 3,
/// and the cards to lay out are eleven. A request that forces her has her in
/// the kingdom.
pub proof fn law_young_witch_brings_a_bane(setup: Setup, config: &SetupConfig)
    requires
        setup.fulfils(config),
        config.forces(KC::YoungWitch) || setup.kingdom_cards@.contains(KC::YoungWitch),
    ensures
        setup.bane_card matches Some(bane) && bane_worthy(bane),
        setup.card_list().len() == 11,
        setup.card_list().no_duplicates(),
{
    let kingdom = setup.kingdom_cards@;
    let bane = setup.bane_card.unwrap();
    assert forall|i: int, j: int|
        0 <= i < setup.card_list().len() && 0 <= j < setup.card_list().len() && i
            != j implies setup.card_list()[i] != setup.card_list()[j] by {
        if i < kingdom.len() {
            assert(kingdom.contains(kingdom[i]));
        }
        if j < kingdom.len() {
            assert(kingdom.contains(kingdom[j]));
        }
    }
}

/// Without the Young Witch in the kingdom there is no bane card, and the
/// cards to lay out are ten. A request that bans her keeps her out.
pub proof fn law_no_young_witch_no_bane(setup: Setup, config: &SetupConfig)
    requires
        setup.fulfils(config),
        config.bans(KC::YoungWitch) || !setup.kingdom_cards@.contains(KC::YoungWitch),
    ensures
        setup.bane_card is None,
        setup.card_list().len() == 10,
{
}

/// Where a Zebra tag is laid there is a second zebra, which is neither a
/// kingdom card nor the bane card; where none is laid there is no second
/// zebra.
pub proof fn law_zebra_brings_a_second(setup: Setup, config: &SetupConfig)
    requires
        setup.fulfils(config),
    ensures
        setup.tags().contains(BaneCard::Zebra) ==> (setup.second_zebra matches Some(zebra)
            && !setup.card_list().contains(zebra)),
        !setup.tags().contains(BaneCard::Zebra) ==> setup.second_zebra is None,
{
    if setup.tags().contains(BaneCard::Zebra) {
        let zebra = setup.second_zebra.unwrap();
        if setup.card_list().contains(zebra) {
            let i = choose|i: int| 0 <= i < setup.card_list().len() && setup.card_list()[i] == zebra;
            if i < setup.kingdom_cards@.len() {
                assert(setup.kingdom_cards@.contains(setup.kingdom_cards@[i]));
            }
        }
    }
}

/// The projects of a generated setup are distinct, come from the expansions
/// that the request draws from, and are as many as it asks for; fewer than
/// three where it is silent.
pub proof fn law_projects_as_asked(setup: Setup, config: &SetupConfig, project: Project)
    requires
        setup.fulfils(config),
    ensures
        setup.project_cards@.no_duplicates(),
        setup.project_cards@.contains(project) ==> config.draws_from(Expansion::Renaissance),
        match config.project_count {
            Some(count) => setup.project_cards@.len() == count.number(),
            None => setup.project_cards@.len() < 3,
        },
{
    if setup.project_cards@.contains(project) {
        assert(config.offers(project));
        let expansion = choose|e: Expansion| #[trigger]
            project.expansion_list().contains(e) && config.draws_from(e);
        let i = choose|i: int|
            0 <= i < project.expansion_list().len() && project.expansion_list()[i] == expansion;
        assert(project.expansion_list()[i] == Expansion::Renaissance);
    }
}

/// The cards of the catalog that cost 2 or 3.
pub open spec fn bane_worthy_cards() -> Seq<KC> {
    seq![
        KC::ActingTroupe, KC::Ambassador, KC::BorderGuard, KC::CandlestickMaker,
        KC::CargoShip, KC::Cellar, KC::Chancellor, KC::Chapel, KC::Courtyard,
        KC::Doctor, KC::Ducat, KC::Embargo, KC::Experiment, KC::FishingVillage,
        KC::FortuneTeller, KC::Hamlet, KC::Harbinger, KC::Haven, KC::Improve,
        KC::Lackeys, KC::Lighthouse, KC::Lookout, KC::Lurker, KC::Masquerade,
        KC::Masterpiece, KC::Menagerie, KC::Merchant, KC::Moat, KC::NativeVillage,
        KC::Pawn, KC::PearlDiver, KC::ShantyTown, KC::Smugglers, KC::Steward,
        KC::Stonemason, KC::Swindler, KC::Vassal, KC::Village, KC::Warehouse,
        KC::WishingWell, KC::Woodcutter, KC::Workshop,
    ]
}

/// Forty-two cards of the catalog cost 2 or 3.
pub proof fn lemma_bane_worthy_cards()
    ensures
        bane_worthy_cards().len() == 42,
        bane_worthy_cards().no_duplicates(),
        forall|i: int| 0 <= i < 42 ==> bane_worthy(#[trigger] bane_worthy_cards()[i]),
        forall|card: KC| bane_worthy(card) ==> bane_worthy_cards().contains(card),
{
    let cards = bane_worthy_cards();
    assert forall|i: int, j: int| 0 <= i < j < 42 implies cards[i].ordinal() < cards[j].ordinal() by {}
    assert forall|card: KC| bane_worthy(card) implies cards.contains(card) by {
        assert(exists|i: int| 0 <= i < 42 && cards[i] == card);
    }
}

/// A request that draws from every expansion and bans no more than twenty
/// cards is met whatever is drawn: with or without the Young Witch, with
/// any number of projects and of bane tags. Left out are the requests that
/// say too much about cards: one both banned and forced, or more than ten
/// forced.
pub proof fn law_open_requests_are_met(config: &SetupConfig)
    requires
        config.include_expansions is None,
        config.ban_cards matches Some(list) ==> list@.len() <= 20,
        config.conflict().len() == 0,
        config.forced().len() <= KINGDOM_SIZE,
    ensures
        config.coherent(),
        !bane_may_lack(config),
        !zebra_may_lack(config),
        forall|error: GenSetupError| !may_fail(config, error) && !config.rejects(error),
{
    config.lemma_lists();
    lemma_bane_worthy_cards();
    let worthy = worthy_pool(config);
    let cheap = bane_worthy_cards();
    let banned = match config.ban_cards {
        Some(list) => list@,
        None => Seq::empty(),
    };
    assert forall|card: KC| config.offers(card) by {
        assert(card.expansion_list().contains(card.expansion_list()[0]));
    }
    assert forall|project: Project| config.offers(project) by {
        assert(project.expansion_list().contains(project.expansion_list()[0]));
    }
    lemma_filter_distinct(config.pool(), worthiness());
    assert forall|i: int| 0 <= i < cheap.len() implies worthy.contains(#[trigger] cheap[i])
        || config.forced().contains(cheap[i]) || banned.contains(cheap[i]) by {
        let card = cheap[i];
        if !config.forces(card) && !config.bans(card) {
            assert(config.eligible(card));
            assert(config.pool().contains(card));
        }
    }
    lemma_shared_out(cheap, worthy, config.forced(), banned);
    config.pool().lemma_filter_len(worthiness());
    let two = seq![Project::Academy, Project::Barracks];
    assert forall|i: int| 0 <= i < two.len() implies config.project_pool().contains(
        #[trigger] two[i],
    ) by {}
    lemma_holds_as_many(config.project_pool(), two);
}

/// There is one histogram of given items and buckets only: its entries are
/// settled by what it counts.
pub proof fn law_one_histogram<T: Ranked>(
    a: Seq<(T, usize)>,
    b: Seq<(T, usize)>,
    buckets: Seq<T>,
    items: Seq<T>,
)
    requires
        histogram_of(a, buckets, items),
        histogram_of(b, buckets, items),
    ensures
        a == b,
{
    lemma_same_entries(a, b);
}

} // verus!
