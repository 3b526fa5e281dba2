//! The setup generator: from a request to a valid setup, or to the reason
//! why there is none.
//!
//! Every random draw is made by `gen_setup` through the `random` module. What
//! follows from a draw is decided by `deal_kingdom` and `complete_setup`,
//! which take the drawn values as arguments and are exact about the outcome.

use crate::cards::{BaneCard, Project, KC};
use crate::config::{GenSetupError, SetupConfig, KINGDOM_SIZE};
use crate::lists::{has_card, lemma_filter_distinct, lemma_picked, lemma_rearranged};
use crate::random::{choose_multiple, gen_below, shuffle};
use crate::setup::{bane_worthy, is_bane_worthy, Setup};
use vstd::prelude::*;
use vstd::seq_lib::lemma_no_dup_in_concat;
use vstd::set_lib::lemma_len_subset;

verus! {

/// A kingdom dealt from a shuffled pool, with what the deal left over.
#[derive(Debug)]
pub struct Deal {
    /// The cards of the kingdom: those dealt, and after them the forced ones.
    pub kingdom_cards: Vec<KC>,
    /// The card that goes with the Young Witch, where she is in the kingdom.
    pub bane_card: Option<KC>,
    /// The shuffled cards that the deal has not reached, in their order.
    pub spare: Vec<KC>,
}

/// How an attempt to deal a kingdom ended.
#[derive(Debug)]
pub enum Dealing {
    /// A kingdom was dealt.
    Dealt(Deal),
    /// No bane card was found, but another shuffle may leave one over.
    Redeal,
    /// No shuffle can help.
    Failed(GenSetupError),
}

/// The number of places that the forced cards leave free.
pub open spec fn free_places(forced: Seq<KC>) -> int {
    KINGDOM_SIZE - forced.len()
}

/// The kingdom dealt from `shuffled`: as many cards from its front as there
/// are free places, and after them the forced cards.
pub open spec fn kingdom_of(forced: Seq<KC>, shuffled: Seq<KC>) -> Seq<KC> {
    shuffled.take(free_places(forced)) + forced
}

/// The shuffled cards that did not go into the kingdom.
pub open spec fn leftover(forced: Seq<KC>, shuffled: Seq<KC>) -> Seq<KC> {
    shuffled.skip(free_places(forced))
}

/// No card of the list may go with the Young Witch.
pub open spec fn none_worthy(cards: Seq<KC>) -> bool {
    forall|i: int| 0 <= i < cards.len() ==> !bane_worthy(#[trigger] cards[i])
}

/// The card at `at` is the first of the list that may go with the Young Witch.
pub open spec fn first_worthy(cards: Seq<KC>, at: int) -> bool {
    &&& 0 <= at < cards.len()
    &&& bane_worthy(cards[at])
    &&& none_worthy(cards.take(at))
}

/// `dealing` is how the deal of `shuffled` around the `forced` cards ends.
/// The branches are tried in their order.
pub open spec fn deals(forced: Seq<KC>, shuffled: Seq<KC>, dealing: Dealing) -> bool {
    let kingdom = kingdom_of(forced, shuffled);
    let rest = leftover(forced, shuffled);
    if forced.len() > KINGDOM_SIZE {
        dealing == Dealing::Failed(GenSetupError::TooManyCardsIncluded)
    } else if shuffled.len() < free_places(forced) {
        dealing == Dealing::Failed(GenSetupError::CouldNotSatisfyKingdomCards)
    } else if !kingdom.contains(KC::YoungWitch) {
        &&& dealing matches Dealing::Dealt(deal)
        &&& deal.kingdom_cards@ == kingdom
        &&& deal.bane_card is None
        &&& deal.spare@ == rest
    } else if !none_worthy(rest) {
        &&& dealing matches Dealing::Dealt(deal)
        &&& deal.kingdom_cards@ == kingdom
        &&& exists|at: int|
            {
                &&& first_worthy(rest, at)
                &&& deal.bane_card == Some(rest[at])
                &&& deal.spare@ == rest.skip(at + 1)
            }
    } else if !none_worthy(kingdom) {
        dealing is Redeal
    } else {
        dealing == Dealing::Failed(GenSetupError::CouldNotSatisfyBaneCard)
    }
}

/// The tags laid on the tagged cards, pair by pair, as far as both lists go.
pub open spec fn pairs(tagged: Seq<KC>, tags: Seq<BaneCard>) -> Seq<(KC, BaneCard)> {
    Seq::new(
        if tagged.len() <= tags.len() {
            tagged.len()
        } else {
            tags.len()
        },
        |i: int| (tagged[i], tags[i]),
    )
}

/// One of the pairs carries the Zebra tag.
pub open spec fn zebra_laid(laid: Seq<(KC, BaneCard)>) -> bool {
    exists|i: int| 0 <= i < laid.len() && (#[trigger] laid[i]).1 == BaneCard::Zebra
}

/// `result` is the setup made of the deal, the projects and the tags; or
/// the failure to find a second zebra among the spare cards.
pub open spec fn completes(
    deal: Deal,
    project_cards: Seq<Project>,
    tagged: Seq<KC>,
    tags: Seq<BaneCard>,
    result: Result<Setup, GenSetupError>,
) -> bool {
    let laid = pairs(tagged, tags);
    if zebra_laid(laid) && deal.spare@.len() == 0 {
        result == Err::<Setup, GenSetupError>(GenSetupError::CouldNotSatisfySecondZebra)
    } else {
        &&& result matches Ok(setup)
        &&& setup.kingdom_cards@ == deal.kingdom_cards@
        &&& setup.bane_card == deal.bane_card
        &&& setup.project_cards@ == project_cards
        &&& setup.bane_cards@ == laid
        &&& setup.second_zebra == if zebra_laid(laid) {
            Some(deal.spare@[0])
        } else {
            None
        }
    }
}

/// `bane_worthy` as a predicate to filter by.
pub open spec fn worthiness() -> spec_fn(KC) -> bool {
    |card: KC| bane_worthy(card)
}

/// The cards of the pool that may go with the Young Witch.
pub open spec fn worthy_pool(config: &SetupConfig) -> Seq<KC> {
    config.pool().filter(worthiness())
}

/// The Young Witch may come into the kingdom: she is forced, or may fill a
/// free place.
pub open spec fn witch_in_reach(config: &SetupConfig) -> bool {
    config.forces(KC::YoungWitch) || config.eligible(KC::YoungWitch)
}

/// A deal may leave the Young Witch without a bane card: she may come into
/// the kingdom, and the free places can take every card of the pool that
/// may go with her.
pub open spec fn bane_may_lack(config: &SetupConfig) -> bool {
    witch_in_reach(config) && worthy_pool(config).len() <= config.free_places()
}

/// Every deal leaves the Young Witch without a bane card. She is in every
/// kingdom: forced, or in a pool that goes into the kingdom whole. And
/// nothing that may go with her is ever left over: the pool goes into the
/// kingdom whole, or holds no such card.
pub open spec fn bane_must_lack(config: &SetupConfig) -> bool {
    let whole = config.pool().len() == config.free_places();
    ||| config.forces(KC::YoungWitch) && (whole || worthy_pool(config).len() == 0)
    ||| config.eligible(KC::YoungWitch) && whole
}

/// A deal may leave a Zebra tag without a second zebra: tags are asked for,
/// and the pool may be used up by the kingdom, or by the kingdom and a bane
/// card that is the last card left over.
pub open spec fn zebra_may_lack(config: &SetupConfig) -> bool {
    &&& config.tag_count() > 0
    &&& {
        ||| config.pool().len() == config.free_places()
        ||| witch_in_reach(config) && worthy_pool(config).len() <= config.free_places() + 1
    }
}

/// `error` is a failure that the draws may bring on a coherent request.
pub open spec fn may_fail(config: &SetupConfig, error: GenSetupError) -> bool {
    ||| error == GenSetupError::CouldNotSatisfyBaneCard && bane_may_lack(config)
    ||| error == GenSetupError::CouldNotSatisfySecondZebra && zebra_may_lack(config)
}

/// The setup is what comes of one way to draw: of a shuffle of the pool, of
/// the deal from it, of cards picked from the dealt kingdom to be tagged, and
/// of tags picked from the catalog, as many of each as the request asks for.
pub open spec fn drawn(
    config: &SetupConfig,
    shuffled: Seq<KC>,
    deal: Deal,
    tagged: Seq<KC>,
    tags: Seq<BaneCard>,
    setup: Setup,
) -> bool {
    &&& shuffled.to_multiset() == config.pool().to_multiset()
    &&& deals(config.forced(), shuffled, Dealing::Dealt(deal))
    &&& tagged.to_multiset().subset_of(deal.kingdom_cards@.to_multiset())
    &&& tagged.len() == config.tag_count()
    &&& tags.to_multiset().subset_of(BaneCard::catalog().to_multiset())
    &&& tags.len() == config.tag_count()
    &&& completes(deal, setup.project_cards@, tagged, tags, Ok(setup))
}

/// Deals a kingdom from a shuffled pool: the free places are filled from the
/// front of `shuffled`, the forced cards follow. Where the Young Witch is in
/// the kingdom, the first left-over card of cost 2 or 3 becomes the bane card.
pub fn deal_kingdom(forced: &Vec<KC>, shuffled: &Vec<KC>) -> (dealing: Dealing)
    ensures
        deals(forced@, shuffled@, dealing),
{
    if forced.len() > KINGDOM_SIZE {
        return Dealing::Failed(GenSetupError::TooManyCardsIncluded);
    }
    let free: usize = KINGDOM_SIZE - forced.len();
    if shuffled.len() < free {
        return Dealing::Failed(GenSetupError::CouldNotSatisfyKingdomCards);
    }
    let ghost kingdom = kingdom_of(forced@, shuffled@);
    let ghost rest = leftover(forced@, shuffled@);
    let mut kingdom_cards: Vec<KC> = Vec::new();
    let mut i: usize = 0;
    while i < free
        invariant
            i <= free <= shuffled.len(),
            kingdom_cards@ == shuffled@.take(i as int),
        decreases free - i,
    {
        kingdom_cards.push(shuffled[i]);
        i = i + 1;
    }
    let mut k: usize = 0;
    while k < forced.len()
        invariant
            k <= forced.len(),
            kingdom_cards@ == shuffled@.take(free as int) + forced@.take(k as int),
        decreases forced.len() - k,
    {
        kingdom_cards.push(forced[k]);
        k = k + 1;
    }
    assert(forced@.take(forced.len() as int) =~= forced@);
    assert(kingdom_cards@ == kingdom);
    if !has_card(&kingdom_cards, KC::YoungWitch) {
        let spare = tail_from(shuffled, free);
        return Dealing::Dealt(Deal { kingdom_cards, bane_card: None, spare });
    }
    let mut at: usize = free;
    while at < shuffled.len()
        invariant
            free <= at <= shuffled.len(),
            forced.len() <= KINGDOM_SIZE,
            free == free_places(forced@),
            kingdom == kingdom_of(forced@, shuffled@),
            rest == leftover(forced@, shuffled@),
            kingdom_cards@ == kingdom,
            kingdom.contains(KC::YoungWitch),
            none_worthy(rest.take(at - free)),
        decreases shuffled.len() - at,
    {
        let card = shuffled[at];
        if is_bane_worthy(card) {
            let spare = tail_from(shuffled, at + 1);
            proof {
                assert(rest[at - free] == card);
                assert(first_worthy(rest, at - free));
                assert(spare@ =~= rest.skip(at - free + 1));
            }
            return Dealing::Dealt(Deal { kingdom_cards, bane_card: Some(card), spare });
        }
        proof {
            let seen = rest.take(at - free + 1);
            assert forall|j: int| 0 <= j < seen.len() implies !bane_worthy(#[trigger] seen[j]) by {
                if j < at - free {
                    assert(seen[j] == rest.take(at - free)[j]);
                }
            }
        }
        at = at + 1;
    }
    assert(rest.take(rest.len() as int) =~= rest);
    let mut j: usize = 0;
    while j < kingdom_cards.len()
        invariant
            j <= kingdom_cards.len(),
            forced.len() <= KINGDOM_SIZE,
            shuffled.len() >= free_places(forced@),
            kingdom == kingdom_of(forced@, shuffled@),
            rest == leftover(forced@, shuffled@),
            kingdom_cards@ == kingdom,
            kingdom.contains(KC::YoungWitch),
            none_worthy(rest),
            none_worthy(kingdom_cards@.take(j as int)),
        decreases kingdom_cards.len() - j,
    {
        if is_bane_worthy(kingdom_cards[j]) {
            assert(bane_worthy(kingdom[j as int]));
            return Dealing::Redeal;
        }
        proof {
            let seen = kingdom_cards@.take(j + 1);
            assert forall|n: int| 0 <= n < seen.len() implies !bane_worthy(#[trigger] seen[n]) by {
                if n < j {
                    assert(seen[n] == kingdom_cards@.take(j as int)[n]);
                }
            }
        }
        j = j + 1;
    }
    assert(kingdom_cards@.take(kingdom_cards.len() as int) =~= kingdom_cards@);
    Dealing::Failed(GenSetupError::CouldNotSatisfyBaneCard)
}

/// The cards of the list from position `from` on.
fn tail_from(cards: &Vec<KC>, from: usize) -> (tail: Vec<KC>)
    requires
        from <= cards.len(),
    ensures
        tail@ == cards@.skip(from as int),
{
    let mut tail: Vec<KC> = Vec::new();
    let mut i: usize = from;
    while i < cards.len()
        invariant
            from <= i <= cards.len(),
            tail@ == cards@.subrange(from as int, i as int),
        decreases cards.len() - i,
    {
        tail.push(cards[i]);
        i = i + 1;
    }
    assert(cards@.subrange(from as int, cards.len() as int) =~= cards@.skip(from as int));
    tail
}

/// Makes the setup of a dealt kingdom: lays the tags on the tagged cards,
/// pair by pair, and where one of them is the Zebra takes the first spare
/// card as the second zebra.
pub fn complete_setup(
    deal: Deal,
    project_cards: Vec<Project>,
    tagged: Vec<KC>,
    tags: Vec<BaneCard>,
) -> (result: Result<Setup, GenSetupError>)
    ensures
        completes(deal, project_cards@, tagged@, tags@, result),
{
    let count: usize = if tagged.len() <= tags.len() {
        tagged.len()
    } else {
        tags.len()
    };
    let ghost laid = pairs(tagged@, tags@);
    let mut bane_cards: Vec<(KC, BaneCard)> = Vec::new();
    let mut zebra: bool = false;
    let mut i: usize = 0;
    while i < count
        invariant
            i <= count,
            count <= tagged.len(),
            count <= tags.len(),
            count == laid.len(),
            laid == pairs(tagged@, tags@),
            bane_cards@ == laid.take(i as int),
            zebra == zebra_laid(laid.take(i as int)),
        decreases count - i,
    {
        let tag = tags[i];
        proof {
            let before = laid.take(i as int);
            let after = laid.take(i + 1);
            assert(after =~= before.push((tagged@[i as int], tag)));
            if zebra_laid(before) {
                let n = choose|n: int| 0 <= n < before.len() && (#[trigger] before[n]).1 == BaneCard::Zebra;
                assert(after[n].1 == BaneCard::Zebra);
            }
            if tag == BaneCard::Zebra {
                assert(after[i as int].1 == BaneCard::Zebra);
            }
            if zebra_laid(after) && tag != BaneCard::Zebra {
                let n = choose|n: int| 0 <= n < after.len() && (#[trigger] after[n]).1 == BaneCard::Zebra;
                assert(before[n].1 == BaneCard::Zebra);
            }
        }
        if tag == BaneCard::Zebra {
            zebra = true;
        }
        bane_cards.push((tagged[i], tag));
        i = i + 1;
    }
    assert(laid.take(count as int) =~= laid);
    let second_zebra = if zebra {
        if deal.spare.len() == 0 {
            return Err(GenSetupError::CouldNotSatisfySecondZebra);
        }
        Some(deal.spare[0])
    } else {
        None
    };
    Ok(
        Setup {
            kingdom_cards: deal.kingdom_cards,
            bane_card: deal.bane_card,
            project_cards,
            bane_cards,
            second_zebra,
        },
    )
}

/// A kingdom dealt from a shuffle of the pool holds ten cards, none twice:
/// the forced ones, and cards that may fill a free place. What is left over
/// may fill a free place too, and is not in the kingdom.
pub proof fn lemma_deal(config: &SetupConfig, shuffled: Seq<KC>)
    requires
        config.conflict().len() == 0,
        config.forced().len() <= KINGDOM_SIZE,
        shuffled.to_multiset() == config.pool().to_multiset(),
        shuffled.len() >= free_places(config.forced()),
    ensures
        ({
            let kingdom = kingdom_of(config.forced(), shuffled);
            let rest = leftover(config.forced(), shuffled);
            &&& kingdom.len() == KINGDOM_SIZE
            &&& kingdom.no_duplicates()
            &&& forall|card: KC| config.forces(card) ==> kingdom.contains(card)
            &&& forall|card: KC| #[trigger]
                kingdom.contains(card) ==> config.forces(card) || config.eligible(card)
            &&& forall|card: KC| #[trigger] kingdom.contains(card) ==> !config.bans(card)
            &&& rest.no_duplicates()
            &&& forall|card: KC| #[trigger]
                rest.contains(card) ==> config.eligible(card) && !kingdom.contains(card)
        }),
{
    let forced = config.forced();
    let free = free_places(forced);
    let head = shuffled.take(free);
    let kingdom = kingdom_of(forced, shuffled);
    let rest = leftover(forced, shuffled);
    config.lemma_lists();
    lemma_rearranged(config.pool(), shuffled);
    assert forall|i: int| 0 <= i < shuffled.len() implies config.eligible(#[trigger] shuffled[i]) by {
        assert(shuffled.contains(shuffled[i]));
    }
    assert forall|card: KC| !(config.bans(card) && config.forces(card)) by {
        if config.bans(card) && config.forces(card) {
            assert(config.conflict().contains(card));
        }
    }
    assert forall|i: int, j: int| 0 <= i < head.len() && 0 <= j < forced.len() implies head[i]
        != forced[j] by {
        assert(config.eligible(shuffled[i]));
        assert(forced.contains(forced[j]));
    }
    lemma_no_dup_in_concat(head, forced);
    assert forall|card: KC| config.forces(card) implies kingdom.contains(card) by {
        let j = choose|j: int| 0 <= j < forced.len() && forced[j] == card;
        assert(kingdom[head.len() + j] == card);
    }
    assert forall|card: KC| #[trigger] kingdom.contains(card) implies (config.forces(card)
        || config.eligible(card)) && !config.bans(card) by {
        let i = choose|i: int| 0 <= i < kingdom.len() && kingdom[i] == card;
        if i < head.len() {
            assert(config.eligible(shuffled[i]));
        } else {
            assert(forced.contains(forced[i - head.len()]));
        }
    }
    assert forall|card: KC| #[trigger] rest.contains(card) implies config.eligible(card)
        && !kingdom.contains(card) by {
        let i = choose|i: int| 0 <= i < rest.len() && rest[i] == card;
        assert(shuffled[free + i] == card);
        if kingdom.contains(card) {
            let k = choose|k: int| 0 <= k < kingdom.len() && kingdom[k] == card;
            if k < head.len() {
                assert(shuffled[k] == shuffled[free + i]);
            } else {
                assert(forced.contains(forced[k - head.len()]));
            }
        }
    }
}

/// Where the Young Witch stands and what may be left over for her, in a
/// deal from a shuffle of the pool.
pub proof fn lemma_bane(config: &SetupConfig, shuffled: Seq<KC>)
    requires
        config.conflict().len() == 0,
        config.forced().len() <= KINGDOM_SIZE,
        shuffled.to_multiset() == config.pool().to_multiset(),
        shuffled.len() >= free_places(config.forced()),
    ensures
        ({
            let kingdom = kingdom_of(config.forced(), shuffled);
            let rest = leftover(config.forced(), shuffled);
            &&& kingdom.contains(KC::YoungWitch) ==> witch_in_reach(config)
            &&& none_worthy(rest) ==> worthy_pool(config).len() <= config.free_places()
            &&& forall|at: int|
                first_worthy(rest, at) && at + 1 == rest.len() ==> worthy_pool(config).len()
                    <= config.free_places() + 1
            &&& bane_must_lack(config) ==> kingdom.contains(KC::YoungWitch) && none_worthy(rest)
        }),
{
    let forced = config.forced();
    let free = free_places(forced);
    let head = shuffled.take(free);
    let kingdom = kingdom_of(forced, shuffled);
    let rest = leftover(forced, shuffled);
    let worthy = worthy_pool(config);
    config.lemma_lists();
    lemma_rearranged(config.pool(), shuffled);
    lemma_deal(config, shuffled);
    lemma_filter_distinct(config.pool(), worthiness());
    worthy.unique_seq_to_set();
    // A worthy card of the pool stands in the shuffle, in the head or in the rest.
    assert forall|card: KC| worthy.contains(card) implies head.contains(card) || rest.contains(
        card,
    ) by {
        assert(shuffled.contains(card));
        let i = choose|i: int| 0 <= i < shuffled.len() && shuffled[i] == card;
        if i < free {
            assert(head[i] == card);
        } else {
            assert(rest[i - free] == card);
        }
    }
    if none_worthy(rest) {
        assert(worthy.to_set().subset_of(head.to_set())) by {
            assert forall|card: KC| worthy.to_set().contains(card) implies head.to_set().contains(
                card,
            ) by {
                assert(worthy.contains(card));
                if rest.contains(card) {
                    let i = choose|i: int| 0 <= i < rest.len() && rest[i] == card;
                    assert(bane_worthy(rest[i]));
                }
            }
        }
        lemma_len_subset(worthy.to_set(), head.to_set());
        head.lemma_cardinality_of_set();
    }
    assert forall|at: int| first_worthy(rest, at) && at + 1 == rest.len() implies worthy.len()
        <= config.free_places() + 1 by {
        let taken = head.push(rest[at]);
        assert(worthy.to_set().subset_of(taken.to_set())) by {
            assert forall|card: KC| worthy.to_set().contains(card) implies taken.to_set().contains(
                card,
            ) by {
                assert(worthy.contains(card));
                if rest.contains(card) {
                    let i = choose|i: int| 0 <= i < rest.len() && rest[i] == card;
                    if i < at {
                        assert(rest.take(at)[i] == card);
                    }
                    assert(taken[head.len() as int] == card);
                } else {
                    let i = choose|i: int| 0 <= i < head.len() && head[i] == card;
                    assert(taken[i] == card);
                }
            }
        }
        lemma_len_subset(worthy.to_set(), taken.to_set());
        taken.lemma_cardinality_of_set();
    }
    if kingdom.contains(KC::YoungWitch) {
        assert(witch_in_reach(config));
    }
    if bane_must_lack(config) {
        let whole = config.pool().len() == config.free_places();
        if !config.forces(KC::YoungWitch) {
            assert(shuffled.contains(KC::YoungWitch));
            let i = choose|i: int| 0 <= i < shuffled.len() && shuffled[i] == KC::YoungWitch;
            assert(kingdom[i] == KC::YoungWitch);
        }
        if !whole {
            assert forall|i: int| 0 <= i < rest.len() implies !bane_worthy(#[trigger] rest[i]) by {
                assert(rest.contains(rest[i]));
                if bane_worthy(rest[i]) {
                    assert(worthy.contains(rest[i]));
                }
            }
        }
    }
}

/// The setup completed from a deal of the shuffled pool, with projects picked
/// from the project pool, tagged cards picked from the kingdom and tags
/// picked from the catalog, is valid and is what the request asks for.
pub proof fn lemma_setup(
    config: &SetupConfig,
    shuffled: Seq<KC>,
    deal: Deal,
    project_cards: Seq<Project>,
    tagged: Seq<KC>,
    tags: Seq<BaneCard>,
    setup: Setup,
)
    requires
        config.coherent(),
        shuffled.to_multiset() == config.pool().to_multiset(),
        deals(config.forced(), shuffled, Dealing::Dealt(deal)),
        project_cards.to_multiset().subset_of(config.project_pool().to_multiset()),
        match config.project_count {
            Some(count) => project_cards.len() == count.number(),
            None => project_cards.len() < 3,
        },
        tagged.to_multiset().subset_of(deal.kingdom_cards@.to_multiset()),
        tagged.len() == config.tag_count(),
        tags.to_multiset().subset_of(BaneCard::catalog().to_multiset()),
        tags.len() == config.tag_count(),
        completes(deal, project_cards, tagged, tags, Ok(setup)),
    ensures
        setup.fulfils(config),
{
    let forced = config.forced();
    let kingdom = kingdom_of(forced, shuffled);
    let rest = leftover(forced, shuffled);
    let laid = pairs(tagged, tags);
    config.lemma_lists();
    lemma_rearranged(config.pool(), shuffled);
    lemma_deal(config, shuffled);
    lemma_picked(project_cards, config.project_pool());
    lemma_picked(tagged, kingdom);
    BaneCard::lemma_catalog_distinct();
    lemma_picked(tags, BaneCard::catalog());
    assert(setup.tagged() =~= tagged);
    assert(setup.tags() =~= tags);
    assert(setup.kingdom_valid());
    assert(setup.tags_valid());
    assert(setup.project_cards@.no_duplicates());
    assert(setup.projects_follow(config)) by {
        assert forall|project: Project| #[trigger]
            setup.project_cards@.contains(project) implies config.offers(project) by {
            assert(config.project_pool().contains(project));
        }
    }
    assert(setup.kingdom_cards@.skip(config.free_places()) =~= forced);
    assert(setup.kingdom_follows(config));
    assert(setup.tags_follow(config));
    // The bane card and what is spare after it.
    assert(forall|i: int| 0 <= i < deal.spare@.len() ==> rest.contains(#[trigger] deal.spare@[i])) by {
        if kingdom.contains(KC::YoungWitch) {
            let at = choose|at: int|
                {
                    &&& first_worthy(rest, at)
                    &&& deal.bane_card == Some(rest[at])
                    &&& deal.spare@ == rest.skip(at + 1)
                };
            assert forall|i: int| 0 <= i < deal.spare@.len() implies rest.contains(
                #[trigger] deal.spare@[i],
            ) by {
                assert(rest[at + 1 + i] == deal.spare@[i]);
            }
        } else {
            assert forall|i: int| 0 <= i < deal.spare@.len() implies rest.contains(
                #[trigger] deal.spare@[i],
            ) by {
                assert(rest[i] == deal.spare@[i]);
            }
        }
    }
    assert(setup.bane_valid() && (setup.bane_card matches Some(bane) ==> config.eligible(bane)
        && (deal.spare@.len() > 0 ==> deal.spare@[0] != bane))) by {
        if kingdom.contains(KC::YoungWitch) {
            let at = choose|at: int|
                {
                    &&& first_worthy(rest, at)
                    &&& deal.bane_card == Some(rest[at])
                    &&& deal.spare@ == rest.skip(at + 1)
                };
            assert(rest.contains(rest[at]));
            if deal.spare@.len() > 0 {
                assert(deal.spare@[0] == rest[at + 1]);
            }
        }
    }
    assert(zebra_laid(laid) <==> setup.tags().contains(BaneCard::Zebra)) by {
        if zebra_laid(laid) {
            let i = choose|i: int| 0 <= i < laid.len() && (#[trigger] laid[i]).1 == BaneCard::Zebra;
            assert(setup.tags()[i] == BaneCard::Zebra);
        }
        if setup.tags().contains(BaneCard::Zebra) {
            let i = choose|i: int| 0 <= i < setup.tags().len() && setup.tags()[i] == BaneCard::Zebra;
            assert(laid[i].1 == BaneCard::Zebra);
        }
    }
    assert(setup.zebra_valid() && (setup.second_zebra matches Some(zebra) ==> config.eligible(zebra))) by {
        if zebra_laid(laid) {
            assert(rest.contains(deal.spare@[0]));
        }
    }
}

/// Generate a valid setup from options (`SetupConfig`).
///
/// A request that cannot be met whatever is drawn is turned down with the
/// reason, the first that applies: cards both banned and forced, too many
/// forced cards, too few projects, too few kingdom cards. Otherwise cards
/// are drawn, and the result is the setup that comes of the draw, valid and
/// what the request asks for, or one of the two failures that depend on the
/// draw: no bane card for the Young Witch, no second zebra for a Zebra tag.
/// Where neither can happen the setup is owed; where no deal can leave a
/// bane card the failure is.
///
/// A deal that leaves no bane card while the kingdom holds a card that could
/// have been one is dealt again, at most once for each card of the pool;
/// after that the bane card counts as not to be had.
pub fn gen_setup(config: SetupConfig) -> (result: Result<Setup, GenSetupError>)
    ensures
        match result {
            Ok(setup) => config.coherent() && setup.fulfils(&config),
            Err(error) => if config.coherent() {
                may_fail(&config, error)
            } else {
                config.rejects(error)
            },
        },
        result matches Ok(setup) ==> exists|
            shuffled: Seq<KC>,
            deal: Deal,
            tagged: Seq<KC>,
            tags: Seq<BaneCard>,
        | drawn(&config, shuffled, deal, tagged, tags, setup),
        config.coherent() && !bane_may_lack(&config) && !zebra_may_lack(&config) ==> result is Ok,
        config.coherent() && bane_must_lack(&config) ==> result == Err::<Setup, GenSetupError>(
            GenSetupError::CouldNotSatisfyBaneCard,
        ),
{
    let mut rng = rand::thread_rng();
    let conflict = config.conflicting_cards();
    if conflict.len() > 0 {
        return Err(GenSetupError::IntersectingCardBansAndIncludes(conflict));
    }
    let forced = config.forced_cards();
    if forced.len() > KINGDOM_SIZE {
        return Err(GenSetupError::TooManyCardsIncluded);
    }
    let project_pool = config.candidate_projects();
    let fixed_count: Option<usize> = match &config.project_count {
        Some(count) => {
            if project_pool.len() < count.count() {
                return Err(GenSetupError::CouldNotSatisfyProjectsFromExpansions);
            }
            Some(count.count())
        },
        None => None,
    };
    let pool = config.candidate_cards();
    let tag_count: usize = match &config.bane_count {
        Some(count) => count.count(),
        None => 0,
    };
    let bane_cards = BaneCard::all();
    let mut tries: usize = 0;
    while tries <= pool.len()
        invariant
            tries <= pool.len() + 1,
            config.conflict().len() == 0,
            forced@ == config.forced(),
            forced.len() <= KINGDOM_SIZE,
            project_pool@ == config.project_pool(),
            !config.lacks_projects(),
            match config.project_count {
                Some(count) => fixed_count == Some(count.number() as usize),
                None => fixed_count is None,
            },
            pool@ == config.pool(),
            tag_count == config.tag_count(),
            bane_cards@ == BaneCard::catalog(),
            tries > 0 ==> config.coherent() && bane_may_lack(&config),
        decreases pool.len() + 1 - tries,
    {
        let count: usize = match fixed_count {
            Some(count) => count,
            None => gen_below(&mut rng, 3),
        };
        let project_cards = choose_multiple(&project_pool, &mut rng, count);
        let mut shuffled = tail_from(&pool, 0);
        assert(shuffled@ =~= pool@);
        shuffle(&mut shuffled, &mut rng);
        proof {
            lemma_rearranged(pool@, shuffled@);
        }
        match deal_kingdom(&forced, &shuffled) {
            Dealing::Failed(error) => {
                proof {
                    if config.coherent() {
                        lemma_bane(&config, shuffled@);
                    }
                }
                return Err(error);
            },
            Dealing::Redeal => {
                proof {
                    lemma_bane(&config, shuffled@);
                }
            },
            Dealing::Dealt(deal) => {
                proof {
                    lemma_deal(&config, shuffled@);
                    lemma_bane(&config, shuffled@);
                }
                let tagged = choose_multiple(&deal.kingdom_cards, &mut rng, tag_count);
                let tags = choose_multiple(&bane_cards, &mut rng, tag_count);
                let ghost dealt = deal;
                let ghost picked = (project_cards@, tagged@, tags@);
                let result = complete_setup(deal, project_cards, tagged, tags);
                proof {
                    match &result {
                        Ok(setup) => {
                            lemma_setup(
                                &config,
                                shuffled@,
                                dealt,
                                picked.0,
                                picked.1,
                                picked.2,
                                *setup,
                            );
                            assert(drawn(&config, shuffled@, dealt, picked.1, picked.2, *setup));
                        },
                        Err(_) => {
                            assert(zebra_laid(pairs(picked.1, picked.2)));
                            assert(dealt.spare@.len() == 0);
                        },
                    }
                }
                return result;
            },
        }
        tries = tries + 1;
    }
    Err(GenSetupError::CouldNotSatisfyBaneCard)
}

} // verus!
