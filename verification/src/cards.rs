//! The card catalog: the kingdom cards with their cost, types and expansions,
//! the projects, and the bane tags.

use crate::lists::{distinct, distinct_expansions};
use std::str::FromStr;
use vstd::prelude::*;

verus! {

/// What parsing answers to a name that no item has.
pub const NO_SUCH_NAME: &'static str = "Matching variant not found";

/// A kingdom card.
#[derive(Debug, Clone, Copy, PartialEq, Eq, Hash, PartialOrd, Ord, Structural)]
pub enum KC {
    ActingTroupe,
    Adventurer,
    Advisor,
    Ambassador,
    Artisan,
    Baker,
    Bandit,
    Baron,
    Bazaar,
    BorderGuard,
    Bridge,
    Bureaucrat,
    Butcher,
    CandlestickMaker,
    Caravan,
    CargoShip,
    Cellar,
    Chancellor,
    Chapel,
    Conspirator,
    CouncilRoom,
    Courtier,
    Courtyard,
    Cutpurse,
    Diplomat,
    Doctor,
    Ducat,
    Duke,
    Embargo,
    Experiment,
    Explorer,
    Fairgrounds,
    FarmingVillage,
    Feast,
    Festival,
    FishingVillage,
    FlagBearer,
    FortuneTeller,
    Gardens,
    GhostShip,
    Hamlet,
    Harbinger,
    Harem,
    Harvest,
    Haven,
    Herald,
    Hideout,
    HornOfPlenty,
    HorseTraders,
    HuntingParty,
    Improve,
    Inventor,
    Ironworks,
    Island,
    Jester,
    Journeyman,
    Laboratory,
    Lackeys,
    Library,
    Lighthouse,
    Lookout,
    Lurker,
    Market,
    Masquerade,
    Masterpiece,
    Menagerie,
    Merchant,
    MerchantGuild,
    MerchantShip,
    Militia,
    Mill,
    Mine,
    MiningVillage,
    Minion,
    Moat,
    Moneylender,
    MountainVillage,
    NativeVillage,
    Navigator,
    Nobles,
    OldWitch,
    Outpost,
    Patrol,
    Patron,
    Pawn,
    PearlDiver,
    PirateShip,
    Plaza,
    Poacher,
    Priest,
    Recruiter,
    Remake,
    Remodel,
    Replace,
    Research,
    Salvager,
    Scepter,
    Scholar,
    Sculptor,
    SeaHag,
    SecretPassage,
    Seer,
    Sentry,
    ShantyTown,
    SilkMerchant,
    Smithy,
    Smugglers,
    Soothsayer,
    Spices,
    Spy,
    Steward,
    Stonemason,
    Swashbuckler,
    Swindler,
    Tactician,
    Taxman,
    Thief,
    ThroneRoom,
    Torturer,
    Tournament,
    TradingPost,
    TreasureMap,
    Treasurer,
    Treasury,
    Upgrade,
    Vassal,
    Village,
    Villain,
    Warehouse,
    Wharf,
    WishingWell,
    Witch,
    Woodcutter,
    Workshop,
    YoungWitch,
}

/// The kingdom cards in the order of their declaration.
pub const ALL_KINGDOM_CARDS: [KC; 135] = [
    KC::ActingTroupe, KC::Adventurer, KC::Advisor, KC::Ambassador, KC::Artisan, KC::Baker,
    KC::Bandit, KC::Baron, KC::Bazaar, KC::BorderGuard, KC::Bridge, KC::Bureaucrat,
    KC::Butcher, KC::CandlestickMaker, KC::Caravan, KC::CargoShip, KC::Cellar,
    KC::Chancellor, KC::Chapel, KC::Conspirator, KC::CouncilRoom, KC::Courtier,
    KC::Courtyard, KC::Cutpurse, KC::Diplomat, KC::Doctor, KC::Ducat, KC::Duke, KC::Embargo,
    KC::Experiment, KC::Explorer, KC::Fairgrounds, KC::FarmingVillage, KC::Feast,
    KC::Festival, KC::FishingVillage, KC::FlagBearer, KC::FortuneTeller, KC::Gardens,
    KC::GhostShip, KC::Hamlet, KC::Harbinger, KC::Harem, KC::Harvest, KC::Haven, KC::Herald,
    KC::Hideout, KC::HornOfPlenty, KC::HorseTraders, KC::HuntingParty, KC::Improve,
    KC::Inventor, KC::Ironworks, KC::Island, KC::Jester, KC::Journeyman, KC::Laboratory,
    KC::Lackeys, KC::Library, KC::Lighthouse, KC::Lookout, KC::Lurker, KC::Market,
    KC::Masquerade, KC::Masterpiece, KC::Menagerie, KC::Merchant, KC::MerchantGuild,
    KC::MerchantShip, KC::Militia, KC::Mill, KC::Mine, KC::MiningVillage, KC::Minion,
    KC::Moat, KC::Moneylender, KC::MountainVillage, KC::NativeVillage, KC::Navigator,
    KC::Nobles, KC::OldWitch, KC::Outpost, KC::Patrol, KC::Patron, KC::Pawn, KC::PearlDiver,
    KC::PirateShip, KC::Plaza, KC::Poacher, KC::Priest, KC::Recruiter, KC::Remake,
    KC::Remodel, KC::Replace, KC::Research, KC::Salvager, KC::Scepter, KC::Scholar,
    KC::Sculptor, KC::SeaHag, KC::SecretPassage, KC::Seer, KC::Sentry, KC::ShantyTown,
    KC::SilkMerchant, KC::Smithy, KC::Smugglers, KC::Soothsayer, KC::Spices, KC::Spy,
    KC::Steward, KC::Stonemason, KC::Swashbuckler, KC::Swindler, KC::Tactician, KC::Taxman,
    KC::Thief, KC::ThroneRoom, KC::Torturer, KC::Tournament, KC::TradingPost,
    KC::TreasureMap, KC::Treasurer, KC::Treasury, KC::Upgrade, KC::Vassal, KC::Village,
    KC::Villain, KC::Warehouse, KC::Wharf, KC::WishingWell, KC::Witch, KC::Woodcutter,
    KC::Workshop, KC::YoungWitch,
];

/// The names of the kingdom cards, in the order of their declaration.
pub const KINGDOM_CARD_NAMES: [&'static str; 135] = [
    "ActingTroupe", "Adventurer", "Advisor", "Ambassador", "Artisan", "Baker", "Bandit",
    "Baron", "Bazaar", "BorderGuard", "Bridge", "Bureaucrat", "Butcher", "CandlestickMaker",
    "Caravan", "CargoShip", "Cellar", "Chancellor", "Chapel", "Conspirator", "CouncilRoom",
    "Courtier", "Courtyard", "Cutpurse", "Diplomat", "Doctor", "Ducat", "Duke", "Embargo",
    "Experiment", "Explorer", "Fairgrounds", "FarmingVillage", "Feast", "Festival",
    "FishingVillage", "FlagBearer", "FortuneTeller", "Gardens", "GhostShip", "Hamlet",
    "Harbinger", "Harem", "Harvest", "Haven", "Herald", "Hideout", "HornOfPlenty",
    "HorseTraders", "HuntingParty", "Improve", "Inventor", "Ironworks", "Island", "Jester",
    "Journeyman", "Laboratory", "Lackeys", "Library", "Lighthouse", "Lookout", "Lurker",
    "Market", "Masquerade", "Masterpiece", "Menagerie", "Merchant", "MerchantGuild",
    "MerchantShip", "Militia", "Mill", "Mine", "MiningVillage", "Minion", "Moat",
    "Moneylender", "MountainVillage", "NativeVillage", "Navigator", "Nobles", "OldWitch",
    "Outpost", "Patrol", "Patron", "Pawn", "PearlDiver", "PirateShip", "Plaza", "Poacher",
    "Priest", "Recruiter", "Remake", "Remodel", "Replace", "Research", "Salvager",
    "Scepter", "Scholar", "Sculptor", "SeaHag", "SecretPassage", "Seer", "Sentry",
    "ShantyTown", "SilkMerchant", "Smithy", "Smugglers", "Soothsayer", "Spices", "Spy",
    "Steward", "Stonemason", "Swashbuckler", "Swindler", "Tactician", "Taxman", "Thief",
    "ThroneRoom", "Torturer", "Tournament", "TradingPost", "TreasureMap", "Treasurer",
    "Treasury", "Upgrade", "Vassal", "Village", "Villain", "Warehouse", "Wharf",
    "WishingWell", "Witch", "Woodcutter", "Workshop", "YoungWitch",
];

impl KC {
    /// The position of the variant in the declaration, counted from 0.
    pub open spec fn ordinal(self) -> nat {
        match self {
            KC::ActingTroupe => 0,
            KC::Adventurer => 1,
            KC::Advisor => 2,
            KC::Ambassador => 3,
            KC::Artisan => 4,
            KC::Baker => 5,
            KC::Bandit => 6,
            KC::Baron => 7,
            KC::Bazaar => 8,
            KC::BorderGuard => 9,
            KC::Bridge => 10,
            KC::Bureaucrat => 11,
            KC::Butcher => 12,
            KC::CandlestickMaker => 13,
            KC::Caravan => 14,
            KC::CargoShip => 15,
            KC::Cellar => 16,
            KC::Chancellor => 17,
            KC::Chapel => 18,
            KC::Conspirator => 19,
            KC::CouncilRoom => 20,
            KC::Courtier => 21,
            KC::Courtyard => 22,
            KC::Cutpurse => 23,
            KC::Diplomat => 24,
            KC::Doctor => 25,
            KC::Ducat => 26,
            KC::Duke => 27,
            KC::Embargo => 28,
            KC::Experiment => 29,
            KC::Explorer => 30,
            KC::Fairgrounds => 31,
            KC::FarmingVillage => 32,
            KC::Feast => 33,
            KC::Festival => 34,
            KC::FishingVillage => 35,
            KC::FlagBearer => 36,
            KC::FortuneTeller => 37,
            KC::Gardens => 38,
            KC::GhostShip => 39,
            KC::Hamlet => 40,
            KC::Harbinger => 41,
            KC::Harem => 42,
            KC::Harvest => 43,
            KC::Haven => 44,
            KC::Herald => 45,
            KC::Hideout => 46,
            KC::HornOfPlenty => 47,
            KC::HorseTraders => 48,
            KC::HuntingParty => 49,
            KC::Improve => 50,
            KC::Inventor => 51,
            KC::Ironworks => 52,
            KC::Island => 53,
            KC::Jester => 54,
            KC::Journeyman => 55,
            KC::Laboratory => 56,
            KC::Lackeys => 57,
            KC::Library => 58,
            KC::Lighthouse => 59,
            KC::Lookout => 60,
            KC::Lurker => 61,
            KC::Market => 62,
            KC::Masquerade => 63,
            KC::Masterpiece => 64,
            KC::Menagerie => 65,
            KC::Merchant => 66,
            KC::MerchantGuild => 67,
            KC::MerchantShip => 68,
            KC::Militia => 69,
            KC::Mill => 70,
            KC::Mine => 71,
            KC::MiningVillage => 72,
            KC::Minion => 73,
            KC::Moat => 74,
            KC::Moneylender => 75,
            KC::MountainVillage => 76,
            KC::NativeVillage => 77,
            KC::Navigator => 78,
            KC::Nobles => 79,
            KC::OldWitch => 80,
            KC::Outpost => 81,
            KC::Patrol => 82,
            KC::Patron => 83,
            KC::Pawn => 84,
            KC::PearlDiver => 85,
            KC::PirateShip => 86,
            KC::Plaza => 87,
            KC::Poacher => 88,
            KC::Priest => 89,
            KC::Recruiter => 90,
            KC::Remake => 91,
            KC::Remodel => 92,
            KC::Replace => 93,
            KC::Research => 94,
            KC::Salvager => 95,
            KC::Scepter => 96,
            KC::Scholar => 97,
            KC::Sculptor => 98,
            KC::SeaHag => 99,
            KC::SecretPassage => 100,
            KC::Seer => 101,
            KC::Sentry => 102,
            KC::ShantyTown => 103,
            KC::SilkMerchant => 104,
            KC::Smithy => 105,
            KC::Smugglers => 106,
            KC::Soothsayer => 107,
            KC::Spices => 108,
            KC::Spy => 109,
            KC::Steward => 110,
            KC::Stonemason => 111,
            KC::Swashbuckler => 112,
            KC::Swindler => 113,
            KC::Tactician => 114,
            KC::Taxman => 115,
            KC::Thief => 116,
            KC::ThroneRoom => 117,
            KC::Torturer => 118,
            KC::Tournament => 119,
            KC::TradingPost => 120,
            KC::TreasureMap => 121,
            KC::Treasurer => 122,
            KC::Treasury => 123,
            KC::Upgrade => 124,
            KC::Vassal => 125,
            KC::Village => 126,
            KC::Villain => 127,
            KC::Warehouse => 128,
            KC::Wharf => 129,
            KC::WishingWell => 130,
            KC::Witch => 131,
            KC::Woodcutter => 132,
            KC::Workshop => 133,
            KC::YoungWitch => 134,
        }
    }

    /// Every kingdom card, each once, in the order of declaration.
    pub open spec fn catalog() -> Seq<KC> {
        ALL_KINGDOM_CARDS@
    }

    /// The name of the kingdom card, as it is written in the declaration.
    pub open spec fn name_text(self) -> Seq<char> {
        KINGDOM_CARD_NAMES@[self.ordinal() as int]@
    }

    /// Every kingdom card, each once, in the order of declaration.
    pub fn all() -> (list: Vec<KC>)
        ensures
            list@ == Self::catalog(),
    {
        let mut list: Vec<KC> = Vec::new();
        let mut i: usize = 0;
        while i < 135
            invariant
                i <= 135,
                list@ == ALL_KINGDOM_CARDS@.take(i as int),
            decreases 135 - i,
        {
            list.push(ALL_KINGDOM_CARDS[i]);
            i = i + 1;
        }
        list
    }

    /// The position of the kingdom card in the catalog.
    pub fn position(&self) -> (at: usize)
        ensures
            at == self.ordinal(),
            at < 135,
    {
        proof {
            self.lemma_catalog_complete();
        }
        let mut at: usize = 0;
        while ALL_KINGDOM_CARDS[at] != *self
            invariant
                at <= self.ordinal() < 135,
                ALL_KINGDOM_CARDS@[self.ordinal() as int] == *self,
                forall|i: int| 0 <= i < at ==> ALL_KINGDOM_CARDS@[i] != *self,
            decreases 135 - at,
        {
            at = at + 1;
        }
        proof {
            Self::lemma_catalog_distinct();
        }
        at
    }

    /// The name of the kingdom card, as it is written in the declaration.
    pub fn name(&self) -> (name: &'static str)
        ensures
            name@ == self.name_text(),
    {
        KINGDOM_CARD_NAMES[self.position()]
    }

    /// The kingdom card of that name, if there is one: the first in the catalog,
    /// should several have it.
    pub fn from_name(text: &str) -> (found: Option<KC>)
        ensures
            match found {
                Some(item) => {
                    &&& item.name_text() == text@
                    &&& forall|other: KC|
                        other.ordinal() < item.ordinal() ==> other.name_text() != text@
                },
                None => forall|item: KC| item.name_text() != text@,
            },
    {
        let wanted = text.to_owned();
        let mut i: usize = 0;
        while i < 135
            invariant
                i <= 135,
                wanted@ == text@,
                forall|j: int| 0 <= j < i ==> KINGDOM_CARD_NAMES@[j]@ != text@,
            decreases 135 - i,
        {
            if KINGDOM_CARD_NAMES[i].to_owned() == wanted {
                proof {
                    Self::lemma_first_of_name(i as int, text@);
                }
                return Some(ALL_KINGDOM_CARDS[i]);
            }
            i = i + 1;
        }
        assert forall|item: KC| item.name_text() != text@ by {
            item.lemma_catalog_complete();
        }
        None
    }

    /// Where the text is the name at `at` and no name before it, the kingdom card
    /// at `at` is the first of that name.
    proof fn lemma_first_of_name(at: int, text: Seq<char>)
        requires
            0 <= at < 135,
            KINGDOM_CARD_NAMES@[at]@ == text,
            forall|j: int| 0 <= j < at ==> KINGDOM_CARD_NAMES@[j]@ != text,
        ensures
            Self::catalog()[at].name_text() == text,
            forall|other: KC|
                other.ordinal() < Self::catalog()[at].ordinal() ==> other.name_text() != text,
    {
        Self::lemma_catalog_distinct();
        assert(Self::catalog()[at].ordinal() == at);
    }

    /// The catalog lists every kingdom card: each stands at its ordinal.
    pub proof fn lemma_catalog_complete(self)
        ensures
            self.ordinal() < 135,
            Self::catalog().len() == 135,
            Self::catalog()[self.ordinal() as int] == self,
            Self::catalog().contains(self),
    {
    }

    /// The catalog lists no kingdom card twice.
    pub proof fn lemma_catalog_distinct()
        ensures
            Self::catalog().len() == 135,
            Self::catalog().no_duplicates(),
            forall|i: int| 0 <= i < 135 ==> (#[trigger] Self::catalog()[i]).ordinal() == i,
    {
        assert forall|i: int| 0 <= i < 135 implies (#[trigger] Self::catalog()[i]).ordinal() == i by {
        }
    }
}

impl FromStr for KC {
    type Err = String;

    /// The kingdom card of that name: the one that `from_name` finds. Where none
    /// has the name, the message that says so.
    fn from_str(text: &str) -> (parsed: Result<KC, String>)
        ensures
            match parsed {
                Ok(item) => {
                    &&& item.name_text() == text@
                    &&& forall|other: KC|
                        other.ordinal() < item.ordinal() ==> other.name_text() != text@
                },
                Err(message) => {
                    &&& message@ == NO_SUCH_NAME@
                    &&& forall|item: KC| item.name_text() != text@
                },
            },
    {
        match KC::from_name(text) {
            Some(item) => Ok(item),
            None => Err(NO_SUCH_NAME.to_owned()),
        }
    }
}

/// Supported expansions.
#[derive(Debug, Clone, Copy, PartialEq, Eq, Hash, PartialOrd, Ord, Structural)]
pub enum Expansion {
    Base1,
    Base2,
    Renaissance,
    Guilds,
    Cornucopia,
    Intrigue2,
    Seaside,
}

/// The expansions in the order of their declaration.
pub const ALL_EXPANSIONS: [Expansion; 7] = [
    Expansion::Base1, Expansion::Base2, Expansion::Renaissance, Expansion::Guilds,
    Expansion::Cornucopia, Expansion::Intrigue2, Expansion::Seaside,
];

/// The names of the expansions, in the order of their declaration.
pub const EXPANSION_NAMES: [&'static str; 7] = [
    "Base1", "Base2", "Renaissance", "Guilds", "Cornucopia", "Intrigue2", "Seaside",
];

impl Expansion {
    /// The position of the variant in the declaration, counted from 0.
    pub open spec fn ordinal(self) -> nat {
        match self {
            Expansion::Base1 => 0,
            Expansion::Base2 => 1,
            Expansion::Renaissance => 2,
            Expansion::Guilds => 3,
            Expansion::Cornucopia => 4,
            Expansion::Intrigue2 => 5,
            Expansion::Seaside => 6,
        }
    }

    /// Every expansion, each once, in the order of declaration.
    pub open spec fn catalog() -> Seq<Expansion> {
        ALL_EXPANSIONS@
    }

    /// The name of the expansion, as it is written in the declaration.
    pub open spec fn name_text(self) -> Seq<char> {
        EXPANSION_NAMES@[self.ordinal() as int]@
    }

    /// Every expansion, each once, in the order of declaration.
    pub fn all() -> (list: Vec<Expansion>)
        ensures
            list@ == Self::catalog(),
    {
        let mut list: Vec<Expansion> = Vec::new();
        let mut i: usize = 0;
        while i < 7
            invariant
                i <= 7,
                list@ == ALL_EXPANSIONS@.take(i as int),
            decreases 7 - i,
        {
            list.push(ALL_EXPANSIONS[i]);
            i = i + 1;
        }
        list
    }

    /// The position of the expansion in the catalog.
    pub fn position(&self) -> (at: usize)
        ensures
            at == self.ordinal(),
            at < 7,
    {
        proof {
            self.lemma_catalog_complete();
        }
        let mut at: usize = 0;
        while ALL_EXPANSIONS[at] != *self
            invariant
                at <= self.ordinal() < 7,
                ALL_EXPANSIONS@[self.ordinal() as int] == *self,
                forall|i: int| 0 <= i < at ==> ALL_EXPANSIONS@[i] != *self,
            decreases 7 - at,
        {
            at = at + 1;
        }
        proof {
            Self::lemma_catalog_distinct();
        }
        at
    }

    /// The name of the expansion, as it is written in the declaration.
    pub fn name(&self) -> (name: &'static str)
        ensures
            name@ == self.name_text(),
    {
        EXPANSION_NAMES[self.position()]
    }

    /// The expansion of that name, if there is one: the first in the catalog,
    /// should several have it.
    pub fn from_name(text: &str) -> (found: Option<Expansion>)
        ensures
            match found {
                Some(item) => {
                    &&& item.name_text() == text@
                    &&& forall|other: Expansion|
                        other.ordinal() < item.ordinal() ==> other.name_text() != text@
                },
                None => forall|item: Expansion| item.name_text() != text@,
            },
    {
        let wanted = text.to_owned();
        let mut i: usize = 0;
        while i < 7
            invariant
                i <= 7,
                wanted@ == text@,
                forall|j: int| 0 <= j < i ==> EXPANSION_NAMES@[j]@ != text@,
            decreases 7 - i,
        {
            if EXPANSION_NAMES[i].to_owned() == wanted {
                proof {
                    Self::lemma_first_of_name(i as int, text@);
                }
                return Some(ALL_EXPANSIONS[i]);
            }
            i = i + 1;
        }
        assert forall|item: Expansion| item.name_text() != text@ by {
            item.lemma_catalog_complete();
        }
        None
    }

    /// Where the text is the name at `at` and no name before it, the expansion
    /// at `at` is the first of that name.
    proof fn lemma_first_of_name(at: int, text: Seq<char>)
        requires
            0 <= at < 7,
            EXPANSION_NAMES@[at]@ == text,
            forall|j: int| 0 <= j < at ==> EXPANSION_NAMES@[j]@ != text,
        ensures
            Self::catalog()[at].name_text() == text,
            forall|other: Expansion|
                other.ordinal() < Self::catalog()[at].ordinal() ==> other.name_text() != text,
    {
        Self::lemma_catalog_distinct();
        assert(Self::catalog()[at].ordinal() == at);
    }

    /// The catalog lists every expansion: each stands at its ordinal.
    pub proof fn lemma_catalog_complete(self)
        ensures
            self.ordinal() < 7,
            Self::catalog().len() == 7,
            Self::catalog()[self.ordinal() as int] == self,
            Self::catalog().contains(self),
    {
    }

    /// The catalog lists no expansion twice.
    pub proof fn lemma_catalog_distinct()
        ensures
            Self::catalog().len() == 7,
            Self::catalog().no_duplicates(),
            forall|i: int| 0 <= i < 7 ==> (#[trigger] Self::catalog()[i]).ordinal() == i,
    {
        assert forall|i: int| 0 <= i < 7 implies (#[trigger] Self::catalog()[i]).ordinal() == i by {
        }
    }
}

impl FromStr for Expansion {
    type Err = String;

    /// The expansion of that name: the one that `from_name` finds. Where none
    /// has the name, the message that says so.
    fn from_str(text: &str) -> (parsed: Result<Expansion, String>)
        ensures
            match parsed {
                Ok(item) => {
                    &&& item.name_text() == text@
                    &&& forall|other: Expansion|
                        other.ordinal() < item.ordinal() ==> other.name_text() != text@
                },
                Err(message) => {
                    &&& message@ == NO_SUCH_NAME@
                    &&& forall|item: Expansion| item.name_text() != text@
                },
            },
    {
        match Expansion::from_name(text) {
            Some(item) => Ok(item),
            None => Err(NO_SUCH_NAME.to_owned()),
        }
    }
}

/// A card's type: how it functions.
#[derive(Debug, Clone, Copy, PartialEq, Eq, Hash, PartialOrd, Ord, Structural)]
pub enum CardType {
    Action,
    Attack,
    Reaction,
    Victory,
    Treasure,
    Duration,
}

/// The card types in the order of their declaration.
pub const ALL_CARD_TYPES: [CardType; 6] = [
    CardType::Action, CardType::Attack, CardType::Reaction, CardType::Victory,
    CardType::Treasure, CardType::Duration,
];

/// The names of the card types, in the order of their declaration.
pub const CARD_TYPE_NAMES: [&'static str; 6] = [
    "Action", "Attack", "Reaction", "Victory", "Treasure", "Duration",
];

impl CardType {
    /// The position of the variant in the declaration, counted from 0.
    pub open spec fn ordinal(self) -> nat {
        match self {
            CardType::Action => 0,
            CardType::Attack => 1,
            CardType::Reaction => 2,
            CardType::Victory => 3,
            CardType::Treasure => 4,
            CardType::Duration => 5,
        }
    }

    /// Every card type, each once, in the order of declaration.
    pub open spec fn catalog() -> Seq<CardType> {
        ALL_CARD_TYPES@
    }

    /// The name of the card type, as it is written in the declaration.
    pub open spec fn name_text(self) -> Seq<char> {
        CARD_TYPE_NAMES@[self.ordinal() as int]@
    }

    /// Every card type, each once, in the order of declaration.
    pub fn all() -> (list: Vec<CardType>)
        ensures
            list@ == Self::catalog(),
    {
        let mut list: Vec<CardType> = Vec::new();
        let mut i: usize = 0;
        while i < 6
            invariant
                i <= 6,
                list@ == ALL_CARD_TYPES@.take(i as int),
            decreases 6 - i,
        {
            list.push(ALL_CARD_TYPES[i]);
            i = i + 1;
        }
        list
    }

    /// The position of the card type in the catalog.
    pub fn position(&self) -> (at: usize)
        ensures
            at == self.ordinal(),
            at < 6,
    {
        proof {
            self.lemma_catalog_complete();
        }
        let mut at: usize = 0;
        while ALL_CARD_TYPES[at] != *self
            invariant
                at <= self.ordinal() < 6,
                ALL_CARD_TYPES@[self.ordinal() as int] == *self,
                forall|i: int| 0 <= i < at ==> ALL_CARD_TYPES@[i] != *self,
            decreases 6 - at,
        {
            at = at + 1;
        }
        proof {
            Self::lemma_catalog_distinct();
        }
        at
    }

    /// The name of the card type, as it is written in the declaration.
    pub fn name(&self) -> (name: &'static str)
        ensures
            name@ == self.name_text(),
    {
        CARD_TYPE_NAMES[self.position()]
    }

    /// The catalog lists every card type: each stands at its ordinal.
    pub proof fn lemma_catalog_complete(self)
        ensures
            self.ordinal() < 6,
            Self::catalog().len() == 6,
            Self::catalog()[self.ordinal() as int] == self,
            Self::catalog().contains(self),
    {
    }

    /// The catalog lists no card type twice.
    pub proof fn lemma_catalog_distinct()
        ensures
            Self::catalog().len() == 6,
            Self::catalog().no_duplicates(),
            forall|i: int| 0 <= i < 6 ==> (#[trigger] Self::catalog()[i]).ordinal() == i,
    {
        assert forall|i: int| 0 <= i < 6 implies (#[trigger] Self::catalog()[i]).ordinal() == i by {
        }
    }
}

/// A project card.
#[derive(Debug, Clone, Copy, PartialEq, Eq, Hash, PartialOrd, Ord, Structural)]
pub enum Project {
    Academy,
    Barracks,
    Canal,
    Capitalism,
    Cathedral,
    Citadel,
    CityGate,
    CropRotation,
    Exploration,
    Fair,
    Fleet,
    Guildhall,
    Innovation,
    Pageant,
    Piazza,
    RoadNetwork,
    Sewers,
    Silos,
    SinisterPlot,
    StarChart,
}

/// The projects in the order of their declaration.
pub const ALL_PROJECTS: [Project; 20] = [
    Project::Academy, Project::Barracks, Project::Canal, Project::Capitalism,
    Project::Cathedral, Project::Citadel, Project::CityGate, Project::CropRotation,
    Project::Exploration, Project::Fair, Project::Fleet, Project::Guildhall,
    Project::Innovation, Project::Pageant, Project::Piazza, Project::RoadNetwork,
    Project::Sewers, Project::Silos, Project::SinisterPlot, Project::StarChart,
];

/// The names of the projects, in the order of their declaration.
pub const PROJECT_NAMES: [&'static str; 20] = [
    "Academy", "Barracks", "Canal", "Capitalism", "Cathedral", "Citadel", "CityGate",
    "CropRotation", "Exploration", "Fair", "Fleet", "Guildhall", "Innovation", "Pageant",
    "Piazza", "RoadNetwork", "Sewers", "Silos", "SinisterPlot", "StarChart",
];

impl Project {
    /// The position of the variant in the declaration, counted from 0.
    pub open spec fn ordinal(self) -> nat {
        match self {
            Project::Academy => 0,
            Project::Barracks => 1,
            Project::Canal => 2,
            Project::Capitalism => 3,
            Project::Cathedral => 4,
            Project::Citadel => 5,
            Project::CityGate => 6,
            Project::CropRotation => 7,
            Project::Exploration => 8,
            Project::Fair => 9,
            Project::Fleet => 10,
            Project::Guildhall => 11,
            Project::Innovation => 12,
            Project::Pageant => 13,
            Project::Piazza => 14,
            Project::RoadNetwork => 15,
            Project::Sewers => 16,
            Project::Silos => 17,
            Project::SinisterPlot => 18,
            Project::StarChart => 19,
        }
    }

    /// Every project, each once, in the order of declaration.
    pub open spec fn catalog() -> Seq<Project> {
        ALL_PROJECTS@
    }

    /// The name of the project, as it is written in the declaration.
    pub open spec fn name_text(self) -> Seq<char> {
        PROJECT_NAMES@[self.ordinal() as int]@
    }

    /// Every project, each once, in the order of declaration.
    pub fn all() -> (list: Vec<Project>)
        ensures
            list@ == Self::catalog(),
    {
        let mut list: Vec<Project> = Vec::new();
        let mut i: usize = 0;
        while i < 20
            invariant
                i <= 20,
                list@ == ALL_PROJECTS@.take(i as int),
            decreases 20 - i,
        {
            list.push(ALL_PROJECTS[i]);
            i = i + 1;
        }
        list
    }

    /// The position of the project in the catalog.
    pub fn position(&self) -> (at: usize)
        ensures
            at == self.ordinal(),
            at < 20,
    {
        proof {
            self.lemma_catalog_complete();
        }
        let mut at: usize = 0;
        while ALL_PROJECTS[at] != *self
            invariant
                at <= self.ordinal() < 20,
                ALL_PROJECTS@[self.ordinal() as int] == *self,
                forall|i: int| 0 <= i < at ==> ALL_PROJECTS@[i] != *self,
            decreases 20 - at,
        {
            at = at + 1;
        }
        proof {
            Self::lemma_catalog_distinct();
        }
        at
    }

    /// The name of the project, as it is written in the declaration.
    pub fn name(&self) -> (name: &'static str)
        ensures
            name@ == self.name_text(),
    {
        PROJECT_NAMES[self.position()]
    }

    /// The catalog lists every project: each stands at its ordinal.
    pub proof fn lemma_catalog_complete(self)
        ensures
            self.ordinal() < 20,
            Self::catalog().len() == 20,
            Self::catalog()[self.ordinal() as int] == self,
            Self::catalog().contains(self),
    {
    }

    /// The catalog lists no project twice.
    pub proof fn lemma_catalog_distinct()
        ensures
            Self::catalog().len() == 20,
            Self::catalog().no_duplicates(),
            forall|i: int| 0 <= i < 20 ==> (#[trigger] Self::catalog()[i]).ordinal() == i,
    {
        assert forall|i: int| 0 <= i < 20 implies (#[trigger] Self::catalog()[i]).ordinal() == i by {
        }
    }
}

/// A bane tag: an extra marker that a variant of the game lays on kingdom cards.
#[derive(Debug, Clone, Copy, PartialEq, Eq, Hash, PartialOrd, Ord, Structural)]
pub enum BaneCard {
    Antelope,
    Buffalo,
    Cheetah,
    Elephant,
    Giraffe,
    Hippo,
    Lion,
    Rhino,
    Zebra,
}

/// The bane tags in the order of their declaration.
pub const ALL_BANE_CARDS: [BaneCard; 9] = [
    BaneCard::Antelope, BaneCard::Buffalo, BaneCard::Cheetah, BaneCard::Elephant,
    BaneCard::Giraffe, BaneCard::Hippo, BaneCard::Lion, BaneCard::Rhino, BaneCard::Zebra,
];

/// The names of the bane tags, in the order of their declaration.
pub const BANE_CARD_NAMES: [&'static str; 9] = [
    "Antelope", "Buffalo", "Cheetah", "Elephant", "Giraffe", "Hippo", "Lion", "Rhino",
    "Zebra",
];

impl BaneCard {
    /// The position of the variant in the declaration, counted from 0.
    pub open spec fn ordinal(self) -> nat {
        match self {
            BaneCard::Antelope => 0,
            BaneCard::Buffalo => 1,
            BaneCard::Cheetah => 2,
            BaneCard::Elephant => 3,
            BaneCard::Giraffe => 4,
            BaneCard::Hippo => 5,
            BaneCard::Lion => 6,
            BaneCard::Rhino => 7,
            BaneCard::Zebra => 8,
        }
    }

    /// Every bane tag, each once, in the order of declaration.
    pub open spec fn catalog() -> Seq<BaneCard> {
        ALL_BANE_CARDS@
    }

    /// The name of the bane tag, as it is written in the declaration.
    pub open spec fn name_text(self) -> Seq<char> {
        BANE_CARD_NAMES@[self.ordinal() as int]@
    }

    /// Every bane tag, each once, in the order of declaration.
    pub fn all() -> (list: Vec<BaneCard>)
        ensures
            list@ == Self::catalog(),
    {
        let mut list: Vec<BaneCard> = Vec::new();
        let mut i: usize = 0;
        while i < 9
            invariant
                i <= 9,
                list@ == ALL_BANE_CARDS@.take(i as int),
            decreases 9 - i,
        {
            list.push(ALL_BANE_CARDS[i]);
            i = i + 1;
        }
        list
    }

    /// The position of the bane tag in the catalog.
    pub fn position(&self) -> (at: usize)
        ensures
            at == self.ordinal(),
            at < 9,
    {
        proof {
            self.lemma_catalog_complete();
        }
        let mut at: usize = 0;
        while ALL_BANE_CARDS[at] != *self
            invariant
                at <= self.ordinal() < 9,
                ALL_BANE_CARDS@[self.ordinal() as int] == *self,
                forall|i: int| 0 <= i < at ==> ALL_BANE_CARDS@[i] != *self,
            decreases 9 - at,
        {
            at = at + 1;
        }
        proof {
            Self::lemma_catalog_distinct();
        }
        at
    }

    /// The name of the bane tag, as it is written in the declaration.
    pub fn name(&self) -> (name: &'static str)
        ensures
            name@ == self.name_text(),
    {
        BANE_CARD_NAMES[self.position()]
    }

    /// The catalog lists every bane tag: each stands at its ordinal.
    pub proof fn lemma_catalog_complete(self)
        ensures
            self.ordinal() < 9,
            Self::catalog().len() == 9,
            Self::catalog()[self.ordinal() as int] == self,
            Self::catalog().contains(self),
    {
    }

    /// The catalog lists no bane tag twice.
    pub proof fn lemma_catalog_distinct()
        ensures
            Self::catalog().len() == 9,
            Self::catalog().no_duplicates(),
            forall|i: int| 0 <= i < 9 ==> (#[trigger] Self::catalog()[i]).ordinal() == i,
    {
        assert forall|i: int| 0 <= i < 9 implies (#[trigger] Self::catalog()[i]).ordinal() == i by {
        }
    }
}

/// What is a card's base cost?
pub trait BaseCost {
    /// The base cost, as contracts speak of it.
    spec fn cost(&self) -> u8;

    /// What is a card's base cost?
    fn base_cost(&self) -> (cost: u8)
        ensures
            cost == self.cost(),
    ;
}

/// To what expansions does a card belong?
pub trait Expansions {
    /// The expansions of the card in the order in which `expansions` lists them.
    spec fn expansion_list(&self) -> Seq<Expansion>;

    /// To what expansions does a card belong?
    fn expansions(&self) -> (list: Vec<Expansion>)
        ensures
            list@ == self.expansion_list(),
    ;
}

/// The expansions of an item as a set: each once, in the order in which the
/// item lists them.
pub fn expansion_set<T: Expansions>(v: &T) -> (set: Vec<Expansion>)
    ensures
        set@ == distinct(v.expansion_list()),
{
    let list = v.expansions();
    distinct_expansions(&list)
}

/// What types does a card have?
pub trait CardTypes {
    /// The types of the card in the order in which `card_types` lists them.
    spec fn type_list(&self) -> Seq<CardType>;

    /// What types does a card have?
    fn card_types(&self) -> (list: Vec<CardType>)
        ensures
            list@ == self.type_list(),
    ;
}

impl BaseCost for KC {
    open spec fn cost(&self) -> u8 {
        match self {
            KC::BorderGuard | KC::CandlestickMaker | KC::Cellar | KC::Chapel | KC::Courtyard
            | KC::Ducat | KC::Embargo | KC::Hamlet | KC::Haven | KC::Lackeys
            | KC::Lighthouse | KC::Lurker | KC::Moat | KC::NativeVillage | KC::Pawn
            | KC::PearlDiver | KC::Stonemason => 2,
            KC::ActingTroupe | KC::Ambassador | KC::CargoShip | KC::Chancellor | KC::Doctor
            | KC::Experiment | KC::FishingVillage | KC::FortuneTeller | KC::Harbinger
            | KC::Improve | KC::Lookout | KC::Masquerade | KC::Masterpiece | KC::Menagerie
            | KC::Merchant | KC::ShantyTown | KC::Smugglers | KC::Steward | KC::Swindler
            | KC::Vassal | KC::Village | KC::Warehouse | KC::WishingWell | KC::Woodcutter
            | KC::Workshop => 3,
            KC::Advisor | KC::Baron | KC::Bridge | KC::Bureaucrat | KC::Caravan
            | KC::Conspirator | KC::Cutpurse | KC::Diplomat | KC::FarmingVillage | KC::Feast
            | KC::FlagBearer | KC::Gardens | KC::Herald | KC::Hideout | KC::HorseTraders
            | KC::Inventor | KC::Ironworks | KC::Island | KC::Militia | KC::Mill
            | KC::MiningVillage | KC::Moneylender | KC::MountainVillage | KC::Navigator
            | KC::Patron | KC::PirateShip | KC::Plaza | KC::Poacher | KC::Priest
            | KC::Remake | KC::Remodel | KC::Research | KC::Salvager | KC::SeaHag
            | KC::SecretPassage | KC::SilkMerchant | KC::Smithy | KC::Spy | KC::Taxman
            | KC::Thief | KC::ThroneRoom | KC::Tournament | KC::TreasureMap | KC::YoungWitch => 4,
            KC::Baker | KC::Bandit | KC::Bazaar | KC::Butcher | KC::CouncilRoom
            | KC::Courtier | KC::Duke | KC::Explorer | KC::Festival | KC::GhostShip
            | KC::Harvest | KC::HornOfPlenty | KC::HuntingParty | KC::Jester
            | KC::Journeyman | KC::Laboratory | KC::Library | KC::Market | KC::MerchantGuild
            | KC::MerchantShip | KC::Mine | KC::Minion | KC::OldWitch | KC::Outpost
            | KC::Patrol | KC::Recruiter | KC::Replace | KC::Scepter | KC::Scholar
            | KC::Sculptor | KC::Seer | KC::Sentry | KC::Soothsayer | KC::Spices
            | KC::Swashbuckler | KC::Tactician | KC::Torturer | KC::TradingPost
            | KC::Treasurer | KC::Treasury | KC::Upgrade | KC::Villain | KC::Wharf
            | KC::Witch => 5,
            KC::Adventurer | KC::Artisan | KC::Fairgrounds | KC::Harem | KC::Nobles => 6,
        }
    }

    fn base_cost(&self) -> (cost: u8) {
        match self {
            KC::ActingTroupe => 3,
            KC::Adventurer => 6,
            KC::Advisor => 4,
            KC::Ambassador => 3,
            KC::Artisan => 6,
            KC::Baker => 5,
            KC::Bandit => 5,
            KC::Baron => 4,
            KC::Bazaar => 5,
            KC::BorderGuard => 2,
            KC::Bridge => 4,
            KC::Bureaucrat => 4,
            KC::Butcher => 5,
            KC::CandlestickMaker => 2,
            KC::Caravan => 4,
            KC::CargoShip => 3,
            KC::Cellar => 2,
            KC::Chancellor => 3,
            KC::Chapel => 2,
            KC::Conspirator => 4,
            KC::CouncilRoom => 5,
            KC::Courtier => 5,
            KC::Courtyard => 2,
            KC::Cutpurse => 4,
            KC::Diplomat => 4,
            KC::Doctor => 3,
            KC::Ducat => 2,
            KC::Duke => 5,
            KC::Embargo => 2,
            KC::Experiment => 3,
            KC::Explorer => 5,
            KC::Fairgrounds => 6,
            KC::FarmingVillage => 4,
            KC::Feast => 4,
            KC::Festival => 5,
            KC::FishingVillage => 3,
            KC::FlagBearer => 4,
            KC::FortuneTeller => 3,
            KC::Gardens => 4,
            KC::GhostShip => 5,
            KC::Hamlet => 2,
            KC::Harbinger => 3,
            KC::Harem => 6,
            KC::Harvest => 5,
            KC::Haven => 2,
            KC::Herald => 4,
            KC::Hideout => 4,
            KC::HornOfPlenty => 5,
            KC::HorseTraders => 4,
            KC::HuntingParty => 5,
            KC::Improve => 3,
            KC::Inventor => 4,
            KC::Ironworks => 4,
            KC::Island => 4,
            KC::Jester => 5,
            KC::Journeyman => 5,
            KC::Laboratory => 5,
            KC::Lackeys => 2,
            KC::Library => 5,
            KC::Lighthouse => 2,
            KC::Lookout => 3,
            KC::Lurker => 2,
            KC::Market => 5,
            KC::Masquerade => 3,
            KC::Masterpiece => 3,
            KC::Menagerie => 3,
            KC::Merchant => 3,
            KC::MerchantGuild => 5,
            KC::MerchantShip => 5,
            KC::Militia => 4,
            KC::Mill => 4,
            KC::Mine => 5,
            KC::MiningVillage => 4,
            KC::Minion => 5,
            KC::Moat => 2,
            KC::Moneylender => 4,
            KC::MountainVillage => 4,
            KC::NativeVillage => 2,
            KC::Navigator => 4,
            KC::Nobles => 6,
            KC::OldWitch => 5,
            KC::Outpost => 5,
            KC::Patrol => 5,
            KC::Patron => 4,
            KC::Pawn => 2,
            KC::PearlDiver => 2,
            KC::PirateShip => 4,
            KC::Plaza => 4,
            KC::Poacher => 4,
            KC::Priest => 4,
            KC::Recruiter => 5,
            KC::Remake => 4,
            KC::Remodel => 4,
            KC::Replace => 5,
            KC::Research => 4,
            KC::Salvager => 4,
            KC::Scepter => 5,
            KC::Scholar => 5,
            KC::Sculptor => 5,
            KC::SeaHag => 4,
            KC::SecretPassage => 4,
            KC::Seer => 5,
            KC::Sentry => 5,
            KC::ShantyTown => 3,
            KC::SilkMerchant => 4,
            KC::Smithy => 4,
            KC::Smugglers => 3,
            KC::Soothsayer => 5,
            KC::Spices => 5,
            KC::Spy => 4,
            KC::Steward => 3,
            KC::Stonemason => 2,
            KC::Swashbuckler => 5,
            KC::Swindler => 3,
            KC::Tactician => 5,
            KC::Taxman => 4,
            KC::Thief => 4,
            KC::ThroneRoom => 4,
            KC::Torturer => 5,
            KC::Tournament => 4,
            KC::TradingPost => 5,
            KC::TreasureMap => 4,
            KC::Treasurer => 5,
            KC::Treasury => 5,
            KC::Upgrade => 5,
            KC::Vassal => 3,
            KC::Village => 3,
            KC::Villain => 5,
            KC::Warehouse => 3,
            KC::Wharf => 5,
            KC::WishingWell => 3,
            KC::Witch => 5,
            KC::Woodcutter => 3,
            KC::Workshop => 3,
            KC::YoungWitch => 4,
        }
    }
}

impl Expansions for KC {
    open spec fn expansion_list(&self) -> Seq<Expansion> {
        match self {
            KC::ActingTroupe | KC::BorderGuard | KC::CargoShip | KC::Ducat | KC::Experiment
            | KC::FlagBearer | KC::Hideout | KC::Improve | KC::Inventor | KC::Lackeys
            | KC::MountainVillage | KC::OldWitch | KC::Patron | KC::Priest | KC::Recruiter
            | KC::Research | KC::Scepter | KC::Scholar | KC::Sculptor | KC::Seer
            | KC::SilkMerchant | KC::Spices | KC::Swashbuckler | KC::Treasurer
            | KC::Villain => seq![Expansion::Renaissance],
            KC::Adventurer | KC::Chancellor | KC::Feast | KC::Spy | KC::Thief
            | KC::Woodcutter => seq![Expansion::Base1],
            KC::Advisor | KC::Baker | KC::Butcher | KC::CandlestickMaker | KC::Doctor
            | KC::Herald | KC::Journeyman | KC::Masterpiece | KC::MerchantGuild | KC::Plaza
            | KC::Soothsayer | KC::Stonemason | KC::Taxman => seq![Expansion::Guilds],
            KC::Ambassador | KC::Bazaar | KC::Caravan | KC::Cutpurse | KC::Embargo
            | KC::Explorer | KC::FishingVillage | KC::GhostShip | KC::Haven | KC::Island
            | KC::Lighthouse | KC::Lookout | KC::MerchantShip | KC::NativeVillage
            | KC::Navigator | KC::Outpost | KC::PearlDiver | KC::PirateShip | KC::Salvager
            | KC::SeaHag | KC::Smugglers | KC::Tactician | KC::TreasureMap | KC::Treasury
            | KC::Warehouse | KC::Wharf => seq![Expansion::Seaside],
            KC::Artisan | KC::Harbinger | KC::Merchant | KC::Poacher | KC::Sentry
            | KC::Vassal => seq![Expansion::Base2],
            KC::Bandit | KC::Bureaucrat | KC::Cellar | KC::Chapel | KC::CouncilRoom
            | KC::Festival | KC::Gardens | KC::Laboratory | KC::Library | KC::Market
            | KC::Militia | KC::Mine | KC::Moat | KC::Moneylender | KC::Remodel | KC::Smithy
            | KC::ThroneRoom | KC::Village | KC::Witch
            | KC::Workshop => seq![Expansion::Base2, Expansion::Base1],
            KC::Baron | KC::Bridge | KC::Conspirator | KC::Courtier | KC::Courtyard
            | KC::Diplomat | KC::Duke | KC::Harem | KC::Ironworks | KC::Lurker
            | KC::Masquerade | KC::Mill | KC::MiningVillage | KC::Minion | KC::Nobles
            | KC::Patrol | KC::Pawn | KC::Replace | KC::SecretPassage | KC::ShantyTown
            | KC::Steward | KC::Swindler | KC::Torturer | KC::TradingPost | KC::Upgrade
            | KC::WishingWell => seq![Expansion::Intrigue2],
            KC::Fairgrounds | KC::FarmingVillage | KC::FortuneTeller | KC::Hamlet
            | KC::Harvest | KC::HornOfPlenty | KC::HorseTraders | KC::HuntingParty
            | KC::Jester | KC::Menagerie | KC::Remake | KC::Tournament
            | KC::YoungWitch => seq![Expansion::Cornucopia],
        }
    }

    fn expansions(&self) -> (list: Vec<Expansion>) {
        let list = match self {
            KC::ActingTroupe => vec![Expansion::Renaissance],
            KC::Adventurer => vec![Expansion::Base1],
            KC::Advisor => vec![Expansion::Guilds],
            KC::Ambassador => vec![Expansion::Seaside],
            KC::Artisan => vec![Expansion::Base2],
            KC::Baker => vec![Expansion::Guilds],
            KC::Bandit => vec![Expansion::Base2, Expansion::Base1],
            KC::Baron => vec![Expansion::Intrigue2],
            KC::Bazaar => vec![Expansion::Seaside],
            KC::BorderGuard => vec![Expansion::Renaissance],
            KC::Bridge => vec![Expansion::Intrigue2],
            KC::Bureaucrat => vec![Expansion::Base2, Expansion::Base1],
            KC::Butcher => vec![Expansion::Guilds],
            KC::CandlestickMaker => vec![Expansion::Guilds],
            KC::Caravan => vec![Expansion::Seaside],
            KC::CargoShip => vec![Expansion::Renaissance],
            KC::Cellar => vec![Expansion::Base2, Expansion::Base1],
            KC::Chancellor => vec![Expansion::Base1],
            KC::Chapel => vec![Expansion::Base2, Expansion::Base1],
            KC::Conspirator => vec![Expansion::Intrigue2],
            KC::CouncilRoom => vec![Expansion::Base2, Expansion::Base1],
            KC::Courtier => vec![Expansion::Intrigue2],
            KC::Courtyard => vec![Expansion::Intrigue2],
            KC::Cutpurse => vec![Expansion::Seaside],
            KC::Diplomat => vec![Expansion::Intrigue2],
            KC::Doctor => vec![Expansion::Guilds],
            KC::Ducat => vec![Expansion::Renaissance],
            KC::Duke => vec![Expansion::Intrigue2],
            KC::Embargo => vec![Expansion::Seaside],
            KC::Experiment => vec![Expansion::Renaissance],
            KC::Explorer => vec![Expansion::Seaside],
            KC::Fairgrounds => vec![Expansion::Cornucopia],
            KC::FarmingVillage => vec![Expansion::Cornucopia],
            KC::Feast => vec![Expansion::Base1],
            KC::Festival => vec![Expansion::Base2, Expansion::Base1],
            KC::FishingVillage => vec![Expansion::Seaside],
            KC::FlagBearer => vec![Expansion::Renaissance],
            KC::FortuneTeller => vec![Expansion::Cornucopia],
            KC::Gardens => vec![Expansion::Base2, Expansion::Base1],
            KC::GhostShip => vec![Expansion::Seaside],
            KC::Hamlet => vec![Expansion::Cornucopia],
            KC::Harbinger => vec![Expansion::Base2],
            KC::Harem => vec![Expansion::Intrigue2],
            KC::Harvest => vec![Expansion::Cornucopia],
            KC::Haven => vec![Expansion::Seaside],
            KC::Herald => vec![Expansion::Guilds],
            KC::Hideout => vec![Expansion::Renaissance],
            KC::HornOfPlenty => vec![Expansion::Cornucopia],
            KC::HorseTraders => vec![Expansion::Cornucopia],
            KC::HuntingParty => vec![Expansion::Cornucopia],
            KC::Improve => vec![Expansion::Renaissance],
            KC::Inventor => vec![Expansion::Renaissance],
            KC::Ironworks => vec![Expansion::Intrigue2],
            KC::Island => vec![Expansion::Seaside],
            KC::Jester => vec![Expansion::Cornucopia],
            KC::Journeyman => vec![Expansion::Guilds],
            KC::Laboratory => vec![Expansion::Base2, Expansion::Base1],
            KC::Lackeys => vec![Expansion::Renaissance],
            KC::Library => vec![Expansion::Base2, Expansion::Base1],
            KC::Lighthouse => vec![Expansion::Seaside],
            KC::Lookout => vec![Expansion::Seaside],
            KC::Lurker => vec![Expansion::Intrigue2],
            KC::Market => vec![Expansion::Base2, Expansion::Base1],
            KC::Masquerade => vec![Expansion::Intrigue2],
            KC::Masterpiece => vec![Expansion::Guilds],
            KC::Menagerie => vec![Expansion::Cornucopia],
            KC::Merchant => vec![Expansion::Base2],
            KC::MerchantGuild => vec![Expansion::Guilds],
            KC::MerchantShip => vec![Expansion::Seaside],
            KC::Militia => vec![Expansion::Base2, Expansion::Base1],
            KC::Mill => vec![Expansion::Intrigue2],
            KC::Mine => vec![Expansion::Base2, Expansion::Base1],
            KC::MiningVillage => vec![Expansion::Intrigue2],
            KC::Minion => vec![Expansion::Intrigue2],
            KC::Moat => vec![Expansion::Base2, Expansion::Base1],
            KC::Moneylender => vec![Expansion::Base2, Expansion::Base1],
            KC::MountainVillage => vec![Expansion::Renaissance],
            KC::NativeVillage => vec![Expansion::Seaside],
            KC::Navigator => vec![Expansion::Seaside],
            KC::Nobles => vec![Expansion::Intrigue2],
            KC::OldWitch => vec![Expansion::Renaissance],
            KC::Outpost => vec![Expansion::Seaside],
            KC::Patrol => vec![Expansion::Intrigue2],
            KC::Patron => vec![Expansion::Renaissance],
            KC::Pawn => vec![Expansion::Intrigue2],
            KC::PearlDiver => vec![Expansion::Seaside],
            KC::PirateShip => vec![Expansion::Seaside],
            KC::Plaza => vec![Expansion::Guilds],
            KC::Poacher => vec![Expansion::Base2],
            KC::Priest => vec![Expansion::Renaissance],
            KC::Recruiter => vec![Expansion::Renaissance],
            KC::Remake => vec![Expansion::Cornucopia],
            KC::Remodel => vec![Expansion::Base2, Expansion::Base1],
            KC::Replace => vec![Expansion::Intrigue2],
            KC::Research => vec![Expansion::Renaissance],
            KC::Salvager => vec![Expansion::Seaside],
            KC::Scepter => vec![Expansion::Renaissance],
            KC::Scholar => vec![Expansion::Renaissance],
            KC::Sculptor => vec![Expansion::Renaissance],
            KC::SeaHag => vec![Expansion::Seaside],
            KC::SecretPassage => vec![Expansion::Intrigue2],
            KC::Seer => vec![Expansion::Renaissance],
            KC::Sentry => vec![Expansion::Base2],
            KC::ShantyTown => vec![Expansion::Intrigue2],
            KC::SilkMerchant => vec![Expansion::Renaissance],
            KC::Smithy => vec![Expansion::Base2, Expansion::Base1],
            KC::Smugglers => vec![Expansion::Seaside],
            KC::Soothsayer => vec![Expansion::Guilds],
            KC::Spices => vec![Expansion::Renaissance],
            KC::Spy => vec![Expansion::Base1],
            KC::Steward => vec![Expansion::Intrigue2],
            KC::Stonemason => vec![Expansion::Guilds],
            KC::Swashbuckler => vec![Expansion::Renaissance],
            KC::Swindler => vec![Expansion::Intrigue2],
            KC::Tactician => vec![Expansion::Seaside],
            KC::Taxman => vec![Expansion::Guilds],
            KC::Thief => vec![Expansion::Base1],
            KC::ThroneRoom => vec![Expansion::Base2, Expansion::Base1],
            KC::Torturer => vec![Expansion::Intrigue2],
            KC::Tournament => vec![Expansion::Cornucopia],
            KC::TradingPost => vec![Expansion::Intrigue2],
            KC::TreasureMap => vec![Expansion::Seaside],
            KC::Treasurer => vec![Expansion::Renaissance],
            KC::Treasury => vec![Expansion::Seaside],
            KC::Upgrade => vec![Expansion::Intrigue2],
            KC::Vassal => vec![Expansion::Base2],
            KC::Village => vec![Expansion::Base2, Expansion::Base1],
            KC::Villain => vec![Expansion::Renaissance],
            KC::Warehouse => vec![Expansion::Seaside],
            KC::Wharf => vec![Expansion::Seaside],
            KC::WishingWell => vec![Expansion::Intrigue2],
            KC::Witch => vec![Expansion::Base2, Expansion::Base1],
            KC::Woodcutter => vec![Expansion::Base1],
            KC::Workshop => vec![Expansion::Base2, Expansion::Base1],
            KC::YoungWitch => vec![Expansion::Cornucopia],
        };
        assert(list@ =~= self.expansion_list());
        list
    }
}

impl Expansions for Project {
    open spec fn expansion_list(&self) -> Seq<Expansion> {
        seq![Expansion::Renaissance]
    }

    fn expansions(&self) -> (list: Vec<Expansion>) {
        let list = vec![Expansion::Renaissance];
        assert(list@ =~= self.expansion_list());
        list
    }
}

impl CardTypes for KC {
    open spec fn type_list(&self) -> Seq<CardType> {
        match self {
            KC::ActingTroupe | KC::Adventurer | KC::Advisor | KC::Artisan | KC::Baker
            | KC::Baron | KC::Bazaar | KC::BorderGuard | KC::Bridge | KC::Butcher
            | KC::CandlestickMaker | KC::Cellar | KC::Chancellor | KC::Chapel
            | KC::Conspirator | KC::CouncilRoom | KC::Courtier | KC::Courtyard | KC::Doctor
            | KC::Embargo | KC::Experiment | KC::Explorer | KC::FarmingVillage | KC::Feast
            | KC::Festival | KC::FlagBearer | KC::Hamlet | KC::Harbinger | KC::Harvest
            | KC::Herald | KC::Hideout | KC::HuntingParty | KC::Improve | KC::Inventor
            | KC::Ironworks | KC::Journeyman | KC::Laboratory | KC::Lackeys | KC::Library
            | KC::Lookout | KC::Lurker | KC::Market | KC::Masquerade | KC::Menagerie
            | KC::Merchant | KC::MerchantGuild | KC::Mine | KC::MiningVillage
            | KC::Moneylender | KC::MountainVillage | KC::NativeVillage | KC::Navigator
            | KC::Patrol | KC::Pawn | KC::PearlDiver | KC::Plaza | KC::Poacher | KC::Priest
            | KC::Recruiter | KC::Remake | KC::Remodel | KC::Salvager | KC::Scholar
            | KC::Sculptor | KC::SecretPassage | KC::Seer | KC::Sentry | KC::ShantyTown
            | KC::SilkMerchant | KC::Smithy | KC::Smugglers | KC::Steward | KC::Stonemason
            | KC::Swashbuckler | KC::ThroneRoom | KC::Tournament | KC::TradingPost
            | KC::TreasureMap | KC::Treasurer | KC::Treasury | KC::Upgrade | KC::Vassal
            | KC::Village | KC::Warehouse | KC::WishingWell | KC::Woodcutter
            | KC::Workshop => seq![CardType::Action],
            KC::Ambassador | KC::Bandit | KC::Bureaucrat | KC::Cutpurse | KC::FortuneTeller
            | KC::GhostShip | KC::Jester | KC::Militia | KC::Minion | KC::OldWitch
            | KC::PirateShip | KC::Replace | KC::SeaHag | KC::Soothsayer | KC::Spy
            | KC::Swindler | KC::Taxman | KC::Thief | KC::Torturer | KC::Villain | KC::Witch
            | KC::YoungWitch => seq![CardType::Action, CardType::Attack],
            KC::Caravan | KC::CargoShip | KC::FishingVillage | KC::Haven | KC::Lighthouse
            | KC::MerchantShip | KC::Outpost | KC::Research | KC::Tactician
            | KC::Wharf => seq![CardType::Action, CardType::Duration],
            KC::Diplomat | KC::HorseTraders | KC::Moat
            | KC::Patron => seq![CardType::Action, CardType::Reaction],
            KC::Ducat | KC::HornOfPlenty | KC::Masterpiece | KC::Scepter
            | KC::Spices => seq![CardType::Treasure],
            KC::Duke | KC::Fairgrounds | KC::Gardens => seq![CardType::Victory],
            KC::Harem => seq![CardType::Treasure, CardType::Victory],
            KC::Island | KC::Mill | KC::Nobles => seq![CardType::Action, CardType::Victory],
        }
    }

    fn card_types(&self) -> (list: Vec<CardType>) {
        let list = match self {
            KC::ActingTroupe => vec![CardType::Action],
            KC::Adventurer => vec![CardType::Action],
            KC::Advisor => vec![CardType::Action],
            KC::Ambassador => vec![CardType::Action, CardType::Attack],
            KC::Artisan => vec![CardType::Action],
            KC::Baker => vec![CardType::Action],
            KC::Bandit => vec![CardType::Action, CardType::Attack],
            KC::Baron => vec![CardType::Action],
            KC::Bazaar => vec![CardType::Action],
            KC::BorderGuard => vec![CardType::Action],
            KC::Bridge => vec![CardType::Action],
            KC::Bureaucrat => vec![CardType::Action, CardType::Attack],
            KC::Butcher => vec![CardType::Action],
            KC::CandlestickMaker => vec![CardType::Action],
            KC::Caravan => vec![CardType::Action, CardType::Duration],
            KC::CargoShip => vec![CardType::Action, CardType::Duration],
            KC::Cellar => vec![CardType::Action],
            KC::Chancellor => vec![CardType::Action],
            KC::Chapel => vec![CardType::Action],
            KC::Conspirator => vec![CardType::Action],
            KC::CouncilRoom => vec![CardType::Action],
            KC::Courtier => vec![CardType::Action],
            KC::Courtyard => vec![CardType::Action],
            KC::Cutpurse => vec![CardType::Action, CardType::Attack],
            KC::Diplomat => vec![CardType::Action, CardType::Reaction],
            KC::Doctor => vec![CardType::Action],
            KC::Ducat => vec![CardType::Treasure],
            KC::Duke => vec![CardType::Victory],
            KC::Embargo => vec![CardType::Action],
            KC::Experiment => vec![CardType::Action],
            KC::Explorer => vec![CardType::Action],
            KC::Fairgrounds => vec![CardType::Victory],
            KC::FarmingVillage => vec![CardType::Action],
            KC::Feast => vec![CardType::Action],
            KC::Festival => vec![CardType::Action],
            KC::FishingVillage => vec![CardType::Action, CardType::Duration],
            KC::FlagBearer => vec![CardType::Action],
            KC::FortuneTeller => vec![CardType::Action, CardType::Attack],
            KC::Gardens => vec![CardType::Victory],
            KC::GhostShip => vec![CardType::Action, CardType::Attack],
            KC::Hamlet => vec![CardType::Action],
            KC::Harbinger => vec![CardType::Action],
            KC::Harem => vec![CardType::Treasure, CardType::Victory],
            KC::Harvest => vec![CardType::Action],
            KC::Haven => vec![CardType::Action, CardType::Duration],
            KC::Herald => vec![CardType::Action],
            KC::Hideout => vec![CardType::Action],
            KC::HornOfPlenty => vec![CardType::Treasure],
            KC::HorseTraders => vec![CardType::Action, CardType::Reaction],
            KC::HuntingParty => vec![CardType::Action],
            KC::Improve => vec![CardType::Action],
            KC::Inventor => vec![CardType::Action],
            KC::Ironworks => vec![CardType::Action],
            KC::Island => vec![CardType::Action, CardType::Victory],
            KC::Jester => vec![CardType::Action, CardType::Attack],
            KC::Journeyman => vec![CardType::Action],
            KC::Laboratory => vec![CardType::Action],
            KC::Lackeys => vec![CardType::Action],
            KC::Library => vec![CardType::Action],
            KC::Lighthouse => vec![CardType::Action, CardType::Duration],
            KC::Lookout => vec![CardType::Action],
            KC::Lurker => vec![CardType::Action],
            KC::Market => vec![CardType::Action],
            KC::Masquerade => vec![CardType::Action],
            KC::Masterpiece => vec![CardType::Treasure],
            KC::Menagerie => vec![CardType::Action],
            KC::Merchant => vec![CardType::Action],
            KC::MerchantGuild => vec![CardType::Action],
            KC::MerchantShip => vec![CardType::Action, CardType::Duration],
            KC::Militia => vec![CardType::Action, CardType::Attack],
            KC::Mill => vec![CardType::Action, CardType::Victory],
            KC::Mine => vec![CardType::Action],
            KC::MiningVillage => vec![CardType::Action],
            KC::Minion => vec![CardType::Action, CardType::Attack],
            KC::Moat => vec![CardType::Action, CardType::Reaction],
            KC::Moneylender => vec![CardType::Action],
            KC::MountainVillage => vec![CardType::Action],
            KC::NativeVillage => vec![CardType::Action],
            KC::Navigator => vec![CardType::Action],
            KC::Nobles => vec![CardType::Action, CardType::Victory],
            KC::OldWitch => vec![CardType::Action, CardType::Attack],
            KC::Outpost => vec![CardType::Action, CardType::Duration],
            KC::Patrol => vec![CardType::Action],
            KC::Patron => vec![CardType::Action, CardType::Reaction],
            KC::Pawn => vec![CardType::Action],
            KC::PearlDiver => vec![CardType::Action],
            KC::PirateShip => vec![CardType::Action, CardType::Attack],
            KC::Plaza => vec![CardType::Action],
            KC::Poacher => vec![CardType::Action],
            KC::Priest => vec![CardType::Action],
            KC::Recruiter => vec![CardType::Action],
            KC::Remake => vec![CardType::Action],
            KC::Remodel => vec![CardType::Action],
            KC::Replace => vec![CardType::Action, CardType::Attack],
            KC::Research => vec![CardType::Action, CardType::Duration],
            KC::Salvager => vec![CardType::Action],
            KC::Scepter => vec![CardType::Treasure],
            KC::Scholar => vec![CardType::Action],
            KC::Sculptor => vec![CardType::Action],
            KC::SeaHag => vec![CardType::Action, CardType::Attack],
            KC::SecretPassage => vec![CardType::Action],
            KC::Seer => vec![CardType::Action],
            KC::Sentry => vec![CardType::Action],
            KC::ShantyTown => vec![CardType::Action],
            KC::SilkMerchant => vec![CardType::Action],
            KC::Smithy => vec![CardType::Action],
            KC::Smugglers => vec![CardType::Action],
            KC::Soothsayer => vec![CardType::Action, CardType::Attack],
            KC::Spices => vec![CardType::Treasure],
            KC::Spy => vec![CardType::Action, CardType::Attack],
            KC::Steward => vec![CardType::Action],
            KC::Stonemason => vec![CardType::Action],
            KC::Swashbuckler => vec![CardType::Action],
            KC::Swindler => vec![CardType::Action, CardType::Attack],
            KC::Tactician => vec![CardType::Action, CardType::Duration],
            KC::Taxman => vec![CardType::Action, CardType::Attack],
            KC::Thief => vec![CardType::Action, CardType::Attack],
            KC::ThroneRoom => vec![CardType::Action],
            KC::Torturer => vec![CardType::Action, CardType::Attack],
            KC::Tournament => vec![CardType::Action],
            KC::TradingPost => vec![CardType::Action],
            KC::TreasureMap => vec![CardType::Action],
            KC::Treasurer => vec![CardType::Action],
            KC::Treasury => vec![CardType::Action],
            KC::Upgrade => vec![CardType::Action],
            KC::Vassal => vec![CardType::Action],
            KC::Village => vec![CardType::Action],
            KC::Villain => vec![CardType::Action, CardType::Attack],
            KC::Warehouse => vec![CardType::Action],
            KC::Wharf => vec![CardType::Action, CardType::Duration],
            KC::WishingWell => vec![CardType::Action],
            KC::Witch => vec![CardType::Action, CardType::Attack],
            KC::Woodcutter => vec![CardType::Action],
            KC::Workshop => vec![CardType::Action],
            KC::YoungWitch => vec![CardType::Action, CardType::Attack],
        };
        assert(list@ =~= self.type_list());
        list
    }
}

} // verus!
