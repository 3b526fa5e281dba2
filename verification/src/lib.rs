//! Randomised kingdom setups for a deck-building card game, with the rules
//! of a valid setup stated as contracts and proved.
//!
//! A request ([`SetupConfig`]) names the expansions to draw from, cards to
//! ban and to force, and how many projects and bane tags to lay.
//! [`gen_setup`] answers with a [`Setup`] of ten distinct kingdom cards and
//! what goes with them, or with the reason why there is none
//! ([`GenSetupError`]).
//!
//! - `cards`: the catalog of kingdom cards, expansions, card types, projects
//!   and bane tags.
//! - `config`: requests and errors, and the lists that a request stands for.
//! - `setup`: the setup, and what makes one valid.
//! - `generator`: dealing a kingdom from a shuffled pool, completing the
//!   setup, and `gen_setup`, which draws and deals.
//! - `laws`: what holds of every request and of every generated setup.
//! - `random`, `clock`: the random generator and the clock, taken on trust.
//! - `lists`, `rank`, `text`: lists read as sets, values in order, text.
//! - `hist`, `pretty`: histograms, and setups and errors as text.

pub mod cards;
pub mod clock;
pub mod config;
pub mod generator;
pub mod hist;
pub mod laws;
pub mod lists;
pub mod pretty;
pub mod random;
pub mod rank;
pub mod setup;
pub mod text;

pub use cards::{
    expansion_set, BaneCard, BaseCost, CardType, CardTypes, Expansion, Expansions, Project, KC,
};
pub use config::{BaneCount, GenSetupError, ProjectCount, SetupConfig};
pub use generator::gen_setup;
pub use setup::Setup;
