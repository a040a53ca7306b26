//! Privacy-preserving elections: election records, the voter registry, the
//! ballot store and the calls that drive an election from creation to tally.

pub mod ballots;
pub mod election;
pub mod event;
pub mod laws;
pub mod model;
pub mod pallet;
pub mod registry;
pub mod rules;
pub mod tally;

pub use election::Election;
pub use event::Error;
pub use event::Event;
pub use pallet::Pallet;
pub use tally::TallyResult;
