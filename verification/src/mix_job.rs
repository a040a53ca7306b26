//! The mix job tracker: asynchronous mixing jobs and their status lattice.

pub mod event;
pub mod job;
pub mod laws;
pub mod model;
pub mod pallet;
pub mod rules;
pub mod status;

pub use event::Error;
pub use event::Event;
pub use job::MixJobInfo;
pub use pallet::Config;
pub use pallet::Pallet;
pub use status::JobStatus;
