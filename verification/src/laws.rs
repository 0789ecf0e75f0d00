//! What holds of the server as a whole.

pub mod clients;
pub mod entry;
pub mod grants;
pub mod journeys;
pub mod onboarding;
pub mod readings;
pub mod restart;
pub mod sessions;
pub mod settings;
pub mod terms;
pub mod upkeep;
pub mod users;
pub mod words;
