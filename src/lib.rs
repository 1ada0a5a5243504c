//! Provisioning of a local actor and its login account, with the
//! first-run administrator bootstrap and registration-policy rules.
pub mod endpoints;
pub mod lemmas;
pub mod migrate;
pub mod validation;
