//! The configuration of a deployment.
pub mod model;
pub mod options;
pub mod rules;
pub mod soundness;
pub mod wizard;
pub mod wizard_promises;
