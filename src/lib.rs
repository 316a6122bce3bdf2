//! Upgrade orchestration for database instances: version ordering,
//! compatibility and text form, target resolution against a package
//! catalog, and the step-by-step decision machines that drive local and
//! cloud upgrades, with a model of what each step does to the instance's
//! directories and the laws that hold of every run.

pub mod version;
pub mod query;
pub mod local;
pub mod disk;
pub mod meta;
pub mod plan;
pub mod cloud;
pub mod text;
pub mod parse;
pub mod ui;
pub mod token;
