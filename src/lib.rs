//! A registry of hospitals, patients and donors, with pledges of blood that
//! keep both sides of a donor/recipient link in step.

pub mod store;
pub mod records;
pub mod text;
pub mod ids;
pub mod registry;
