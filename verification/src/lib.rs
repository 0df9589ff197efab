//! The verified core of an NPF exposure-time navigator for astrophotography:
//! the target catalogue, its translations, the visibility and search filters,
//! the sorted target menus, the equipment lists and the integer layout of the
//! exposure chart.

pub mod catalog;
pub mod equipment;
pub mod filter;
pub mod i18n;
pub mod labels;
pub mod order;
pub mod render;
pub mod text;
