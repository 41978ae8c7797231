//! Capacity planning from virtualization inventories: reconciles two capacity
//! measurements per virtual machine, rolls the machines up into groups and
//! projects the groups into a sizing document.

pub mod excel;
pub mod helpers;
pub mod models;
pub mod plot;
pub mod policy;
pub mod reconcile;
pub mod report;
pub mod rollup;
pub mod sitemap;
pub mod sums;
pub mod tally;
pub mod text;
pub mod vecs;
pub mod vse;

pub use excel::get_excel;
pub use helpers::{ColPosition, GetFloat, GetString};
pub use plot::plot_data;
pub use report::run;
pub use vse::vse_construct;
