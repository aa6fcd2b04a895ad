pub mod listing;
pub mod menu;
pub mod png;
pub mod store;
