pub mod arena;
pub mod fighter;
pub mod presentation;
pub mod registry;
pub mod timer;
