//! Widgets, layout and text handling for a terminal user interface.

pub mod geometry;
pub mod index;
pub mod constraints;
pub mod layout;
pub mod many;
pub mod fill;
pub mod stack;
pub mod place;
pub mod border;
pub mod table;
pub mod attributes;
pub mod lookup;
pub mod error;
pub mod stringify;
pub mod gen;
pub mod deferred;
pub mod animation;
pub mod width;
pub mod text;
pub mod events;
pub mod id;
pub mod path;
pub mod strings;
pub mod display;
pub mod filter;
pub mod paint;
