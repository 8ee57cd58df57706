//! An entity of a game server's skill plugin, a mob or a meta-skill, and the
//! configuration text that the server reads.
//!
//! The entity is put together from three catalogues: mechanics (what a skill
//! does), targeters (what it acts on) and triggers (what sets it off). Every
//! value has one text, given by a spec function, and the functions that
//! write the text are proved to write exactly that.
//!
//! - [`text`]: the trait of values with a text; integers, booleans, strings.
//! - [`decimal`]: decimal numbers, their numerals, and reading them back.
//! - [`names`]: names as words joined by underscores.
//! - [`skill`]: the catalogues and the skill.
//! - [`states`]: the entity and its configuration text.

pub mod decimal;
pub mod names;
pub mod skill;
pub mod states;
pub mod text;
