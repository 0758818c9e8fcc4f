//! Core logic of a small tower-defense game: numeric attributes with layered
//! modifiers, a per-run context bag for skill effects, a deferred-command
//! dispatch pipeline, and the targeting and health rules that drive it.
//!
//! Fractional game values (attribute magnitudes, positions, directions) are
//! held as [`fixed::Fixed`] fixed-point numbers so that every combination rule
//! is exact and provable.

pub mod arrow_tower;
pub mod attribute;
pub mod battle;
pub mod bonfire;
pub mod bullet;
pub mod common;
pub mod context;
pub mod enemy;
pub mod fixed;
pub mod item_data_factory;
pub mod lair;
pub mod level;
pub mod map;
pub mod navigator;
pub mod product;
pub mod registry;
pub mod skill;
pub mod unit;

