//! Backend logic for a seasonal Factorio server: player registrations, promo
//! codes, access tiers, weekly season rotation and in-game permission control.

pub mod error;
pub mod text;
pub mod time;
pub mod ids;
pub mod domain;
pub mod api;
pub mod db;
pub mod config;
pub mod services;
