//! Prediction of catch windows in the accelerated Eorzean calendar: the game
//! clock, the deterministic regional weather model, and the search that
//! intersects a fish's daily window with its required weather.

pub mod eorzea_time;
pub mod weather;
pub mod fish;
pub mod text;
pub mod carbuncle;
