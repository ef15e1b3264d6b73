//! Controller logic for a Daikin air conditioner driven on a nightly schedule.

pub mod clock;
pub mod config;
pub mod controller;
pub mod ir;
pub mod scheduler;
pub mod sensors;
pub mod state;
pub mod storage;
pub mod text;
pub mod web;
