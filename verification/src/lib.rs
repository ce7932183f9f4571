//! Sigroute: the logic of a trigger/action automation system, with the
//! behaviour of each part stated in its contract and proved by Verus.

pub mod common;
pub mod text;
pub mod json;
pub mod trigger_summary;
pub mod action_summary;
pub mod runner;
pub mod pickers;
pub mod message;
pub mod field_menu;
pub mod delete_menu;
pub mod app_model;
pub mod main_controller;
pub mod views;
pub mod db;
