//! Contains ready-made servers which can be used in tests.

pub mod auth;
pub mod cloud;
pub mod database;
pub mod hashi;
pub mod web;
pub mod webserver;
