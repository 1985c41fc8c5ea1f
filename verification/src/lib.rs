//! Core of a small terminal launcher: stations pair a description with a
//! command template, input typed into a prompt box fills the template's
//! `{}` placeholder, and layered UI settings decide how the box looks.

pub mod args;
pub mod config;
pub mod ui;
