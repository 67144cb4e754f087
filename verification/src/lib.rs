use vstd::prelude::*;

pub mod cola;
pub mod texto;
pub mod alsa;
pub mod config;
pub mod bot;
pub mod textos;
pub mod editor;
pub mod leyes;
