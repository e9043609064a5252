use vstd::prelude::*;

pub mod json;
pub mod text;
pub mod platform;
pub mod colors;
pub mod settings_io;
pub mod paths;
pub mod order;
pub mod profiles;
pub mod settings;
pub mod shortcuts;
pub mod hollow_border;
pub mod services;
pub mod capture;
pub mod interaction;
pub mod locales;
pub mod separation;
pub mod remote;
pub mod lifecycle;
pub mod display;
pub mod preview;
pub mod system;
pub mod capture_platform;

verus! {
} // verus!
