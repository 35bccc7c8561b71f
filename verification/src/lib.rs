//! The logic of a WebXR implementation: sessions, devices, inputs and events,
//! with the contracts that each operation meets.

pub mod error;
pub mod events;
pub mod glwindow;
pub mod googlevr;
pub mod hand;
pub mod headless;
pub mod hittest;
pub mod input;
pub mod layers;
pub mod magicleap;
pub mod openxr;
pub mod registry;
pub mod session;
pub mod swap_chain;
pub mod utils;
pub mod view;
