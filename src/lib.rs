//! The verified core of a desktop shell around a command-line audio denoiser:
//! locating the engine, downloading it with progress, planning where cleaned
//! audio goes, and the controller that reacts to the user's actions.
pub mod controller;
pub mod download;
pub mod paths;
pub mod platform;
pub mod process;
