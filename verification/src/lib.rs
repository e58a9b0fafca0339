//! The command core of the ResumeAI desktop shell.
//!
//! The shell answers four commands of its window: a greeting, a health probe
//! of an HTTP endpoint, opening a folder in the system's file manager, and a
//! report of the platform the program was built for. Everything those commands
//! decide is here, as functions from plain values to plain values. Sending the
//! request, spawning the file manager and talking to the window are left to
//! the program around this crate.

pub mod failure;
pub mod folder;
pub mod greeting;
pub mod health;
pub mod platform;
pub mod text;

pub use folder::{open_output_folder, report_launch, LaunchRequest, Launcher, OpenStep};
pub use greeting::greet;
pub use health::check_api_health;
pub use platform::{get_platform_info, PlatformInfo};
