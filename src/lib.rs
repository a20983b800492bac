//! Supervision of a local companion server process: locating its executable,
//! preparing its environment, deciding how to launch and health-check it, and
//! tearing it down exactly once.

pub mod text;
pub mod env;
pub mod locator;
pub mod prober;
pub mod launcher;
pub mod supervisor;
