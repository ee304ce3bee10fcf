//! Verified core of an installer and updater for a toolchain made of several
//! source repositories: the decisions it takes, the commands it runs, and the
//! way it reads what those commands left behind.
pub mod logger;
pub mod prompt;
pub mod process;
pub mod install;
