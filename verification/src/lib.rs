//! Activate or create a Konsole terminal session in a specified working directory.
pub mod activate_windows;
pub mod candidate;
pub mod cli;
pub mod dbus;
pub mod exchange;
pub mod history;
pub mod konsole;
pub mod outside;
pub mod program;
pub mod service;
pub mod session;
pub mod text;
pub mod window;
pub mod world;
