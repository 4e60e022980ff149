//! Wallpaper selection shared between an editor and a background daemon.
//!
//! The editor edits a [`Config`] and stores it as a TOML file; the daemon
//! watches that file and shows the background the file names. This crate holds
//! the rules of that exchange and proves them with Verus. It does no I/O: the
//! caller reads and writes the file, watches the directory and runs the
//! windows, and asks the library what to do with what it got.
//!
//! - [`config`]: the configuration and the edits made to it;
//! - [`editor`]: what each user action does to the configuration;
//! - [`store`]: the configuration as a TOML document;
//! - [`table`]: the TOML tables below the store, parsed and rendered by the
//!   `toml` crate;
//! - [`observer`]: when the daemon looks at the file;
//! - [`bridge`]: which configurations reach the render state;
//! - [`render`]: what the daemon draws;
//! - [`session`]: what holds of a whole session of the daemon.
//!
//! Every function is verified against its contract, except the few in
//! [`table`] whose bodies call into `toml`: their contracts are taken on
//! trust, and each says what it claims of the call it makes.

pub mod bridge;
pub mod config;
pub mod editor;
pub mod observer;
pub mod render;
pub mod session;
pub mod store;
pub mod table;

pub use config::{Config, ConfigView};
pub use observer::ChangeObserver;
pub use render::RenderState;
pub use store::{config_file, parse_config, read_config, render_config, write_config, StoreError};
