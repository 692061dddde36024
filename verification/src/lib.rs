//! Switches desktop applications between their light and dark appearance.
//!
//! The library decides what has to happen for each application: whether it
//! takes part at all, which theme applies, which line of a settings file
//! changes, which message goes to which peer.  It performs no input or
//! output itself; a caller carries the decisions out.
//!
//! A switch starts at [`switch`], which finds the application of a name and
//! resolves its section of the [`Config`] to a [`ConfigState`].  An
//! application that takes part answers with a [`plan::Plan`].  Plans that
//! rewrite a file or talk to the message bus are carried out with the
//! help of the application's own module under [`app`], which turns what
//! the caller has read into what it is to write or send.
//!
//! Contracts are stated over models: texts are sequences of characters,
//! lists are sequences, and every type with text in it has a view.  What
//! the `regex`, `xml` and `serde_json` crates compute is named, not
//! described; [`pattern`], [`introspect`] and [`json`] hold those names
//! and the few functions whose contracts are taken on trust.

pub mod app;
pub mod config;
pub mod dirs;
pub mod disableable;
pub mod introspect;
pub mod json;
pub mod listen;
pub mod operation;
pub mod pattern;
pub mod plan;
pub mod platform;
pub mod section;
pub mod sockets;
pub mod switch;
pub mod text;
pub mod themeable;

pub use config::Config;
pub use disableable::{AppConfig, Disableable, Disabled};
pub use operation::Operation;
pub use platform::Platform;
pub use section::Section;
pub use switch::switch;
pub use themeable::{ConfigError, ConfigState, Themeable};
