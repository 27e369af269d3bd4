//! A tiling window manager core: key-binding registry, event translation,
//! master/slave window layout, and the decisions behind every display-server
//! request. All protocol I/O lives outside this crate; the library works on
//! plain window identifiers, key codes and geometry numbers, and every
//! function here carries a verified contract.

pub mod command;
pub mod config;
pub mod dispatch;
pub mod error;
pub mod event;
pub mod keys;
pub mod layout;
pub mod workspace;
pub mod x;

pub use command::Command;
pub use command::Commands;
pub use dispatch::Action;
pub use dispatch::Manager;
pub use error::WmError;
pub use event::Event;
pub use event::EventLoop;
pub use event::RawEvent;
pub use keys::KeyCombo;
pub use keys::ModKey;
pub use layout::Geometry;
pub use workspace::Workspace;
pub use x::Window;
