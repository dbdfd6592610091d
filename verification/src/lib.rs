//! Server core for browser user interfaces.
//!
//! An application holds its state in a change-tracked cell; every mutation is
//! fanned out over bounded channels to the event-stream connections of all
//! connected browser tabs. Requests are authenticated with a pre-shared token
//! on first contact and with a signed session cookie afterwards. The request
//! dispatcher, the session codec, the broadcast bookkeeping and the wire
//! formats are verified; sockets, tasks and serialization of application state
//! live with the embedding application.

pub mod access_control;
pub mod assets;
pub mod change_tracker;
pub mod channel;
pub mod codegen;
pub mod demo;
pub mod errors;
pub mod eventsource;
pub mod highlevel;
pub mod json;
pub mod lowlevel;
pub mod qr;
pub mod session;
pub mod text;
pub mod types;
pub mod util;

pub use access_control::AccessControl;
pub use errors::Error;
