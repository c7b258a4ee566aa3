//! State controller of a terminal chat client: scrollable lists of rooms,
//! members and messages, the tab state machine, and the reconciliation of
//! protocol events with navigation commands.

pub mod app;
pub mod collection;
pub mod content;
pub mod ids;
pub mod input;
pub mod invite;
pub mod layout;
pub mod members;
pub mod messages;
pub mod room;
pub mod rooms;
pub mod tabs;
pub mod timestamp;
