//! Core of a chat bot's interactive command pipeline: the permission check
//! that decides whether a command may run, and the paginated responses that
//! users page through with reactions.

pub mod text;
pub mod pagination;
pub mod session;
pub mod interactions;
pub mod dispatch;
pub mod attributes;
pub mod declarations;
pub mod bot;
pub mod links;
