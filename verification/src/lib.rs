//! Client-side core of the Ruggine chat application: the application state,
//! the dual sequence system that detects gaps in the server's event streams,
//! the reorder buffers, the event handlers and the WebSocket connection policy.

pub mod external;
pub mod model;
pub mod text;
pub mod state;
pub mod sequence;
pub mod buffer;
pub mod view;
pub mod cache;
pub mod helpers;
pub mod convlist;
pub mod incoming;
pub mod messages;
pub mod resume;
pub mod maps;
pub mod conversations;
pub mod stubs;
pub mod ui;
pub mod auth;
pub mod commands;
pub mod checks;
pub mod notifications;
pub mod dispatcher;
pub mod connection;
pub mod outgoing;
pub mod panels;
pub mod maintenance;
pub mod server;
pub mod forms;
pub mod chat;
pub mod current;
pub mod stats;
pub mod link;
pub mod frames;
pub mod json;
pub mod payload;
pub mod inbound;
pub mod outbound;
pub mod rest;
pub mod laws;
