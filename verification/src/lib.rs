//! Server-authoritative simulation core of a small multiplayer arena game.
//!
//! A [`server::Server`] is one session. It steps through its phases
//! ([`states`]), from the lobby ([`lobby`]) over loading ([`loading`]) and
//! shopping ([`shopping`]) to the battle ([`battle`]), round after round,
//! and queues what clients have to be told ([`sync`], [`network`]). Callers
//! hand it what connections report and ask for ([`connections`]), let time
//! pass ([`session`]) and send what it has queued. [`laws`] states what
//! holds of a session whatever is asked of it.

pub mod arena;
pub mod battle;
pub mod client_messages;
pub mod components;
pub mod connections;
pub mod damage;
pub mod ecs_message;
pub mod events;
pub mod health;
pub mod laws;
pub mod loading;
pub mod lobby;
pub mod network;
pub mod resources;
pub mod sequences;
pub mod server;
pub mod server_messages;
pub mod session;
pub mod shopping;
pub mod states;
pub mod sync;
pub mod timer;
