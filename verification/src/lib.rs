//! Native egui windows inside an event loop that belongs to something else.
//!
//! The plugin sees every event of the loop. It sets up the windows that were asked
//! for, draws those that are open, hands them their events, answers messages to
//! them and closes them. It makes every decision itself, but it calls no windowing
//! or rendering library: what is to be done is handed out as an action, and how it
//! turned out comes back as a reply.
//!
//! [`plugin`] is where to start. [`turn`] holds the decisions, [`outcome`] what they
//! come down to for a whole event, [`laws`] what holds of every event, and
//! [`history`] what holds over several. [`behaviour`], [`conversation`] and
//! [`promises`] say what events, messages and the functions themselves are for.

pub mod backend;
pub mod behaviour;
pub mod conversation;
pub mod frame;
pub mod history;
pub mod laws;
pub mod message;
pub mod outcome;
pub mod plugin;
pub mod promises;
pub mod run;
pub mod setup;
pub mod shared;
pub mod turn;
pub mod window;
