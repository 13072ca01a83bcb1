//! The core of a terminal client for an attendance service: a host that
//! owns one active screen, the screens and the transitions between them, a
//! loading screen that takes a pending operation forward one step per tick,
//! and the course that such an operation takes.
//!
//! The library decides; it neither draws nor talks to anything. A program
//! around it draws the active screen, polls the keyboard, and calls
//! [`app::App::tick`] with the input and with a probe of the request that is
//! under way. The tick answers with a [`app::Directive`]: the request to
//! make next, whether to write the saved accounts out, whether to leave.
//!
//! Every type has a view, the mathematical value that it stands for, and
//! every function says in terms of views what it returns and changes. What
//! holds of the whole whatever the input is proved in [`laws`].

pub mod app;
pub mod config;
pub mod event;
pub mod laws;
pub mod requests;
pub mod screens;
pub mod text;
pub mod user;
