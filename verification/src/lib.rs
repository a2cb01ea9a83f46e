//! Interaction core of a terminal dashboard for prediction-market feeds, with
//! a machine-checked contract on every function.
//!
//! The dashboard is a state machine: [`state`] holds its state, the actions it
//! asks of its driver and the outcomes it takes back; [`model`] says over
//! plain values what each key, command and outcome does; [`app`] does it, and
//! is proved to do exactly that; [`laws`] proves what holds in every state.
//! Around it stand the [`watchlist`], the bounded log in [`logs`], the command
//! line in [`command`], the keys in [`keys`] and [`events`], and the tabs in
//! [`tab`].
//!
//! [`markets`], [`feed`] and [`store`] read what the discovery service and the
//! store of watched markets hold. [`analytics`] and [`volume`] are the parts of
//! the market analytics that work on whole numbers. [`onboarding`], [`repl`]
//! and [`types`] serve the program's start, its console and its engine.
//!
//! The library does no input or output. It reads the clock through `chrono`
//! and reads and writes JSON lists through `serde_json`.

pub mod analytics;
pub mod app;
pub mod clock;
pub mod command;
pub mod events;
pub mod feed;
pub mod keys;
pub mod laws;
pub mod logs;
pub mod markets;
pub mod model;
pub mod onboarding;
pub mod repl;
pub mod state;
pub mod store;
pub mod tab;
pub mod text;
pub mod types;
pub mod volume;
pub mod watchlist;
