//! Core of a load-shedding notifier.
//!
//! The heart of the crate is the scheduling engine. [`budget`] turns the
//! daily call allowance of the status service into a polling cadence,
//! [`schedule`] keeps a clock for each cadence and moves it to the next
//! firing once it is due, [`window`] says whether an instant lies in the
//! short band that ends a fixed number of minutes before the predicted start
//! of the next power interruption, and [`engine`] ties them into a loop that
//! is driven one tick at a time, keeps at most one fetch in flight and ends
//! when it is told to.
//!
//! Around it stand the decisions of the user interface: which page comes on
//! screen after a press, what a finished worker changes on a page, and which
//! answers the setup dialogue accepts. Drawing, prompting, threads and the
//! network are left to the caller, who hands in plain values and acts on what
//! comes back.
//!
//! Every function carries a contract that Verus proves. Two calls leave the
//! verified code, one into the `cron` crate and one into std; each stands in
//! a function of its own whose documentation says what is taken on trust.

pub mod area_details_page;
pub mod budget;
pub mod configuration_setup;
pub mod engine;
pub mod fetch;
pub mod find_area_page;
pub mod helpers;
pub mod home_page;
pub mod instant;
pub mod layouts;
pub mod schedule;
pub mod settings_page;
pub mod setup;
pub mod state;
pub mod text;
pub mod updating_page;
pub mod window;
