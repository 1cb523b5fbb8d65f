//! A user-mode scheduling (UMS) library: cooperative jobs on worker threads
//! that the program, not the operating system, schedules.
//!
//! The crate holds every decision of the scheduler as verified code over
//! plain values. A thread context, an event slot, a completion list and a
//! handle are addresses (`usize`); a job is the address under which the
//! runtime finds it. The calls into the operating system stay with the
//! program that uses the crate: it performs what a step function asks for and
//! hands the outcome back.
#![allow(non_camel_case_types, non_upper_case_globals)]

pub mod cause;
pub mod crew;
pub mod entry;
pub mod event;
pub mod info;
pub mod job;
pub mod measure;
pub mod order;
pub mod platform;
pub mod protocol;
pub mod run;
pub mod scheduler;
pub mod setup;
pub mod walk;
pub mod win_result;
pub mod worker;
pub mod world;
