//! Plans for refreshing what is known about the processes of a system.
//!
//! A refresh is asked for certain processes and certain fields of them. What is then done depends
//! on the request, on what the platform can provide and on the samples taken before, never on the
//! system itself. This crate takes those decisions, as pure code, and proves what they are:
//!
//!  * [`process_plan`] names the processes to visit as a set, masks the fields that the platform
//!    lacks and decides whether a CPU usage can be computed;
//!  * [`refresh_plan`] keeps the requested order of the processes and reports each field that it
//!    had to give up;
//!  * [`process_refresh`] keeps the request as it is and also decides how samples are taken and
//!    how the result is committed.
//!
//! [`request`] holds what a caller asks for, [`flags`] the sets of fields that a platform lacks,
//! [`pids`] what holds of lists of processes, [`time`] spans and points in time, and [`sys`] the
//! capabilities of a platform that cannot list processes.
pub mod flags;
pub mod pids;
pub mod process_plan;
pub mod process_refresh;
pub mod refresh_plan;
pub mod request;
pub mod sys;
pub mod time;
