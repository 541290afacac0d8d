//! The core of a system fetch tool: what to ask the host, what to make of its
//! answers, and how to lay the result out beside a logo.
//!
//! The library never touches the host. A probe (`probe::next_step`, or the
//! function of one fact such as `system::get_os_info`) is a function from the
//! answers received so far to the next step: a question for the caller to carry
//! out, or the finished value. Figures that the system reports as numbers
//! (`metrics`) come in as plain values. `render` turns the values into the lines
//! to print.
//!
//! - `host`: platforms, questions, answers, steps.
//! - `system`, `hardware`, `packages`, `device`, `battery`: the probes.
//! - `probe`: the probes by name, and what holds of all of them.
//! - `metrics`: uptime, memory, disk, local address, shell and user.
//! - `render`: the list of facts and the two columns.
//! - `text`, `number`: characters and numerals.
//! - `json`: the calls into `serde_json`.

pub mod battery;
pub mod device;
pub mod hardware;
pub mod host;
pub mod json;
pub mod metrics;
pub mod number;
pub mod packages;
pub mod probe;
pub mod render;
pub mod system;
pub mod text;
