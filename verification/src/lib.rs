//! Install and uninstall plans made of small, revertible actions.
//!
//! Nothing in this crate touches the machine. An action answers, for the
//! responses it has been given so far, with the next operating-system
//! request it wants performed, or with its result. A pass over a plan does
//! the same for a whole list of actions. Whoever drives the library
//! performs the requests and reports what happened:
//!
//! ```text
//! let mut pass = Pass::install();
//! let mut response = None;
//! loop {
//!     let directive = plan.advance(&mut pass, response.take());
//!     if directive.persist { /* write the plan to disk */ }
//!     match directive.next {
//!         Next::Perform(request) => response = Some(/* perform it */),
//!         Next::Finished(outcome) => break outcome,
//!     }
//! }
//! ```
//!
//! - [`system`] holds the requests and responses, [`tree`] a model of the
//!   file system they act on.
//! - [`action`] holds the actions, their states, and the rule by which a
//!   completed action is not executed again and an uncompleted one is not
//!   reverted.
//! - [`plan`] holds plans and passes: forward to install, in reverse to
//!   undo a failed install or to uninstall. [`plan::laws`] states what
//!   holds of every pass.
//! - [`planner`] lists what to install on a kind of machine.

pub mod action;
pub mod command;
pub mod error;
pub mod paths;
pub mod plan;
pub mod planner;
pub mod settings;
pub mod system;
pub mod text;
pub mod tree;
