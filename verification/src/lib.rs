//! Detection of shell scripts that write into the file named by `GITHUB_ENV`.
//!
//! A step of a workflow that writes into that file sets the environment of
//! every later step of its job. Where a stranger can start the workflow with
//! the repository's privileges and has a say in what is written, that is a
//! way to run code. This library reads the script of a step, in the dialect
//! of the step's interpreter, and says whether it writes into the file
//! anything but what the script itself spells out.
//!
//! - [`patterns`] holds the catalog: the structural patterns of the two
//!   parsed dialects and the expression of the command interpreter.
//! - [`engine`] and [`expression`] are the doors to the parsing library and
//!   to the regular expressions; what is said of them there is taken on
//!   trust.
//! - [`capture`] holds what a pattern binds, as plain values.
//! - [`classify`] is the safety classifier, and [`spans`] collects what is
//!   reported.
//! - [`detector`] holds the detector for the three dialects and the
//!   dispatcher, and [`audit`] the rule that is laid over them.
//! - [`laws`] states what holds of every detection.

pub mod audit;
pub mod capture;
pub mod classify;
pub mod detector;
pub mod engine;
pub mod error;
pub mod expression;
pub mod laws;
pub mod patterns;
pub mod spans;
pub mod text;
