//! A verified planning core for a command-line archive front-end.
//!
//! Given a user intent (create, extract, list) and a target archive format,
//! the library resolves the format from the file name, maps a universal
//! compression rate to each tool's native scale, and builds an ordered plan
//! of external commands with working directories, arguments, environment
//! overrides and stdin text.  Running the external tools, probing the
//! filesystem and parsing the command line are left to an unverified shell
//! around the library; the plans themselves, and the fail-fast stepping
//! through a plan, are verified here.

pub mod args;
pub mod library;
pub mod create;
pub mod extract;
pub mod list;
