//! Where an application keeps its cache and its configuration.
//!
//! The crate decides, from the host's platform family, three environment
//! variables and the platform's own directory lookups, which two directories
//! the application uses, and leads the host through creating them.
//!
//! * [`path`] holds the platform families and the two operations on path
//!   texts that the policy needs.
//! * [`inputs`] holds what a resolution is given: the environment variables
//!   and the platform's answers.
//! * [`resolve`] holds the policy for one directory, as a function of the
//!   environment and of the platform's answers, and what is proved of it.
//! * [`resolver`] holds the [`Resolver`](resolver::Resolver), which resolves
//!   both directories and keeps track of their creation.
//! * [`project_dirs`] holds the two directories once both exist.
//! * [`error`] holds the reasons for which a resolution fails.
//!
//! The crate reads no environment variable and touches no file system: the
//! host hands in the variables, creates the directory that the resolver
//! names, and reports how that went.

pub mod error;
pub mod inputs;
mod lookup;
pub mod path;
pub mod project_dirs;
pub mod resolve;
pub mod resolver;
