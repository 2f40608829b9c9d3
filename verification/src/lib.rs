//! Reconciles a declared set of symbolic links with what is found on disk.
//!
//! The library decides; it never touches the filesystem itself. A caller
//! resolves each link's two path specifications, looks at the link name
//! itself with three probes, none of which follows a link, and hands the
//! findings over. The library classifies each
//! link, counts the classifications, decides whether a command may go ahead,
//! and lays out the report and the steps that the caller is to take.
//!
//! - [`link`]: a declared link, the probe of its link name, and its status.
//! - [`summary`]: the statuses of all links and their counts.
//! - [`policy`]: the four commands and when each may go ahead.
//! - [`step`] and [`plan`]: what a command asks the caller to do.
//! - [`report`]: the marks, lines and totals that are shown.
//! - [`reconcile`]: a whole command, from observations to outcome.
//! - [`world`] and [`laws`]: a model of the disk, and what is proved over it
//!   of the outcomes.
//! - [`text`]: numbers in decimal, and the texts that come from the
//!   standard library's formatting.

pub mod laws;
pub mod link;
pub mod plan;
pub mod policy;
pub mod reconcile;
pub mod report;
pub mod step;
pub mod summary;
pub mod text;
pub mod world;
