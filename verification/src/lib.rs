//! Decision logic for keeping a symlink pointed at a runnable, version-reporting
//! executable.
//!
//! Nothing here touches the filesystem, starts a process or reads the console.
//! Each component is a resumable decision procedure: it names the next thing the
//! host has to do as a [`Request`], and is resumed with the [`Response`] that
//! says what the host observed. What is to be told to the operator comes back as
//! [`Notice`]s.
//!
//! - [`verify_binary`] begins a [`Verification`]: does a binary exist at a path,
//!   does it run, and which version does it report?
//! - [`reconcile`] begins a [`Reconciliation`]: create, keep, replace or repair
//!   the link.
//! - [`should_replace`] opens a [`Consultation`]: replace a link that runs
//!   another version?
//! - [`collect`] begins a [`Collection`]: which of many candidates verify?

pub mod collector;
pub mod error;
pub mod host;
pub mod notice;
pub mod policy;
pub mod reconciler;
pub mod text;
pub mod verification;

pub use collector::{collect, display_name, Collection};
pub use error::ExecutableVerificationError;
pub use host::{RawOutput, Request, Response};
pub use notice::{Notice, Tone};
pub use policy::{classify, decide, should_replace, Consultation};
pub use reconciler::{reconcile, Reconciliation};
pub use text::{trim, whitespace};
pub use verification::{judge, verify_binary, version_of, ExecutableBin, Verification};
