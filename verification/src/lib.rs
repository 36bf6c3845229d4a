//! Configuration, validation and module-loading core for a plugin-hosting
//! server.
//!
//! The crate models the host's configuration (global settings, hosts with
//! their listen bindings, module descriptors), checks it with a composable
//! validator framework that records diagnostics at ordered severities, and
//! keeps a memoized set of loaded native libraries so that each library path
//! is opened at most once.
//!
//! - [`error`] holds the failure kinds, the severity scale and the
//!   timestamped diagnostic records;
//! - [`diagnostics`] holds the logging sink, the identity of configuration
//!   entries, and the validator framework with its uniqueness check;
//! - [`config`] holds the configuration data model and its validators;
//! - [`loaded`] holds the memoized set of opened libraries and registered
//!   module interfaces;
//! - [`version`] holds semantic versions and the compatibility requirement;
//! - [`text`] holds the string helpers the rest of the crate shares.
//!
//! Every validator states both the outcome it returns and the records it
//! logs; what the machine decides — the filesystem, a module library — is
//! handed in as an observation, and validation is verified for every value
//! of it.

use vstd::prelude::*;

pub mod config;
pub mod diagnostics;
pub mod error;
pub mod loaded;
pub mod text;
pub mod version;

verus! {

} // verus!
