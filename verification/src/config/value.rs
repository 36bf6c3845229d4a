//! A structured configuration value: the already-deserialized tree a
//! module's configuration section is handed through.

use vstd::prelude::*;

verus! {

/// An opaque structured configuration value, as a tree of plain values.
///
/// The crate never interprets a module's configuration; it only carries
/// the tree from the configuration file to the module that declared it.
#[derive(Debug)]
pub enum ConfigValue {
    Boolean(bool),
    Integer(i64),
    Text(String),
    Array(Vec<ConfigValue>),
    Table(Vec<(String, ConfigValue)>),
}

} // verus!
