//! Live state of the host: the native libraries opened so far and the
//! module interfaces constructed from them.

pub mod library;
