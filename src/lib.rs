//! Print-queue plugin core: the exact command lines handed to the system's
//! print utilities, the paths of staged temporary files, and the decisions
//! taken on what those utilities and the file system report back.

pub mod command;
pub mod settings;
pub mod staging;
