//! Data model and decision logic of the TestMyCode language tooling: the
//! responses of tmc-server, the `no-tests` language plugin, and the
//! parameter errors of the utility crate.

mod text;
pub mod decimal;
pub mod feedback;
pub mod response;
pub mod notests;
pub mod error;
