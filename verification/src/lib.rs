//! Resource-lifecycle and capability-resolution rules for a dynamically
//! loaded native audio API: error polling, version validation, extension
//! caching, device opening, context attribute lists, the reentrant pause
//! count and the parsing of enumeration string tables.
//!
//! Every function takes and returns plain values. The caller performs the
//! native calls and hands their results in; what is decided from them is
//! stated in each function's contract.

pub mod alto;
pub mod attrs;
pub mod consts;
pub mod device;
pub mod error;
pub mod ext;
pub mod frame;
pub mod hrtf;
pub mod pause;
pub mod table;
