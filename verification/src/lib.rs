//! Verified core of a runtime loader for the TDLib JSON C interface.
//!
//! The crate holds the decisions of the loader: which library path a process may bind,
//! when a new owner of the process-global JSON interface may be created, when a request
//! may be handed to C, and how a `getOption` response is read back.

pub mod error;
pub mod identity;
pub mod laws;
pub mod library_path;
pub mod option_response;
pub mod owner;
pub mod process;

pub use error::TdJsonError;
pub use identity::TdLibBuildIdentity;
pub use library_path::LibraryPath;
pub use option_response::string_option_from_response;
pub use owner::{check_request, execute_response, OwnerState};
pub use process::{check_library_path, LoadPlan, ProcessBinding};
