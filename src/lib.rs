//! Build-time pipeline that locates the engine executable, has it dump its
//! extension API (JSON) or its C interface header, patches that header and
//! hands it to the binding translator.
//!
//! Everything that touches the outside world (environment, processes, files)
//! is requested by the verified state machine in [`pipeline`]; a driver
//! performs each requested operation and feeds the outcome back.

mod text;
pub mod error;
pub mod trigger;
pub mod paths;
pub mod locate;
pub mod process;
pub mod version;
pub mod patch;
pub mod pipeline;

pub use error::BuildError;
pub use pipeline::{load_gdextension_header_rs, load_gdextension_json};
