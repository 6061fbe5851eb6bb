//! Converting a `.docx` document to `.pdf` with an office suite run headless.
//!
//! The library holds everything about a conversion that can be decided
//! without touching the file system or starting a process: which paths are
//! involved ([`Plan`]), in what order the surroundings are consulted and
//! changed, and which failure each answer leads to ([`Conversion`]). The
//! caller performs each [`Action`] and reports back with an [`Event`].
//! [`rehearse`] goes through a conversion against recorded answers
//! ([`Surroundings`]) instead.

pub mod conversion;
pub mod error;
pub mod model;
pub mod paths;
pub mod plan;

pub use conversion::{Action, Conversion, Event, Stage};
pub use error::ConversionError;
pub use model::{rehearse, Surroundings};
pub use plan::Plan;
