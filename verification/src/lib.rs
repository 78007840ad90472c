//! OpenGraph preview images for prediction-market questions.
//!
//! An image is drawn by two external tools: Typst renders a template into a
//! PNG, and oxipng makes the PNG smaller. This library is everything around
//! them that can be decided without touching the outside world: which files a
//! workspace holds and under which names, what a server's answer means for an
//! avatar, how the tools are started and with which environment, and what each
//! outcome means for the run. Every decision is stated over mathematical
//! values and proved.
//!
//! The library performs no I/O. [`OgImageGenerator::generate`] begins a
//! [`Generation`], a state machine that names the next [`Action`]; the host
//! performs it and reports back with an [`Event`]:
//!
//! ```text
//! let mut run = generator.generate(&data, environment);
//! loop {
//!     match run.action() {
//!         Action::Finish { output } => return Ok(output),
//!         Action::Fail(error) => return Err(error),
//!         action => run = run.advance(perform(action)),
//!     }
//! }
//! ```
//!
//! What holds of every such run is proved in [`guarantees`].

pub mod avatar;
pub mod command;
pub mod data;
pub mod error;
pub mod format;
pub mod generator;
pub mod guarantees;
pub mod json;
pub mod pipeline;
pub mod workspace;

pub use avatar::{AvatarMap, AvatarRole, StatusVerdict};
pub use command::{HostEnvironment, Invocation};
pub use data::{
    OgImageAuthorData, OgImageCommunityData, OgImageData, OgImageDataPoint, OgImageGraphData,
};
pub use error::{DownloadFailure, OgImageError};
pub use format::ImageFormat;
pub use generator::OgImageGenerator;
pub use pipeline::{Action, Event, Generation, Phase, Stage};
pub use workspace::BundledAsset;
