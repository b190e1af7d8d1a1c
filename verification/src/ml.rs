//! Multi-feature weighted ensemble over five genre classes.

pub mod class;
pub mod details;
pub mod ensemble;
pub mod error;
pub mod feature;
pub mod fixed;
pub mod frames;

pub use class::{Class, CustomError};
pub use ensemble::{
    format_distribution, AdapterOutcome, FeatureClassificationResult, SongClassificationResult,
};
pub use error::ClassificationError;
pub use feature::{get_cmodule_path, signal_file, Feature, FeatureDetail};
pub use frames::{average, FrameDistribution};
