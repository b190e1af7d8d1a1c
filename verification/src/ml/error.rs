//! Failures of a classification request.

use vstd::prelude::*;
use vstd::string::*;

verus! {

/// Why a track could not be classified. Any one of these aborts the whole
/// request: no partial result is ever produced.
#[derive(Debug, Clone, Copy, PartialEq, Eq, Structural)]
pub enum ClassificationError {
    /// The tensor of a feature could not be located or read.
    FeatureDataUnavailable,
    /// No model is loaded for a feature.
    ModelUnavailable,
    /// A feature came with no frames at all.
    EmptyFrameSet,
    /// The trust weights of the combined features add up to nothing.
    AggregationError,
}

impl ClassificationError {
    /// The name of the failure.
    pub open spec fn text(self) -> Seq<char> {
        match self {
            ClassificationError::FeatureDataUnavailable => "FeatureDataUnavailable"@,
            ClassificationError::ModelUnavailable => "ModelUnavailable"@,
            ClassificationError::EmptyFrameSet => "EmptyFrameSet"@,
            ClassificationError::AggregationError => "AggregationError"@,
        }
    }

    /// The name of the failure.
    pub fn to_string(&self) -> (s: String)
        ensures
            s@ == self.text(),
    {
        let text = match self {
            ClassificationError::FeatureDataUnavailable => "FeatureDataUnavailable",
            ClassificationError::ModelUnavailable => "ModelUnavailable",
            ClassificationError::EmptyFrameSet => "EmptyFrameSet",
            ClassificationError::AggregationError => "AggregationError",
        };
        String::from_str(text)
    }
}

} // verus!
