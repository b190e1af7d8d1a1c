//! The feature catalog: the fixed set of acoustic features, their trust
//! weights, storage keys and display texts.

use vstd::prelude::*;
use vstd::string::*;

use crate::ml::details::{
    CHROMA_CENS_DETAILS, CHROMA_CQT_DETAILS, CHROMA_STFT_DETAILS, FT_DETAILS,
    MEL_SPECTROGRAM_DETAILS, MFCC_DETAILS, POWER_SPECTROGRAM_DETAILS, SPECTROGRAM_DETAILS,
    TONNETZ_DETAILS,
};
use crate::ml::fixed::ONE;

verus! {

/// An acoustic feature representation with a classifier of its own.
#[derive(Debug, Clone, Copy, PartialEq, Eq, Hash, Structural)]
pub enum Feature {
    Ft,
    Mfcc,
    ChromaCens,
    ChromaCqt,
    ChromaStft,
    Spectrogram,
    PowerSpectrogram,
    MelSpectrogram,
    Tonnetz,
}

impl Feature {
    /// The catalog: every feature once, in the canonical iteration order.
    pub open spec fn catalog() -> Seq<Feature> {
        seq![
            Feature::Ft,
            Feature::Mfcc,
            Feature::Tonnetz,
            Feature::ChromaCens,
            Feature::ChromaCqt,
            Feature::ChromaStft,
            Feature::Spectrogram,
            Feature::MelSpectrogram,
            Feature::PowerSpectrogram,
        ]
    }

    /// Position of the feature in the catalog.
    pub open spec fn rank(self) -> int {
        match self {
            Feature::Ft => 0,
            Feature::Mfcc => 1,
            Feature::Tonnetz => 2,
            Feature::ChromaCens => 3,
            Feature::ChromaCqt => 4,
            Feature::ChromaStft => 5,
            Feature::Spectrogram => 6,
            Feature::MelSpectrogram => 7,
            Feature::PowerSpectrogram => 8,
        }
    }

    /// Trust weight of the feature in millionths: a fixed constant, never
    /// derived from data.
    pub open spec fn trust_weight(self) -> nat {
        match self {
            Feature::Ft => 760_000,
            Feature::Spectrogram => 750_000,
            Feature::MelSpectrogram => 800_000,
            Feature::PowerSpectrogram => 770_000,
            Feature::Mfcc => 690_000,
            Feature::ChromaStft => 450_000,
            Feature::ChromaCqt => 490_000,
            Feature::ChromaCens => 470_000,
            Feature::Tonnetz => 420_000,
        }
    }

    /// Text under which the feature is shown.
    pub open spec fn display_text(self) -> Seq<char> {
        match self {
            Feature::ChromaCens => "Chroma (CENS)"@,
            Feature::Ft => "Fourier Transform"@,
            Feature::Mfcc => "Mel Frequency Cepstral Coefficients (MFCC)"@,
            Feature::ChromaCqt => "Chroma (CQT)"@,
            Feature::ChromaStft => "Chroma (STFT)"@,
            Feature::Spectrogram => "Spectrogram"@,
            Feature::PowerSpectrogram => "Power Spectrogram"@,
            Feature::MelSpectrogram => "Mel Spectrogram"@,
            Feature::Tonnetz => "Tonnetz"@,
        }
    }

    /// Path of the serialized model that classifies the feature.
    pub open spec fn model_path(self) -> Seq<char> {
        match self {
            Feature::ChromaCens => "util/chroma_cens.pt"@,
            Feature::ChromaCqt => "util/chroma_cqt.pt"@,
            Feature::ChromaStft => "util/chroma_stft.pt"@,
            Feature::Ft => "util/ft_model.pt"@,
            Feature::Spectrogram => "util/mel_spectrogram_model.pt"@,
            Feature::MelSpectrogram => "util/mel_spectrogram_model.pt"@,
            Feature::PowerSpectrogram => "util/power_spectrogram_model.pt"@,
            Feature::Mfcc => "util/mfcc.pt"@,
            Feature::Tonnetz => "util/tonnetz.pt"@,
        }
    }

    /// Location of the feature's tensor below the directory of one track.
    pub open spec fn signal_file(self) -> Seq<char> {
        match self {
            Feature::Tonnetz => "tonnetz/tonnetz.npy"@,
            Feature::ChromaCens => "chroma_cens/chroma_cens.npy"@,
            Feature::ChromaCqt => "chroma_cqt/chroma_cqt.npy"@,
            Feature::ChromaStft => "chroma_stft/chroma_stft.npy"@,
            Feature::Ft => "ft/ft.npy"@,
            Feature::MelSpectrogram => "mel_spectr/mel_spectr.npy"@,
            Feature::PowerSpectrogram => "power_spectr/power_spectr.npy"@,
            Feature::Spectrogram => "spectr/spectr.npy"@,
            Feature::Mfcc => "mfcc/mfcc.npy"@,
        }
    }

    /// All features in catalog order.
    pub fn all() -> (features: [Feature; 9])
        ensures
            features@ == Feature::catalog(),
            forall|i: int| 0 <= i < 9 ==> (#[trigger] features[i]).rank() == i,
    {
        let features = [
            Feature::Ft,
            Feature::Mfcc,
            Feature::Tonnetz,
            Feature::ChromaCens,
            Feature::ChromaCqt,
            Feature::ChromaStft,
            Feature::Spectrogram,
            Feature::MelSpectrogram,
            Feature::PowerSpectrogram,
        ];
        assert(features@ =~= Feature::catalog());
        features
    }

    /// Trust weight of the feature in millionths.
    pub fn weight(&self) -> (w: u32)
        ensures
            w == self.trust_weight(),
            0 < w <= ONE,
    {
        match self {
            Feature::Ft => 760_000,
            Feature::Spectrogram => 750_000,
            Feature::MelSpectrogram => 800_000,
            Feature::PowerSpectrogram => 770_000,
            Feature::Mfcc => 690_000,
            Feature::ChromaStft => 450_000,
            Feature::ChromaCqt => 490_000,
            Feature::ChromaCens => 470_000,
            Feature::Tonnetz => 420_000,
        }
    }

    /// Text under which the feature is shown.
    pub fn to_string(&self) -> (s: String)
        ensures
            s@ == self.display_text(),
    {
        let text = match self {
            Feature::ChromaCens => "Chroma (CENS)",
            Feature::Ft => "Fourier Transform",
            Feature::Mfcc => "Mel Frequency Cepstral Coefficients (MFCC)",
            Feature::ChromaCqt => "Chroma (CQT)",
            Feature::ChromaStft => "Chroma (STFT)",
            Feature::Spectrogram => "Spectrogram",
            Feature::PowerSpectrogram => "Power Spectrogram",
            Feature::MelSpectrogram => "Mel Spectrogram",
            Feature::Tonnetz => "Tonnetz",
        };
        String::from_str(text)
    }
}

/// Every feature stands in the catalog, at the place that `rank` names, and
/// nowhere else: the catalog holds each of the nine features exactly once.
pub proof fn lemma_catalog_complete(feature: Feature)
    ensures
        Feature::catalog().len() == 9,
        0 <= feature.rank() < 9,
        Feature::catalog()[feature.rank()] == feature,
        forall|i: int| 0 <= i < 9 && Feature::catalog()[i] == feature ==> i == feature.rank(),
{
}

/// The sum of the trust weights of the features.
pub open spec fn weight_sum(features: Seq<Feature>) -> nat
    decreases features.len(),
{
    if features.len() == 0 {
        0
    } else {
        weight_sum(features.drop_last()) + features.last().trust_weight()
    }
}

/// The trust weights of the catalog add up to 5.6: a known constant, and
/// never zero.
pub proof fn lemma_catalog_weight()
    ensures
        weight_sum(Feature::catalog()) == 5_600_000,
{
    let c = Feature::catalog();
    let c8 = c.drop_last();
    let c7 = c8.drop_last();
    let c6 = c7.drop_last();
    let c5 = c6.drop_last();
    let c4 = c5.drop_last();
    let c3 = c4.drop_last();
    let c2 = c3.drop_last();
    let c1 = c2.drop_last();
    let c0 = c1.drop_last();
    assert(weight_sum(c0) == 0);
    assert(weight_sum(c1) == 760_000);
    assert(weight_sum(c2) == 1_450_000);
    assert(weight_sum(c3) == 1_870_000);
    assert(weight_sum(c4) == 2_340_000);
    assert(weight_sum(c5) == 2_830_000);
    assert(weight_sum(c6) == 3_280_000);
    assert(weight_sum(c7) == 4_030_000);
    assert(weight_sum(c8) == 4_830_000);
}

/// What the presentation layer shows about one feature.
#[derive(Debug)]
pub struct FeatureDetail {
    pub folder: String,
    pub name: String,
    pub short_desc: String,
}

impl FeatureDetail {
    /// Storage key of the feature: the folder that holds its artifacts.
    pub open spec fn folder_text(feature: Feature) -> Seq<char> {
        match feature {
            Feature::Ft => "ft"@,
            Feature::Mfcc => "mfcc"@,
            Feature::ChromaCens => "cens"@,
            Feature::ChromaCqt => "cqt"@,
            Feature::ChromaStft => "stft"@,
            Feature::Spectrogram => "spectr"@,
            Feature::MelSpectrogram => "mel_spectr"@,
            Feature::PowerSpectrogram => "power_spectr"@,
            Feature::Tonnetz => "tonnetz"@,
        }
    }

    /// Display name of the feature.
    pub open spec fn name_text(feature: Feature) -> Seq<char> {
        match feature {
            Feature::Ft => "Short time fourier transform"@,
            Feature::Mfcc => "MFCC (Mel Frequency Ceptsral Coefficients)"@,
            Feature::ChromaCens => "Chroma (CENS)"@,
            Feature::ChromaCqt => "Chroma (CQT)"@,
            Feature::ChromaStft => "CHROMA (STFT)"@,
            Feature::Spectrogram => "Spectrogram"@,
            Feature::MelSpectrogram => "Mel Spectrogram"@,
            Feature::PowerSpectrogram => "Power Spectrogram"@,
            Feature::Tonnetz => "Tonnetz"@,
        }
    }

    /// Explanatory HTML fragment of the feature.
    pub open spec fn details_text(feature: Feature) -> Seq<char> {
        match feature {
            Feature::Ft => FT_DETAILS@,
            Feature::ChromaCens => CHROMA_CENS_DETAILS@,
            Feature::Mfcc => MFCC_DETAILS@,
            Feature::ChromaCqt => CHROMA_CQT_DETAILS@,
            Feature::ChromaStft => CHROMA_STFT_DETAILS@,
            Feature::Spectrogram => SPECTROGRAM_DETAILS@,
            Feature::PowerSpectrogram => POWER_SPECTROGRAM_DETAILS@,
            Feature::MelSpectrogram => MEL_SPECTROGRAM_DETAILS@,
            Feature::Tonnetz => TONNETZ_DETAILS@,
        }
    }

    /// The detail record of `feature`.
    pub open spec fn describes(&self, feature: Feature) -> bool {
        &&& self.folder@ == Self::folder_text(feature)
        &&& self.name@ == Self::name_text(feature)
        &&& self.short_desc@ == Self::details_text(feature)
    }

    /// Storage key of the feature: the folder that holds its artifacts.
    pub fn get_folder(feature: &Feature) -> (folder: String)
        ensures
            folder@ == Self::folder_text(*feature),
    {
        let text = match feature {
            Feature::Ft => "ft",
            Feature::Mfcc => "mfcc",
            Feature::ChromaCens => "cens",
            Feature::ChromaCqt => "cqt",
            Feature::ChromaStft => "stft",
            Feature::Spectrogram => "spectr",
            Feature::MelSpectrogram => "mel_spectr",
            Feature::PowerSpectrogram => "power_spectr",
            Feature::Tonnetz => "tonnetz",
        };
        String::from_str(text)
    }

    /// Display name of the feature.
    pub fn get_name(feature: &Feature) -> (name: String)
        ensures
            name@ == Self::name_text(*feature),
    {
        let text = match feature {
            Feature::Ft => "Short time fourier transform",
            Feature::Mfcc => "MFCC (Mel Frequency Ceptsral Coefficients)",
            Feature::ChromaCens => "Chroma (CENS)",
            Feature::ChromaCqt => "Chroma (CQT)",
            Feature::ChromaStft => "CHROMA (STFT)",
            Feature::Spectrogram => "Spectrogram",
            Feature::MelSpectrogram => "Mel Spectrogram",
            Feature::PowerSpectrogram => "Power Spectrogram",
            Feature::Tonnetz => "Tonnetz",
        };
        String::from_str(text)
    }

    /// Explanatory HTML fragment of the feature.
    pub fn provide_details(feature: &Feature) -> (details: String)
        ensures
            details@ == Self::details_text(*feature),
    {
        let text = match feature {
            Feature::Ft => FT_DETAILS,
            Feature::ChromaCens => CHROMA_CENS_DETAILS,
            Feature::Mfcc => MFCC_DETAILS,
            Feature::ChromaCqt => CHROMA_CQT_DETAILS,
            Feature::ChromaStft => CHROMA_STFT_DETAILS,
            Feature::Spectrogram => SPECTROGRAM_DETAILS,
            Feature::PowerSpectrogram => POWER_SPECTROGRAM_DETAILS,
            Feature::MelSpectrogram => MEL_SPECTROGRAM_DETAILS,
            Feature::Tonnetz => TONNETZ_DETAILS,
        };
        String::from_str(text)
    }

    /// The text that stands for the record when it is printed: its
    /// explanatory fragment.
    pub fn to_string(&self) -> (s: String)
        ensures
            s@ == self.short_desc@,
    {
        self.short_desc.clone()
    }
}

/// Path of the serialized model that classifies `feature_type`.
pub fn get_cmodule_path(feature_type: &Feature) -> (path: &'static str)
    ensures
        path@ == feature_type.model_path(),
{
    match feature_type {
        Feature::ChromaCens => "util/chroma_cens.pt",
        Feature::ChromaCqt => "util/chroma_cqt.pt",
        Feature::ChromaStft => "util/chroma_stft.pt",
        Feature::Ft => "util/ft_model.pt",
        Feature::Spectrogram => "util/mel_spectrogram_model.pt",
        Feature::MelSpectrogram => "util/mel_spectrogram_model.pt",
        Feature::PowerSpectrogram => "util/power_spectrogram_model.pt",
        Feature::Mfcc => "util/mfcc.pt",
        Feature::Tonnetz => "util/tonnetz.pt",
    }
}

/// Location of the tensor of `feature_type` below the directory that holds
/// the features of one track.
pub fn signal_file(feature_type: &Feature) -> (file: &'static str)
    ensures
        file@ == feature_type.signal_file(),
{
    match feature_type {
        Feature::Tonnetz => "tonnetz/tonnetz.npy",
        Feature::ChromaCens => "chroma_cens/chroma_cens.npy",
        Feature::ChromaCqt => "chroma_cqt/chroma_cqt.npy",
        Feature::ChromaStft => "chroma_stft/chroma_stft.npy",
        Feature::Ft => "ft/ft.npy",
        Feature::MelSpectrogram => "mel_spectr/mel_spectr.npy",
        Feature::PowerSpectrogram => "power_spectr/power_spectr.npy",
        Feature::Spectrogram => "spectr/spectr.npy",
        Feature::Mfcc => "mfcc/mfcc.npy",
    }
}

} // verus!
