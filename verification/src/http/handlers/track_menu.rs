//! The menu of one track: its classification and what is shown about each
//! feature.

use vstd::prelude::*;

use crate::ml::ensemble::{format_distribution, is_percent_text_of, SongClassificationResult};
use crate::ml::feature::FeatureDetail;

verus! {

/// What the menu of a track shows.
#[derive(Debug)]
pub struct TrackMenu {
    pub song_classification_result: SongClassificationResult,
    pub upload_name: String,
    pub cum_class: Vec<String>,
    pub features: Vec<FeatureDetail>,
}

/// The menu of the track `upload_name` from its classification: the
/// cumulative distribution as percentages, and the detail record of the
/// feature of each per-feature result.
pub fn track_menu(upload_name: String, song_classification_result: SongClassificationResult) -> (menu:
    TrackMenu)
    ensures
        menu.upload_name == upload_name,
        menu.song_classification_result == song_classification_result,
        is_percent_text_of(menu.cum_class@, song_classification_result.cum_classification),
        menu.features@.len() == song_classification_result.feature_classification_result@.len(),
        forall|i: int|
            0 <= i < menu.features@.len() ==> (#[trigger] menu.features@[i]).describes(
                song_classification_result.feature_classification_result@[i].feature,
            ),
{
    let cum_class = format_distribution(&song_classification_result.cum_classification);
    let features = song_classification_result.get_features_formatted_for_path();
    TrackMenu { upload_name, song_classification_result, cum_class, features }
}

} // verus!
