use back::ml::ensemble::{
    copy_frames, format_distribution, AdapterOutcome, FeatureClassificationResult,
    SongClassificationResult,
};
use back::ml::{average, Class, ClassificationError, Feature, FrameDistribution};

fn result_with(feature: Feature, weight: u32, avg: FrameDistribution) -> FeatureClassificationResult {
    let mut weighted: FrameDistribution = [0; 5];
    for c in 0..5 {
        weighted[c] = ((avg[c] as u64) * (weight as u64) / 1_000_000) as u32;
    }
    FeatureClassificationResult {
        feature,
        feature_weight: weight,
        avg_classification: avg,
        weighted_avg_classification: weighted,
        avg_classification_string: format_distribution(&avg),
        weighted_avg_classification_string: format_distribution(&weighted),
        per_frame_classifications: vec![avg],
    }
}

fn nine_outcomes(frame: FrameDistribution) -> [AdapterOutcome; 9] {
    [
        Ok(vec![frame]),
        Ok(vec![frame]),
        Ok(vec![frame]),
        Ok(vec![frame]),
        Ok(vec![frame]),
        Ok(vec![frame]),
        Ok(vec![frame]),
        Ok(vec![frame]),
        Ok(vec![frame]),
    ]
}

#[test]
fn average_of_no_frames_is_an_error() {
    let frames: Vec<FrameDistribution> = Vec::new();
    assert_eq!(average(&frames), Err(ClassificationError::EmptyFrameSet));
}

#[test]
fn feature_result_of_no_frames_is_an_error() {
    let r = FeatureClassificationResult::new(&Feature::Ft, Vec::new());
    assert!(matches!(r, Err(ClassificationError::EmptyFrameSet)));
}

#[test]
fn average_is_the_elementwise_mean() {
    let frames: Vec<FrameDistribution> = vec![
        [100_000, 200_000, 300_000, 400_000, 0],
        [300_000, 200_000, 100_000, 0, 400_000],
        [200_000, 200_000, 0, 0, 600_000],
    ];
    assert_eq!(average(&frames), Ok([200_000, 200_000, 133_333, 133_333, 333_333]));
}

#[test]
fn average_rounds_down() {
    let frames: Vec<FrameDistribution> = vec![[1, 0, 3, 5, 7], [0, 0, 0, 0, 0]];
    assert_eq!(average(&frames), Ok([0, 0, 1, 2, 3]));
}

#[test]
fn average_has_five_components() {
    let frames: Vec<FrameDistribution> = vec![[1, 2, 3, 4, 5]];
    assert_eq!(average(&frames).unwrap().len(), 5);
}

#[test]
fn average_of_equal_frames_is_the_frame() {
    let d: FrameDistribution = [123_456, 654_321, 7, 0, 222_216];
    for n in 1..=64 {
        let frames: Vec<FrameDistribution> = vec![d; n];
        assert_eq!(average(&frames), Ok(d));
    }
}

#[test]
fn average_takes_the_largest_values() {
    let frames: Vec<FrameDistribution> = vec![[u32::MAX; 5]; 1000];
    assert_eq!(average(&frames), Ok([u32::MAX; 5]));
}

#[test]
fn copy_frames_keeps_the_order() {
    let frames: Vec<FrameDistribution> = vec![[1, 2, 3, 4, 5], [5, 4, 3, 2, 1]];
    assert_eq!(copy_frames(&frames), frames);
}

#[test]
fn feature_result_holds_mean_weight_and_texts() {
    let frames: Vec<FrameDistribution> = vec![
        [100_000, 600_000, 100_000, 100_000, 100_000],
        [300_000, 200_000, 100_000, 300_000, 100_000],
    ];
    let r = FeatureClassificationResult::new(&Feature::Ft, frames.clone()).unwrap();
    assert_eq!(r.feature, Feature::Ft);
    assert_eq!(r.feature_weight, 760_000);
    assert_eq!(r.avg_classification, [200_000, 400_000, 100_000, 200_000, 100_000]);
    assert_eq!(r.weighted_avg_classification, [152_000, 304_000, 76_000, 152_000, 76_000]);
    assert_eq!(r.avg_classification_string, vec!["20.00%", "40.00%", "10.00%", "20.00%", "10.00%"]);
    assert_eq!(
        r.weighted_avg_classification_string,
        vec!["15.20%", "30.40%", "7.60%", "15.20%", "7.60%"]
    );
    assert_eq!(r.per_frame_classifications, frames);
}

#[test]
fn feature_result_keeps_the_frame_order() {
    let frames: Vec<FrameDistribution> =
        vec![[1, 0, 0, 0, 0], [0, 2, 0, 0, 0], [0, 0, 3, 0, 0], [0, 0, 0, 4, 0]];
    let r = FeatureClassificationResult::new(&Feature::Tonnetz, frames).unwrap();
    assert_eq!(r.per_frame_classifications.len(), 4);
    assert_eq!(r.per_frame_classifications[0], [1, 0, 0, 0, 0]);
    assert_eq!(r.per_frame_classifications[3], [0, 0, 0, 4, 0]);
}

#[test]
fn weighted_average_rounds_down() {
    let r = FeatureClassificationResult::new(&Feature::Tonnetz, vec![[1, 2, 3, 999_999, 5]])
        .unwrap();
    assert_eq!(r.feature_weight, 420_000);
    assert_eq!(r.weighted_avg_classification, [0, 0, 1, 419_999, 2]);
}

#[test]
fn classification_ft() {
    let r = FeatureClassificationResult::new(&Feature::Ft, vec![[200_000; 5]; 3]).unwrap();
    assert_eq!(r.feature, Feature::Ft);
    assert_eq!(r.avg_classification.len(), 5 as usize);
    assert_eq!(r.weighted_avg_classification.len(), 5 as usize);
}

#[test]
fn classification_mfcc() {
    let r = FeatureClassificationResult::new(&Feature::Mfcc, vec![[200_000; 5]; 3]).unwrap();
    assert_eq!(r.avg_classification.len(), 5 as usize);
}

#[test]
fn classification_tonnetz() {
    let r = FeatureClassificationResult::new(&Feature::Tonnetz, vec![[200_000; 5]; 3]).unwrap();
    assert_eq!(r.avg_classification.len(), 5 as usize);
}

#[test]
fn classification_chroma_cens_spectrogram() {
    let r = FeatureClassificationResult::new(&Feature::ChromaCens, vec![[200_000; 5]; 3]).unwrap();
    assert_eq!(r.avg_classification.len(), 5 as usize);
}

#[test]
fn classification_chroma_stft_spectrogram() {
    let r = FeatureClassificationResult::new(&Feature::ChromaStft, vec![[200_000; 5]; 3]).unwrap();
    assert_eq!(r.avg_classification.len(), 5 as usize);
}

#[test]
fn classification_chroma_cqt_spectrogram() {
    let r = FeatureClassificationResult::new(&Feature::ChromaCqt, vec![[200_000; 5]; 3]).unwrap();
    assert_eq!(r.avg_classification.len(), 5 as usize);
}

#[test]
fn classification_spectrogram() {
    let r = FeatureClassificationResult::new(&Feature::Spectrogram, vec![[200_000; 5]; 3]).unwrap();
    assert_eq!(r.avg_classification.len(), 5 as usize);
}

#[test]
fn classification_mel_spectrogram() {
    let r =
        FeatureClassificationResult::new(&Feature::MelSpectrogram, vec![[200_000; 5]; 3]).unwrap();
    assert_eq!(r.avg_classification.len(), 5 as usize);
}

#[test]
fn classification_power_spectrogram() {
    let r = FeatureClassificationResult::new(&Feature::PowerSpectrogram, vec![[200_000; 5]; 3])
        .unwrap();
    assert_eq!(r.avg_classification.len(), 5 as usize);
}

#[test]
fn two_feature_reduction() {
    let results = vec![
        result_with(Feature::Ft, 760_000, [100_000, 600_000, 100_000, 100_000, 100_000]),
        result_with(Feature::Mfcc, 690_000, [0, 0, 900_000, 50_000, 50_000]),
    ];
    let cum = SongClassificationResult::get_cum_classification(&results).unwrap();
    assert_eq!(cum, [52_413, 314_482, 480_689, 76_206, 76_206]);
    let expected: [f64; 5] = [0.0524, 0.3145, 0.4807, 0.0762, 0.0762];
    let mut sum: f64 = 0.0;
    for c in 0..5 {
        let value = cum[c] as f64 / 1_000_000.0;
        assert!((value - expected[c]).abs() < 1e-4);
        sum += value;
    }
    assert!((sum - 1.0).abs() < 1e-3);
    let class = SongClassificationResult::get_major_class(&cum).unwrap();
    assert_eq!(class, Class::Electronic);
    assert_eq!(class.ordinal(), 2);
}

#[test]
fn tie_goes_to_the_higher_index() {
    let results = vec![
        result_with(Feature::Ft, 500_000, [0, 500_000, 0, 500_000, 0]),
        result_with(Feature::Mfcc, 500_000, [0, 500_000, 0, 500_000, 0]),
    ];
    let cum = SongClassificationResult::get_cum_classification(&results).unwrap();
    assert_eq!(cum, [0, 500_000, 0, 500_000, 0]);
    let class = SongClassificationResult::get_major_class(&cum).unwrap();
    assert_eq!(class, Class::Pop);
    assert_eq!(class.ordinal(), 3);
}

#[test]
fn cumulative_has_five_components() {
    let results = vec![result_with(Feature::Ft, 760_000, [1, 2, 3, 4, 5])];
    let cum = SongClassificationResult::get_cum_classification(&results).unwrap();
    assert_eq!(cum.len(), 5);
}

#[test]
fn cumulative_lies_between_the_extreme_averages() {
    let averages: [FrameDistribution; 3] = [
        [100_000, 600_000, 100_000, 100_000, 100_000],
        [0, 0, 900_000, 50_000, 50_000],
        [333_333, 1, 333_333, 333_332, 1],
    ];
    let results = vec![
        result_with(Feature::Ft, 760_000, averages[0]),
        result_with(Feature::Mfcc, 690_000, averages[1]),
        result_with(Feature::Tonnetz, 420_000, averages[2]),
    ];
    let cum = SongClassificationResult::get_cum_classification(&results).unwrap();
    for c in 0..5 {
        let lowest = averages.iter().map(|a| a[c]).min().unwrap();
        let highest = averages.iter().map(|a| a[c]).max().unwrap();
        assert!(lowest <= cum[c] && cum[c] <= highest);
    }
}

#[test]
fn cumulative_of_one_feature_is_its_average() {
    let avg: FrameDistribution = [7, 999_999, 0, 500_000, 4_294_967_295];
    let results = vec![result_with(Feature::Ft, 1, avg)];
    assert_eq!(SongClassificationResult::get_cum_classification(&results), Ok(avg));
}

#[test]
fn cumulative_takes_the_largest_values() {
    let results = vec![
        result_with(Feature::Ft, u32::MAX, [u32::MAX; 5]),
        result_with(Feature::Mfcc, u32::MAX, [u32::MAX; 5]),
    ];
    assert_eq!(SongClassificationResult::get_cum_classification(&results), Ok([u32::MAX; 5]));
}

#[test]
fn cumulative_ignores_a_feature_without_weight() {
    let results = vec![
        result_with(Feature::Ft, 0, [900_000, 0, 0, 0, 100_000]),
        result_with(Feature::Mfcc, 250_000, [0, 0, 900_000, 50_000, 50_000]),
    ];
    assert_eq!(
        SongClassificationResult::get_cum_classification(&results),
        Ok([0, 0, 900_000, 50_000, 50_000])
    );
}

#[test]
fn no_weight_at_all_is_an_aggregation_error() {
    let none: Vec<FeatureClassificationResult> = Vec::new();
    assert_eq!(
        SongClassificationResult::get_cum_classification(&none),
        Err(ClassificationError::AggregationError)
    );
    let weightless = vec![
        result_with(Feature::Ft, 0, [900_000, 0, 0, 0, 100_000]),
        result_with(Feature::Mfcc, 0, [0, 0, 900_000, 50_000, 50_000]),
    ];
    assert_eq!(
        SongClassificationResult::get_cum_classification(&weightless),
        Err(ClassificationError::AggregationError)
    );
}

#[test]
fn majority_class_is_the_largest_value() {
    let pick = |cum: [u32; 5]| SongClassificationResult::get_major_class(&cum).unwrap();
    assert_eq!(pick([900_000, 25_000, 25_000, 25_000, 25_000]), Class::Rock);
    assert_eq!(pick([25_000, 900_000, 25_000, 25_000, 25_000]), Class::HipHop);
    assert_eq!(pick([25_000, 25_000, 900_000, 25_000, 25_000]), Class::Electronic);
    assert_eq!(pick([25_000, 25_000, 25_000, 900_000, 25_000]), Class::Pop);
    assert_eq!(pick([25_000, 25_000, 25_000, 25_000, 900_000]), Class::Classical);
}

#[test]
fn majority_class_of_equal_values_is_the_last() {
    let pick = |cum: [u32; 5]| SongClassificationResult::get_major_class(&cum).unwrap();
    assert_eq!(pick([200_000; 5]), Class::Classical);
    assert_eq!(pick([0; 5]), Class::Classical);
    assert_eq!(pick([500_000, 0, 500_000, 0, 0]), Class::Electronic);
    assert_eq!(pick([300_000, 300_000, 300_000, 100_000, 0]), Class::Electronic);
}

#[test]
fn majority_class_of_short_and_long_sequences() {
    assert_eq!(SongClassificationResult::get_major_class(&[]).unwrap(), Class::Rock);
    assert_eq!(SongClassificationResult::get_major_class(&[5, 7]).unwrap(), Class::HipHop);
    assert_eq!(
        SongClassificationResult::get_major_class(&[9, 1, 1, 1, 1, 8]).unwrap(),
        Class::Rock
    );
    let e = SongClassificationResult::get_major_class(&[1, 1, 1, 1, 1, 8]).unwrap_err();
    assert_eq!(e.0, "Classification unsuccesfull, wrong major class calculation");
}

#[test]
fn song_result_combines_nine_features() {
    let mut outcomes = nine_outcomes([0, 0, 0, 0, 1_000_000]);
    outcomes[0] = Ok(vec![
        [1_000_000, 0, 0, 0, 0],
        [500_000, 500_000, 0, 0, 0],
    ]);
    outcomes[7] = Ok(vec![[0, 1_000_000, 0, 0, 0]]);
    let song = SongClassificationResult::new("track".to_string(), outcomes).unwrap();
    assert_eq!(song.audio_title, "track");
    assert_eq!(song.feature_classification_result.len(), 9);
    let features = Feature::all();
    for i in 0..9 {
        let r = &song.feature_classification_result[i];
        assert_eq!(r.feature, features[i]);
        assert_eq!(r.feature_weight, features[i].weight());
        assert_eq!(r.avg_classification.len(), 5);
    }
    assert_eq!(
        song.feature_classification_result[0].avg_classification,
        [750_000, 250_000, 0, 0, 0]
    );
    assert_eq!(
        song.feature_classification_result[0].weighted_avg_classification,
        [570_000, 190_000, 0, 0, 0]
    );
    assert_eq!(song.feature_classification_result[0].per_frame_classifications.len(), 2);
    assert_eq!(song.feature_classification_result[7].feature, Feature::MelSpectrogram);
    // 0.75 * 0.76 / 5.6, (0.25 * 0.76 + 0.80) / 5.6, (5.6 - 0.76 - 0.80) / 5.6
    assert_eq!(song.cum_classification, [101_785, 176_785, 0, 0, 721_428]);
    assert_eq!(song.major_class, Class::Classical);
}

#[test]
fn song_result_breaks_ties_upwards() {
    let song =
        SongClassificationResult::new("tie".to_string(), nine_outcomes([0, 500_000, 0, 500_000, 0]))
            .unwrap();
    assert_eq!(song.cum_classification, [0, 500_000, 0, 500_000, 0]);
    assert_eq!(song.major_class, Class::Pop);
}

#[test]
fn one_missing_model_fails_the_whole_song() {
    for failing in 0..9 {
        let mut outcomes = nine_outcomes([200_000; 5]);
        outcomes[failing] = Err(ClassificationError::ModelUnavailable);
        let r = SongClassificationResult::new("track".to_string(), outcomes);
        assert!(matches!(r, Err(ClassificationError::ModelUnavailable)));
    }
}

#[test]
fn missing_feature_data_fails_the_whole_song() {
    let mut outcomes = nine_outcomes([200_000; 5]);
    outcomes[4] = Err(ClassificationError::FeatureDataUnavailable);
    let r = SongClassificationResult::new("track".to_string(), outcomes);
    assert!(matches!(r, Err(ClassificationError::FeatureDataUnavailable)));
}

#[test]
fn one_empty_frame_set_fails_the_whole_song() {
    let mut outcomes = nine_outcomes([200_000; 5]);
    outcomes[8] = Ok(Vec::new());
    let r = SongClassificationResult::new("track".to_string(), outcomes);
    assert!(matches!(r, Err(ClassificationError::EmptyFrameSet)));
}

#[test]
fn the_first_failure_in_catalog_order_is_reported() {
    let mut outcomes = nine_outcomes([200_000; 5]);
    outcomes[2] = Ok(Vec::new());
    outcomes[3] = Err(ClassificationError::ModelUnavailable);
    outcomes[6] = Err(ClassificationError::FeatureDataUnavailable);
    let r = SongClassificationResult::new("track".to_string(), outcomes);
    assert!(matches!(r, Err(ClassificationError::EmptyFrameSet)));
    let mut outcomes = nine_outcomes([200_000; 5]);
    outcomes[5] = Err(ClassificationError::AggregationError);
    outcomes[6] = Err(ClassificationError::FeatureDataUnavailable);
    let r = SongClassificationResult::new("track".to_string(), outcomes);
    assert!(matches!(r, Err(ClassificationError::AggregationError)));
}

#[test]
fn feature_details_follow_the_results() {
    let song =
        SongClassificationResult::new("track".to_string(), nine_outcomes([200_000; 5])).unwrap();
    let details = song.get_features_formatted_for_path();
    assert_eq!(details.len(), 9);
    let folders: Vec<&str> = details.iter().map(|d| d.folder.as_str()).collect();
    assert_eq!(
        folders,
        vec!["ft", "mfcc", "tonnetz", "cens", "cqt", "stft", "spectr", "mel_spectr", "power_spectr"]
    );
    assert_eq!(details[1].name, "MFCC (Mel Frequency Ceptsral Coefficients)");
    assert!(details[2].short_desc.contains("<h2>Tonnetz (Tonal Centroid Features)</h2>"));
}

#[test]
fn distribution_texts_are_percentages() {
    assert_eq!(
        format_distribution(&[52_413, 314_482, 480_689, 76_206, 1_000_000]),
        vec!["5.24%", "31.45%", "48.07%", "7.62%", "100.00%"]
    );
}

#[test]
fn classification_works_for_song() {
    let song_classification =
        SongClassificationResult::new("song.mp3".to_string(), nine_outcomes([200_000; 5])).unwrap();
    assert_eq!(song_classification.cum_classification, [200_000; 5]);
    assert_eq!(song_classification.major_class, Class::Classical);
    for x in song_classification.feature_classification_result {
        assert_eq!(x.avg_classification, [200_000; 5]);
        assert_eq!(x.feature_weight, x.feature.weight());
        for c in 0..5 {
            let weighted = 200_000u64 * x.feature_weight as u64 / 1_000_000;
            assert_eq!(x.weighted_avg_classification[c] as u64, weighted);
        }
    }

    assert!(true);
}
