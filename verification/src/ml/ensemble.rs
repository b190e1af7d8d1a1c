//! The weighted ensemble: per-feature results, their trust-weighted
//! combination into one cumulative distribution, and the majority class.

use vstd::prelude::*;

use crate::ml::class::{Class, CustomError, WRONG_MAJOR_CLASS};
use crate::ml::error::ClassificationError;
use crate::ml::feature::{lemma_catalog_weight, weight_sum, Feature, FeatureDetail};
use crate::ml::fixed::{format_percent, percent_text, scale, scaled};
use crate::ml::frames::{average, is_mean_of, FrameDistribution};

verus! {

/// What the classifier adapter of one feature hands over: the per-frame
/// distributions in tensor row order, or the reason why there are none.
pub type AdapterOutcome = Result<Vec<FrameDistribution>, ClassificationError>;

/// The classification of one track by one feature. The index of a frame in
/// `per_frame_classifications` is its frame index.
#[derive(Debug)]
pub struct FeatureClassificationResult {
    pub feature: Feature,
    pub feature_weight: u32,
    pub avg_classification: FrameDistribution,
    pub weighted_avg_classification: FrameDistribution,
    pub avg_classification_string: Vec<String>,
    pub weighted_avg_classification_string: Vec<String>,
    pub per_frame_classifications: Vec<FrameDistribution>,
}

/// The classification of one track by the whole ensemble.
#[derive(Debug)]
pub struct SongClassificationResult {
    pub audio_title: String,
    pub feature_classification_result: Vec<FeatureClassificationResult>,
    pub cum_classification: FrameDistribution,
    pub major_class: Class,
}

/// The components of `d` as percentages, one text per class.
pub open spec fn is_percent_text_of(texts: Seq<String>, d: FrameDistribution) -> bool {
    &&& texts.len() == 5
    &&& forall|c: int| 0 <= c < 5 ==> (#[trigger] texts[c])@ == percent_text(d[c] as nat)
}

/// Each component of `weighted` is that of `d` times `weight`, rounded down.
pub open spec fn is_scaled_by(weighted: FrameDistribution, d: FrameDistribution, weight: u32) -> bool {
    forall|c: int| 0 <= c < 5 ==> #[trigger] weighted[c] == scale(d[c] as nat, weight as nat)
}

/// Sum of the trust weights of the results.
pub open spec fn total_weight(results: Seq<FeatureClassificationResult>) -> nat
    decreases results.len(),
{
    if results.len() == 0 {
        0
    } else {
        total_weight(results.drop_last()) + results.last().feature_weight as nat
    }
}

/// Sum over the results of the average of class `c` times the trust weight.
pub open spec fn weighted_sum(results: Seq<FeatureClassificationResult>, c: int) -> nat
    decreases results.len(),
{
    if results.len() == 0 {
        0
    } else {
        weighted_sum(results.drop_last(), c) + (results.last().avg_classification[c] as nat) * (
        results.last().feature_weight as nat)
    }
}

/// The trust-weighted mean of the averages of class `c`, rounded down.
pub open spec fn cumulative(results: Seq<FeatureClassificationResult>, c: int) -> nat {
    weighted_sum(results, c) / total_weight(results)
}

/// The smallest average of class `c` among the results.
pub open spec fn lowest_average(results: Seq<FeatureClassificationResult>, c: int) -> nat
    decreases results.len(),
{
    if results.len() == 0 {
        0
    } else if results.len() == 1 {
        results.last().avg_classification[c] as nat
    } else {
        let rest = lowest_average(results.drop_last(), c);
        let last = results.last().avg_classification[c] as nat;
        if last < rest {
            last
        } else {
            rest
        }
    }
}

/// The largest average of class `c` among the results.
pub open spec fn highest_average(results: Seq<FeatureClassificationResult>, c: int) -> nat
    decreases results.len(),
{
    if results.len() == 0 {
        0
    } else {
        let rest = highest_average(results.drop_last(), c);
        let last = results.last().avg_classification[c] as nat;
        if last > rest {
            last
        } else {
            rest
        }
    }
}

/// `i` is the place of the largest value of `s`, and the last such place.
pub open spec fn is_last_maximum(s: Seq<u32>, i: int) -> bool {
    &&& 0 <= i < s.len()
    &&& forall|j: int| 0 <= j < s.len() ==> s[j] <= s[i]
    &&& forall|j: int| i < j < s.len() ==> s[j] < s[i]
}

/// The index that the majority scan selects: the last place of the largest
/// value, and 0 where there is no value at all.
pub open spec fn majority_index(s: Seq<u32>) -> int {
    if s.len() == 0 {
        0
    } else {
        choose|i: int| is_last_maximum(s, i)
    }
}

/// The failure that one adapter outcome brings about, if any.
pub open spec fn failure_of(outcome: AdapterOutcome) -> Option<ClassificationError> {
    match outcome {
        Err(e) => Some(e),
        Ok(frames) => if frames@.len() == 0 {
            Some(ClassificationError::EmptyFrameSet)
        } else {
            None
        },
    }
}

/// Every non-empty sequence has a last maximum.
pub proof fn lemma_last_maximum_exists(s: Seq<u32>)
    requires
        s.len() > 0,
    ensures
        is_last_maximum(s, majority_index(s)),
    decreases s.len(),
{
    if s.len() == 1 {
        assert(is_last_maximum(s, 0));
    } else {
        let front = s.drop_last();
        lemma_last_maximum_exists(front);
        let i = majority_index(front);
        assert(forall|j: int| 0 <= j < front.len() ==> front[j] == s[j]);
        if s.last() >= s[i] {
            assert(is_last_maximum(s, s.len() - 1));
        } else {
            assert(is_last_maximum(s, i));
        }
    }
}

/// A sequence has one last maximum only: the majority index.
pub proof fn lemma_majority_index(s: Seq<u32>, i: int)
    requires
        is_last_maximum(s, i),
    ensures
        majority_index(s) == i,
{
    lemma_last_maximum_exists(s);
    let m = majority_index(s);
    if m < i {
        assert(s[i] < s[m]);
    } else if i < m {
        assert(s[m] < s[i]);
    }
}

/// On an exact tie between two places for the largest value, the majority
/// index is the higher of the two.
pub proof fn lemma_tie_goes_to_higher_index(s: Seq<u32>, i: int, j: int)
    requires
        0 <= i < j < s.len(),
        s[i] == s[j],
        forall|k: int| 0 <= k < s.len() && k != i && k != j ==> s[k] < s[i],
    ensures
        majority_index(s) == j,
{
    assert(is_last_maximum(s, j));
    lemma_majority_index(s, j);
}

/// Among several places tied for the largest value, the majority index is
/// never below any of them.
pub proof fn lemma_majority_is_highest_of_tied(s: Seq<u32>, i: int)
    requires
        0 <= i < s.len(),
        forall|k: int| 0 <= k < s.len() ==> s[k] <= s[i],
    ensures
        i <= majority_index(s) < s.len(),
        s[majority_index(s)] == s[i],
{
    lemma_last_maximum_exists(s);
    let m = majority_index(s);
    assert(s[i] <= s[m]);
    if m < i {
        assert(s[i] < s[m]);
    }
}

/// Results that carry the trust weights of `features`, one for one, weigh
/// as much as the features together.
pub proof fn lemma_total_weight_of_features(
    results: Seq<FeatureClassificationResult>,
    features: Seq<Feature>,
)
    requires
        results.len() == features.len(),
        forall|i: int|
            0 <= i < results.len() ==> (#[trigger] results[i]).feature_weight
                == features[i].trust_weight(),
    ensures
        total_weight(results) == weight_sum(features),
    decreases results.len(),
{
    if results.len() > 0 {
        let front = results.drop_last();
        assert(forall|i: int| 0 <= i < front.len() ==> front[i] == results[i]);
        lemma_total_weight_of_features(front, features.drop_last());
    }
}

/// Where every average of class `c` lies between `lo` and `hi`, the weighted
/// sum lies between `lo` and `hi` times the total weight.
pub proof fn lemma_weighted_sum_bounds(
    results: Seq<FeatureClassificationResult>,
    c: int,
    lo: nat,
    hi: nat,
)
    requires
        0 <= c < 5,
        forall|f: int|
            0 <= f < results.len() ==> lo <= (#[trigger] results[f]).avg_classification[c] <= hi,
    ensures
        lo * total_weight(results) <= weighted_sum(results, c) <= hi * total_weight(results),
    decreases results.len(),
{
    if results.len() == 0 {
        assert(lo * 0 == 0 && hi * 0 == 0) by (nonlinear_arith);
    } else {
        let front = results.drop_last();
        assert(forall|f: int| 0 <= f < front.len() ==> front[f] == results[f]);
        lemma_weighted_sum_bounds(front, c, lo, hi);
        let a = results.last().avg_classification[c] as nat;
        let w = results.last().feature_weight as nat;
        let t = total_weight(front);
        assert(lo <= a <= hi);
        assert(lo * (t + w) == lo * t + lo * w && hi * (t + w) == hi * t + hi * w
            && lo * w <= a * w <= hi * w) by (nonlinear_arith)
            requires
                lo <= a <= hi,
        ;
    }
}

/// The lowest and the highest average bound every average.
pub proof fn lemma_average_extremes(results: Seq<FeatureClassificationResult>, c: int, f: int)
    requires
        0 <= c < 5,
        0 <= f < results.len(),
    ensures
        lowest_average(results, c) <= results[f].avg_classification[c] <= highest_average(
            results,
            c,
        ),
    decreases results.len(),
{
    if f < results.len() - 1 {
        lemma_average_extremes(results.drop_last(), c, f);
    }
}

/// The cumulative value of a class lies between the smallest and the largest
/// of the per-feature averages of that class: a weighted mean cannot leave
/// the range of what it averages.
pub proof fn lemma_weighted_mean_bounded(results: Seq<FeatureClassificationResult>, c: int)
    requires
        0 <= c < 5,
        total_weight(results) > 0,
    ensures
        lowest_average(results, c) <= cumulative(results, c) <= highest_average(results, c),
{
    let lo = lowest_average(results, c);
    let hi = highest_average(results, c);
    assert forall|f: int| 0 <= f < results.len() implies lo <= (
    #[trigger] results[f]).avg_classification[c] <= hi by {
        lemma_average_extremes(results, c, f);
    }
    lemma_weighted_sum_bounds(results, c, lo, hi);
    let s = weighted_sum(results, c) as int;
    let t = total_weight(results) as int;
    assert(lo <= s / t <= hi) by (nonlinear_arith)
        requires
            t > 0,
            lo * t <= s <= hi * t,
    ;
}

/// The five components of a distribution as percentages with two decimals.
pub fn format_distribution(d: &FrameDistribution) -> (texts: Vec<String>)
    ensures
        is_percent_text_of(texts@, *d),
{
    let mut texts: Vec<String> = Vec::new();
    let mut c: usize = 0;
    while c < 5
        invariant
            c <= 5,
            texts@.len() == c,
            forall|k: int| 0 <= k < c ==> (#[trigger] texts@[k])@ == percent_text(d[k] as nat),
        decreases 5 - c,
    {
        texts.push(format_percent(d[c]));
        c += 1;
    }
    texts
}

impl FeatureClassificationResult {
    /// The record is the classification of `frames` by `feature`: the mean
    /// of the frames, the mean scaled by the trust weight of the feature,
    /// and both as percentages.
    pub open spec fn summarizes(&self, feature: Feature, frames: Seq<FrameDistribution>) -> bool {
        &&& self.feature == feature
        &&& self.feature_weight == feature.trust_weight()
        &&& self.per_frame_classifications@ == frames
        &&& frames.len() > 0
        &&& is_mean_of(self.avg_classification, frames)
        &&& is_scaled_by(
            self.weighted_avg_classification,
            self.avg_classification,
            self.feature_weight,
        )
        &&& is_percent_text_of(self.avg_classification_string@, self.avg_classification)
        &&& is_percent_text_of(
            self.weighted_avg_classification_string@,
            self.weighted_avg_classification,
        )
    }

    /// Classifies one track by one feature from the frames that the adapter
    /// produced. Fails on an empty frame set.
    pub fn new(feature_type: &Feature, frames: Vec<FrameDistribution>) -> (r: Result<
        FeatureClassificationResult,
        ClassificationError,
    >)
        ensures
            frames@.len() == 0 ==> r == Err::<FeatureClassificationResult, ClassificationError>(
                ClassificationError::EmptyFrameSet,
            ),
            frames@.len() > 0 ==> r is Ok && r->Ok_0.summarizes(*feature_type, frames@),
    {
        let weight: u32 = feature_type.weight();
        let avg_classification: FrameDistribution = match average(&frames) {
            Ok(avg) => avg,
            Err(e) => {
                return Err(e);
            },
        };
        let mut weighted_avg_classification: FrameDistribution = [0; 5];
        let mut c: usize = 0;
        while c < 5
            invariant
                c <= 5,
                weight <= crate::ml::fixed::ONE,
                forall|k: int|
                    0 <= k < c ==> #[trigger] weighted_avg_classification[k] == scale(
                        avg_classification[k] as nat,
                        weight as nat,
                    ),
            decreases 5 - c,
        {
            weighted_avg_classification[c] = scaled(avg_classification[c], weight);
            c += 1;
        }
        let avg_classification_string = format_distribution(&avg_classification);
        let weighted_avg_classification_string = format_distribution(
            &weighted_avg_classification,
        );
        Ok(
            FeatureClassificationResult {
                feature: *feature_type,
                feature_weight: weight,
                avg_classification,
                weighted_avg_classification,
                avg_classification_string,
                weighted_avg_classification_string,
                per_frame_classifications: frames,
            },
        )
    }
}

impl SongClassificationResult {
    /// The record is the classification of the track `song_id` from the nine
    /// adapter outcomes, which stand in catalog order.
    pub open spec fn is_result_of(&self, song_id: Seq<char>, outcomes: Seq<AdapterOutcome>) -> bool {
        &&& self.audio_title@ == song_id
        &&& self.feature_classification_result@.len() == 9
        &&& forall|i: int|
            0 <= i < 9 ==> outcomes[i] is Ok && (
            #[trigger] self.feature_classification_result@[i]).summarizes(
                Feature::catalog()[i],
                outcomes[i]->Ok_0@,
            )
        &&& forall|c: int|
            0 <= c < 5 ==> #[trigger] self.cum_classification[c] == cumulative(
                self.feature_classification_result@,
                c,
            )
        &&& self.major_class == Class::at(majority_index(self.cum_classification@))
        &&& total_weight(self.feature_classification_result@) == 5_600_000
    }

    /// Classifies a track from the outcomes of the nine classifier adapters,
    /// `outcomes[i]` being that of the `i`-th feature of the catalog. The
    /// first outcome, in catalog order, that is a failure or holds no frame
    /// fails the whole request; otherwise every feature is aggregated, the
    /// averages are combined by trust weight, and the majority class is
    /// selected.
    pub fn new(song_id: String, outcomes: [AdapterOutcome; 9]) -> (r: Result<
        SongClassificationResult,
        ClassificationError,
    >)
        ensures
            match r {
                Err(e) => exists|i: int|
                    0 <= i < 9 && #[trigger] failure_of(outcomes@[i]) == Some(e) && forall|j: int|
                        0 <= j < i ==> #[trigger] failure_of(outcomes@[j]) is None,
                Ok(song) => {
                    &&& forall|i: int| 0 <= i < 9 ==> #[trigger] failure_of(outcomes@[i]) is None
                    &&& song.is_result_of(song_id@, outcomes@)
                },
            },
    {
        let features = Feature::all();
        let mut classifications: Vec<FeatureClassificationResult> = Vec::new();
        let mut i: usize = 0;
        while i < 9
            invariant
                i <= 9,
                features@ == Feature::catalog(),
                classifications@.len() == i,
                forall|j: int| 0 <= j < i ==> failure_of(#[trigger] outcomes@[j]) is None,
                forall|j: int|
                    0 <= j < i ==> (#[trigger] classifications@[j]).summarizes(
                        Feature::catalog()[j],
                        outcomes@[j]->Ok_0@,
                    ),
            decreases 9 - i,
        {
            let feature: Feature = features[i];
            let frames = match &outcomes[i] {
                Ok(frames) => copy_frames(frames),
                Err(e) => {
                    return Err(*e);
                },
            };
            let classification = match FeatureClassificationResult::new(&feature, frames) {
                Ok(classification) => classification,
                Err(e) => {
                    return Err(e);
                },
            };
            classifications.push(classification);
            i += 1;
        }
        proof {
            lemma_total_weight_of_features(classifications@, Feature::catalog());
            lemma_catalog_weight();
        }
        let cum_classification = Self::get_cum_classification(&classifications).unwrap();
        let major_class = Self::get_major_class(cum_classification.as_slice()).unwrap();
        Ok(
            SongClassificationResult {
                audio_title: song_id,
                feature_classification_result: classifications,
                cum_classification,
                major_class,
            },
        )
    }

    /// What the presentation layer shows about the features of the result,
    /// in the order of the per-feature results.
    pub fn get_features_formatted_for_path(&self) -> (details: Vec<FeatureDetail>)
        ensures
            details@.len() == self.feature_classification_result@.len(),
            forall|i: int|
                0 <= i < details@.len() ==> (#[trigger] details@[i]).describes(
                    self.feature_classification_result@[i].feature,
                ),
    {
        let mut details: Vec<FeatureDetail> = Vec::new();
        let n: usize = self.feature_classification_result.len();
        let mut i: usize = 0;
        while i < n
            invariant
                i <= n,
                n == self.feature_classification_result@.len(),
                details@.len() == i,
                forall|j: int|
                    0 <= j < i ==> (#[trigger] details@[j]).describes(
                        self.feature_classification_result@[j].feature,
                    ),
            decreases n - i,
        {
            let feature: Feature = self.feature_classification_result[i].feature;
            details.push(
                FeatureDetail {
                    folder: FeatureDetail::get_folder(&feature),
                    name: FeatureDetail::get_name(&feature),
                    short_desc: FeatureDetail::provide_details(&feature),
                },
            );
            i += 1;
        }
        details
    }

    /// Combines the per-feature averages into the cumulative distribution:
    /// for each class the sum of average times trust weight, divided by the
    /// sum of the trust weights. Fails where the weights add up to nothing.
    pub fn get_cum_classification(classifications: &Vec<FeatureClassificationResult>) -> (r: Result<
        FrameDistribution,
        ClassificationError,
    >)
        ensures
            total_weight(classifications@) == 0 ==> r == Err::<
                FrameDistribution,
                ClassificationError,
            >(ClassificationError::AggregationError),
            total_weight(classifications@) > 0 ==> r is Ok && r->Ok_0@.len() == 5 && forall|c: int|
                0 <= c < 5 ==> #[trigger] r->Ok_0[c] == cumulative(classifications@, c),
    {
        let n: usize = classifications.len();
        let mut base: [u128; 5] = [0; 5];
        let mut total_weight: u128 = 0;
        let mut i: usize = 0;
        while i < n
            invariant
                i <= n,
                n == classifications@.len(),
                total_weight == self::total_weight(classifications@.take(i as int)),
                total_weight <= i * 0xffff_ffff,
                forall|c: int|
                    0 <= c < 5 ==> #[trigger] base[c] == weighted_sum(
                        classifications@.take(i as int),
                        c,
                    ),
                forall|c: int| 0 <= c < 5 ==> #[trigger] base[c] <= i * 0xffff_ffff * 0xffff_ffff,
            decreases n - i,
        {
            let classification = &classifications[i];
            let weight: u32 = classification.feature_weight;
            let ghost before = classifications@.take(i as int);
            let ghost after = classifications@.take(i + 1);
            assert(after.drop_last() =~= before);
            assert(after.last() == classifications@[i as int]);
            let mut c: usize = 0;
            while c < 5
                invariant
                    c <= 5,
                    i < n,
                    after.len() == i + 1,
                    after.drop_last() == before,
                    after.last() == *classification,
                    weight == classification.feature_weight,
                    forall|k: int| 0 <= k < c ==> #[trigger] base[k] == weighted_sum(after, k),
                    forall|k: int| c <= k < 5 ==> #[trigger] base[k] == weighted_sum(before, k),
                    forall|k: int|
                        0 <= k < c ==> #[trigger] base[k] <= (i + 1) * 0xffff_ffff * 0xffff_ffff,
                    forall|k: int|
                        c <= k < 5 ==> #[trigger] base[k] <= i * 0xffff_ffff * 0xffff_ffff,
                decreases 5 - c,
            {
                let average: u32 = classification.avg_classification[c];
                assert(average * weight <= 0xffff_ffff * 0xffff_ffff && (i + 1) * 0xffff_ffff
                    * 0xffff_ffff == i * 0xffff_ffff * 0xffff_ffff + 0xffff_ffff * 0xffff_ffff && (i
                    + 1) * 0xffff_ffff * 0xffff_ffff <= 0xffff_ffff_ffff_ffff * 0xffff_ffff
                    * 0xffff_ffff) by (nonlinear_arith)
                    requires
                        average <= 0xffff_ffff,
                        weight <= 0xffff_ffff,
                        0 <= i < 0xffff_ffff_ffff_ffff,
                ;
                base[c] = base[c] + (average as u128) * (weight as u128);
                c += 1;
            }
            assert((i + 1) * 0xffff_ffff == i * 0xffff_ffff + 0xffff_ffff && (i + 1) * 0xffff_ffff
                <= 0xffff_ffff_ffff_ffff * 0xffff_ffff) by (nonlinear_arith)
                requires
                    0 <= i < 0xffff_ffff_ffff_ffff,
            ;
            total_weight = total_weight + weight as u128;
            i += 1;
        }
        assert(classifications@.take(n as int) =~= classifications@);
        if total_weight == 0 {
            return Err(ClassificationError::AggregationError);
        }
        let mut cum: FrameDistribution = [0; 5];
        let mut c: usize = 0;
        while c < 5
            invariant
                c <= 5,
                total_weight > 0,
                total_weight == self::total_weight(classifications@),
                forall|k: int|
                    0 <= k < 5 ==> #[trigger] base[k] == weighted_sum(classifications@, k),
                forall|k: int| 0 <= k < c ==> #[trigger] cum[k] == cumulative(classifications@, k),
            decreases 5 - c,
        {
            proof {
                assert forall|f: int| 0 <= f < classifications@.len() implies 0 <= (
                #[trigger] classifications@[f]).avg_classification[c as int] <= 0xffff_ffff by {}
                lemma_weighted_sum_bounds(classifications@, c as int, 0, 0xffff_ffff);
                let s = base[c as int] as int;
                let t = total_weight as int;
                assert(s / t <= 0xffff_ffff) by (nonlinear_arith)
                    requires
                        t > 0,
                        0 <= s <= 0xffff_ffff * t,
                ;
            }
            let quotient: u128 = base[c] / total_weight;
            cum[c] = quotient as u32;
            c += 1;
        }
        Ok(cum)
    }

    /// Selects the majority class: the class whose value is the largest, and
    /// on a tie the one with the highest index. An index of 5 or more, which
    /// only a sequence of more than five values can give, names no class.
    pub fn get_major_class(cum_classifications: &[u32]) -> (r: Result<Class, CustomError>)
        ensures
            majority_index(cum_classifications@) < 5 ==> r == Ok::<Class, CustomError>(
                Class::at(majority_index(cum_classifications@)),
            ),
            majority_index(cum_classifications@) >= 5 ==> r is Err && r->Err_0.0@
                == WRONG_MAJOR_CLASS@,
            cum_classifications@.len() > 0 ==> is_last_maximum(
                cum_classifications@,
                majority_index(cum_classifications@),
            ),
    {
        let n: usize = cum_classifications.len();
        let mut biggest_idx: usize = 0;
        let mut biggest_val: u32 = 0;
        let mut idx: usize = 0;
        while idx < n
            invariant
                idx <= n,
                n == cum_classifications@.len(),
                idx == 0 ==> biggest_idx == 0 && biggest_val == 0,
                idx > 0 ==> is_last_maximum(cum_classifications@.take(idx as int), biggest_idx as int)
                    && biggest_val == cum_classifications@[biggest_idx as int],
            decreases n - idx,
        {
            let class_percent: u32 = cum_classifications[idx];
            let ghost before = cum_classifications@.take(idx as int);
            let ghost after = cum_classifications@.take(idx + 1);
            assert(forall|j: int| 0 <= j < before.len() ==> before[j] == after[j]);
            if class_percent >= biggest_val {
                biggest_idx = idx;
                biggest_val = class_percent;
            }
            assert(is_last_maximum(after, biggest_idx as int));
            idx += 1;
        }
        proof {
            if n > 0 {
                assert(cum_classifications@.take(n as int) =~= cum_classifications@);
                lemma_majority_index(cum_classifications@, biggest_idx as int);
            }
        }
        Class::from_index(biggest_idx)
    }
}

/// A copy of the frames, in the same order.
pub fn copy_frames(frames: &Vec<FrameDistribution>) -> (copy: Vec<FrameDistribution>)
    ensures
        copy@ == frames@,
{
    let mut copy: Vec<FrameDistribution> = Vec::new();
    let n: usize = frames.len();
    let mut i: usize = 0;
    while i < n
        invariant
            i <= n,
            n == frames@.len(),
            copy@ == frames@.take(i as int),
        decreases n - i,
    {
        let frame: FrameDistribution = frames[i];
        copy.push(frame);
        assert(copy@ =~= frames@.take(i + 1));
        i += 1;
    }
    assert(frames@.take(n as int) =~= frames@);
    copy
}

} // verus!
