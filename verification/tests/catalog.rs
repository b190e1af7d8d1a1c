use back::ml::class::WRONG_MAJOR_CLASS;
use back::ml::fixed::{decimal_string, format_percent, scaled, ONE};
use back::ml::{
    get_cmodule_path, signal_file, Class, ClassificationError, Feature, FeatureDetail,
};

#[test]
fn gets_model_path() {
    let path = get_cmodule_path(&Feature::ChromaCens);

    assert_eq!(std::path::Path::new("util/chroma_cens.pt"), std::path::Path::new(path))
}

#[test]
fn model_paths_of_all_features() {
    assert_eq!(get_cmodule_path(&Feature::ChromaCens), "util/chroma_cens.pt");
    assert_eq!(get_cmodule_path(&Feature::ChromaCqt), "util/chroma_cqt.pt");
    assert_eq!(get_cmodule_path(&Feature::ChromaStft), "util/chroma_stft.pt");
    assert_eq!(get_cmodule_path(&Feature::Ft), "util/ft_model.pt");
    assert_eq!(get_cmodule_path(&Feature::Spectrogram), "util/mel_spectrogram_model.pt");
    assert_eq!(get_cmodule_path(&Feature::MelSpectrogram), "util/mel_spectrogram_model.pt");
    assert_eq!(get_cmodule_path(&Feature::PowerSpectrogram), "util/power_spectrogram_model.pt");
    assert_eq!(get_cmodule_path(&Feature::Mfcc), "util/mfcc.pt");
    assert_eq!(get_cmodule_path(&Feature::Tonnetz), "util/tonnetz.pt");
}

#[test]
fn signal_files_of_all_features() {
    assert_eq!(signal_file(&Feature::Tonnetz), "tonnetz/tonnetz.npy");
    assert_eq!(signal_file(&Feature::ChromaCens), "chroma_cens/chroma_cens.npy");
    assert_eq!(signal_file(&Feature::ChromaCqt), "chroma_cqt/chroma_cqt.npy");
    assert_eq!(signal_file(&Feature::ChromaStft), "chroma_stft/chroma_stft.npy");
    assert_eq!(signal_file(&Feature::Ft), "ft/ft.npy");
    assert_eq!(signal_file(&Feature::MelSpectrogram), "mel_spectr/mel_spectr.npy");
    assert_eq!(signal_file(&Feature::PowerSpectrogram), "power_spectr/power_spectr.npy");
    assert_eq!(signal_file(&Feature::Spectrogram), "spectr/spectr.npy");
    assert_eq!(signal_file(&Feature::Mfcc), "mfcc/mfcc.npy");
}

#[test]
fn catalog_lists_nine_features_in_order() {
    assert_eq!(
        Feature::all(),
        [
            Feature::Ft,
            Feature::Mfcc,
            Feature::Tonnetz,
            Feature::ChromaCens,
            Feature::ChromaCqt,
            Feature::ChromaStft,
            Feature::Spectrogram,
            Feature::MelSpectrogram,
            Feature::PowerSpectrogram,
        ]
    );
}

#[test]
fn catalog_holds_each_feature_once() {
    let all = Feature::all();
    for i in 0..9 {
        for j in 0..9 {
            assert_eq!(all[i] == all[j], i == j);
        }
    }
}

#[test]
fn trust_weights_are_fixed() {
    assert_eq!(Feature::Ft.weight(), 760_000);
    assert_eq!(Feature::Spectrogram.weight(), 750_000);
    assert_eq!(Feature::MelSpectrogram.weight(), 800_000);
    assert_eq!(Feature::PowerSpectrogram.weight(), 770_000);
    assert_eq!(Feature::Mfcc.weight(), 690_000);
    assert_eq!(Feature::ChromaStft.weight(), 450_000);
    assert_eq!(Feature::ChromaCqt.weight(), 490_000);
    assert_eq!(Feature::ChromaCens.weight(), 470_000);
    assert_eq!(Feature::Tonnetz.weight(), 420_000);
}

#[test]
fn trust_weights_add_up() {
    let total: u32 = Feature::all().iter().map(|f| f.weight()).sum();
    assert_eq!(total, 5_600_000);
    for f in Feature::all() {
        assert!(0 < f.weight() && f.weight() <= ONE);
    }
}

#[test]
fn feature_display_texts() {
    assert_eq!(Feature::ChromaCens.to_string(), "Chroma (CENS)");
    assert_eq!(Feature::Ft.to_string(), "Fourier Transform");
    assert_eq!(Feature::Mfcc.to_string(), "Mel Frequency Cepstral Coefficients (MFCC)");
    assert_eq!(Feature::ChromaCqt.to_string(), "Chroma (CQT)");
    assert_eq!(Feature::ChromaStft.to_string(), "Chroma (STFT)");
    assert_eq!(Feature::Spectrogram.to_string(), "Spectrogram");
    assert_eq!(Feature::PowerSpectrogram.to_string(), "Power Spectrogram");
    assert_eq!(Feature::MelSpectrogram.to_string(), "Mel Spectrogram");
    assert_eq!(Feature::Tonnetz.to_string(), "Tonnetz");
}

#[test]
fn feature_folders() {
    assert_eq!(FeatureDetail::get_folder(&Feature::Ft), "ft");
    assert_eq!(FeatureDetail::get_folder(&Feature::Mfcc), "mfcc");
    assert_eq!(FeatureDetail::get_folder(&Feature::ChromaCens), "cens");
    assert_eq!(FeatureDetail::get_folder(&Feature::ChromaCqt), "cqt");
    assert_eq!(FeatureDetail::get_folder(&Feature::ChromaStft), "stft");
    assert_eq!(FeatureDetail::get_folder(&Feature::Spectrogram), "spectr");
    assert_eq!(FeatureDetail::get_folder(&Feature::MelSpectrogram), "mel_spectr");
    assert_eq!(FeatureDetail::get_folder(&Feature::PowerSpectrogram), "power_spectr");
    assert_eq!(FeatureDetail::get_folder(&Feature::Tonnetz), "tonnetz");
}

#[test]
fn feature_names() {
    assert_eq!(FeatureDetail::get_name(&Feature::Ft), "Short time fourier transform");
    assert_eq!(
        FeatureDetail::get_name(&Feature::Mfcc),
        "MFCC (Mel Frequency Ceptsral Coefficients)"
    );
    assert_eq!(FeatureDetail::get_name(&Feature::ChromaCens), "Chroma (CENS)");
    assert_eq!(FeatureDetail::get_name(&Feature::ChromaCqt), "Chroma (CQT)");
    assert_eq!(FeatureDetail::get_name(&Feature::ChromaStft), "CHROMA (STFT)");
    assert_eq!(FeatureDetail::get_name(&Feature::Spectrogram), "Spectrogram");
    assert_eq!(FeatureDetail::get_name(&Feature::MelSpectrogram), "Mel Spectrogram");
    assert_eq!(FeatureDetail::get_name(&Feature::PowerSpectrogram), "Power Spectrogram");
    assert_eq!(FeatureDetail::get_name(&Feature::Tonnetz), "Tonnetz");
}

#[test]
fn feature_details_are_html_fragments() {
    let headings = [
        (Feature::Ft, "<h2>How STFT Works (Conceptually)</h2>"),
        (Feature::ChromaCens, "<h2>Chroma CENS (Chroma Energy Normalized Statistics)</h2>"),
        (Feature::Mfcc, "<h2>MFCC (Mel-Frequency Cepstral Coefficients)</h2>"),
        (Feature::ChromaCqt, "<h2>Chroma CQT (Constant-Q Transform)</h2>"),
        (Feature::ChromaStft, "<h2>Chroma STFT</h2>"),
        (Feature::Spectrogram, "<h2>Spectrogram (Magnitude)</h2>"),
        (Feature::PowerSpectrogram, "<h2>Power Spectrogram</h2>"),
        (Feature::MelSpectrogram, "<h2>Mel Spectrogram</h2>"),
        (Feature::Tonnetz, "<h2>Tonnetz (Tonal Centroid Features)</h2>"),
    ];
    for (feature, heading) in headings {
        let details = FeatureDetail::provide_details(&feature);
        assert_eq!(details.trim_start().lines().next().unwrap(), heading);
        assert!(details.trim_end().ends_with("</ol>"));
        assert!(details.starts_with("\n                    <h2>"));
        assert!(details.ends_with("</ol>\n                    "));
    }
}

#[test]
fn feature_details_of_chroma_stft() {
    assert_eq!(
        FeatureDetail::provide_details(&Feature::ChromaStft),
        "\n                    <h2>Chroma STFT</h2>\n                    <ol>\n                    <li>Computes <strong>chroma features</strong> (pitch classes) from a standard STFT spectrogram.</li>\n                    <li>Reduces the full frequency spectrum to 12 pitch classes.</li>\n                    <li>Good for analyzing <strong>harmonic content</strong>, chords, or key.</li>\n                    </ol>\n                    "
    );
}

#[test]
fn feature_detail_prints_its_description() {
    let detail = FeatureDetail {
        folder: FeatureDetail::get_folder(&Feature::Ft),
        name: FeatureDetail::get_name(&Feature::Ft),
        short_desc: FeatureDetail::provide_details(&Feature::Ft),
    };
    assert_eq!(detail.to_string(), detail.short_desc);
    assert_ne!(detail.to_string(), detail.name);
}

#[test]
fn class_ordinals() {
    assert_eq!(Class::Rock.ordinal(), 0);
    assert_eq!(Class::HipHop.ordinal(), 1);
    assert_eq!(Class::Electronic.ordinal(), 2);
    assert_eq!(Class::Pop.ordinal(), 3);
    assert_eq!(Class::Classical.ordinal(), 4);
    assert_eq!(
        Class::all(),
        [Class::Rock, Class::HipHop, Class::Electronic, Class::Pop, Class::Classical]
    );
}

#[test]
fn class_from_index() {
    for (i, class) in Class::all().into_iter().enumerate() {
        assert_eq!(Class::from_index(i).unwrap(), class);
        assert_eq!(class.ordinal(), i);
    }
    assert_eq!(Class::from_index(5).unwrap_err().0, WRONG_MAJOR_CLASS);
    assert_eq!(
        Class::from_index(usize::MAX).unwrap_err().0,
        "Classification unsuccesfull, wrong major class calculation"
    );
}

#[test]
fn class_display_texts() {
    assert_eq!(Class::Rock.to_string(), "Rock");
    assert_eq!(Class::HipHop.to_string(), "Hip-Hop");
    assert_eq!(Class::Electronic.to_string(), "Electronic");
    assert_eq!(Class::Pop.to_string(), "Pop");
    assert_eq!(Class::Classical.to_string(), "Classical");
}

#[test]
fn error_names() {
    assert_eq!(ClassificationError::FeatureDataUnavailable.to_string(), "FeatureDataUnavailable");
    assert_eq!(ClassificationError::ModelUnavailable.to_string(), "ModelUnavailable");
    assert_eq!(ClassificationError::EmptyFrameSet.to_string(), "EmptyFrameSet");
    assert_eq!(ClassificationError::AggregationError.to_string(), "AggregationError");
}

#[test]
fn percent_texts() {
    assert_eq!(format_percent(0), "0.00%");
    assert_eq!(format_percent(49), "0.00%");
    assert_eq!(format_percent(50), "0.01%");
    assert_eq!(format_percent(149), "0.01%");
    assert_eq!(format_percent(150), "0.02%");
    assert_eq!(format_percent(52_413), "5.24%");
    assert_eq!(format_percent(314_482), "31.45%");
    assert_eq!(format_percent(999_949), "99.99%");
    assert_eq!(format_percent(999_950), "100.00%");
    assert_eq!(format_percent(ONE), "100.00%");
    assert_eq!(format_percent(u32::MAX), "429496.73%");
}

#[test]
fn decimal_numerals() {
    assert_eq!(decimal_string(0), "0");
    assert_eq!(decimal_string(7), "7");
    assert_eq!(decimal_string(10), "10");
    assert_eq!(decimal_string(1_234_567_890), "1234567890");
    assert_eq!(decimal_string(u32::MAX), "4294967295");
}

#[test]
fn scaling_rounds_down() {
    assert_eq!(scaled(1_000_000, 760_000), 760_000);
    assert_eq!(scaled(3, 500_000), 1);
    assert_eq!(scaled(1, 999_999), 0);
    assert_eq!(scaled(u32::MAX, ONE), u32::MAX);
    assert_eq!(scaled(u32::MAX, 0), 0);
}
