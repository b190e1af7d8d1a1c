//! Explanatory HTML fragments shown beside each feature.

use vstd::prelude::*;

verus! {

/// HTML fragment that explains the short-time Fourier transform.
pub const FT_DETAILS: &'static str = r#"
                    <h2>How STFT Works (Conceptually)</h2>
                    <ol>
                    <li>The input audio signal is <strong>divided into overlapping frames</strong> using <code>win_length</code> and <code>hop_length</code>.</li>
                    <li>Each frame is <strong>windowed</strong> using a window function (e.g., Hann) to reduce edge artifacts.</li>
                    <li>A <strong>Fast Fourier Transform (FFT)</strong> is applied to each windowed frame to transform it from the time domain to the frequency domain.</li>
                    <li>The result is a <strong>2D array of complex numbers</strong>:
                        <ul>
                        <li>Each column = spectrum of a frame (frequency content at a point in time)</li>
                        <li>Each row = specific frequency bin (amplitude of that frequency over time)</li>
                        </ul>
                    </li>
                    </ol>
                    "#;

/// HTML fragment that explains chroma energy normalized statistics.
pub const CHROMA_CENS_DETAILS: &'static str = r#"
                    <h2>Chroma CENS (Chroma Energy Normalized Statistics)</h2>
                    <ol>
                    <li>Reduces pitch information into <strong>12 chroma bins</strong> (one per pitch class: C, C#, D, etc.), ignoring octave.</li>
                    <li>Applies <strong>energy normalization</strong> and smoothing over time, making it robust to changes in dynamics and articulation.</li>
                    <li>Useful for identifying <strong>harmonic patterns</strong> and musical similarity.</li>
                    </ol>
                    "#;

/// HTML fragment that explains mel-frequency cepstral coefficients.
pub const MFCC_DETAILS: &'static str = r#"
                    <h2>MFCC (Mel-Frequency Cepstral Coefficients)</h2>
                    <ol>
                    <li>Transforms audio into a compact representation of its <strong>timbre</strong>.</li>
                    <li>Steps:
                        <ul>
                        <li>Compute Mel Spectrogram (frequency in Mel scale)</li>
                        <li>Apply log transform (log-mel spectrogram)</li>
                        <li>Apply Discrete Cosine Transform (DCT) to get decorrelated coefficients</li>
                        </ul>
                    </li>
                    <li>Commonly used in <strong>speech and music classification</strong>.</li>
                    </ol>
                    "#;

/// HTML fragment that explains the constant-Q chroma.
pub const CHROMA_CQT_DETAILS: &'static str = r#"
                    <h2>Chroma CQT (Constant-Q Transform)</h2>
                    <ol>
                    <li>Like chroma STFT, but uses a <strong>Constant-Q Transform</strong> instead of FFT.</li>
                    <li>Each frequency bin is logarithmically spaced — matching musical pitch perception.</li>
                    <li>Better resolution for <strong>low frequencies</strong>, and pitch-focused tasks.</li>
                    </ol>
                    "#;

/// HTML fragment that explains the STFT chroma.
pub const CHROMA_STFT_DETAILS: &'static str = r#"
                    <h2>Chroma STFT</h2>
                    <ol>
                    <li>Computes <strong>chroma features</strong> (pitch classes) from a standard STFT spectrogram.</li>
                    <li>Reduces the full frequency spectrum to 12 pitch classes.</li>
                    <li>Good for analyzing <strong>harmonic content</strong>, chords, or key.</li>
                    </ol>
                    "#;

/// HTML fragment that explains the magnitude spectrogram.
pub const SPECTROGRAM_DETAILS: &'static str = r#"
                    <h2>Spectrogram (Magnitude)</h2>
                    <ol>
                    <li>Represents the audio signal's <strong>frequency content over time</strong>.</li>
                    <li>Computed using the <code>STFT</code>, followed by taking the <code>magnitude</code> (i.e., <code>np.abs</code>).</li>
                    <li>Shows how strong each frequency is at each time step.</li>
                    <li>Useful for <strong>visual inspection</strong> and signal processing tasks.</li>
                    </ol>
                    "#;

/// HTML fragment that explains the power spectrogram.
pub const POWER_SPECTROGRAM_DETAILS: &'static str = r#"
                    <h2>Power Spectrogram</h2>
                    <ol>
                    <li>Like a regular spectrogram, but instead of magnitude, it uses <strong>power</strong>: <code>np.abs(S)**2</code>.</li>
                    <li>Gives more weight to strong frequencies — useful for some machine learning tasks.</li>
                    <li>Can be converted to decibels (log scale) using <code>librosa.power_to_db()</code>.</li>
                    </ol>
                    "#;

/// HTML fragment that explains the mel spectrogram.
pub const MEL_SPECTROGRAM_DETAILS: &'static str = r#"
                    <h2>Mel Spectrogram</h2>
                    <ol>
                    <li>Transforms a power spectrogram into the <strong>Mel scale</strong>, which aligns better with human pitch perception.</li>
                    <li>More resolution for lower frequencies, less for higher ones — similar to how humans hear.</li>
                    <li>Used in <strong>audio classification</strong>, music tagging, speech recognition, etc.</li>
                    </ol>
                    "#;

/// HTML fragment that explains the tonal centroid features.
pub const TONNETZ_DETAILS: &'static str = r#"
                    <h2>Tonnetz (Tonal Centroid Features)</h2>
                    <ol>
                    <li>Maps chroma vectors to a 6D space representing <strong>tonal relationships</strong>.</li>
                    <li>Captures <strong>harmonic structure</strong> (e.g., consonance, mode) using music theory.</li>
                    <li>Useful for <strong>key detection</strong> and <strong>musical similarity analysis</strong>.</li>
                    </ol>
                    "#;

} // verus!
