//! Fixed settings of the server and the schedule of the clean-up task.

use vstd::prelude::*;

verus! {

/// The origin that may call the server from a browser.
pub const CORS_ORIGIN: &'static str = "http://localhost:3000";

/// The largest request body that is taken, in bytes.
pub const BODY_LIMIT: usize = 250 * 1024 * 1024;

/// Hours between two runs of the clean-up task.
pub const RUN_EVERY_HOURS: u32 = 4;

/// The folders that exist below the data directory of the server; the
/// empty name stands for the directory itself.
pub open spec fn data_folders() -> Seq<Seq<char>> {
    seq![
        ""@,
        "30s"@,
        "cqt"@,
        "ft"@,
        "mfcc"@,
        "spectr"@,
        "tonnetz"@,
        "cens"@,
        "features"@,
        "mel_spect"@,
        "power_spectr"@,
        "stft"@,
        "uploads"@,
    ]
}

/// The hour at which the clean-up task runs next when it is `hour` o'clock:
/// the next multiple of four, midnight being hour 0.
pub open spec fn next_run_hour_at(hour: nat) -> nat {
    ((hour / 4) + 1) * 4 % 24
}

/// The second of the current day at which the clean-up task runs next. A
/// run that would not lie after the present moment is put off by four
/// hours.
pub open spec fn next_run_second_at(hour: nat, minute: nat, second: nat) -> nat {
    let run = next_run_hour_at(hour) * 3600;
    if run <= hour * 3600 + minute * 60 + second {
        run + 4 * 3600
    } else {
        run
    }
}

/// The folders that exist below the data directory of the server, in the
/// order in which they are made.
pub fn server_data_folders() -> (folders: Vec<&'static str>)
    ensures
        folders@.len() == 13,
        forall|i: int| 0 <= i < 13 ==> (#[trigger] folders@[i])@ == data_folders()[i],
{
    let mut folders: Vec<&'static str> = Vec::new();
    folders.push("");
    folders.push("30s");
    folders.push("cqt");
    folders.push("ft");
    folders.push("mfcc");
    folders.push("spectr");
    folders.push("tonnetz");
    folders.push("cens");
    folders.push("features");
    folders.push("mel_spect");
    folders.push("power_spectr");
    folders.push("stft");
    folders.push("uploads");
    folders
}

/// The hour at which the clean-up task runs next when it is `hour` o'clock.
pub fn next_run_hour(hour: u32) -> (next: u32)
    ensures
        next == next_run_hour_at(hour as nat),
        next < 24,
        next % 4 == 0,
        hour < 20 ==> hour < next <= hour + 4,
        20 <= hour < 24 ==> next == 0,
{
    let next: u64 = ((hour as u64 / 4) + 1) * 4 % 24;
    next as u32
}

/// The second of the current day at which the clean-up task runs next, for
/// a time of day given as the clock shows it. Before eight in the evening
/// that is the start of the next hour that four divides; from then on it is
/// four in the morning of the same day, which is past.
pub fn next_run_second(hour: u32, minute: u32, second: u32) -> (start: u64)
    ensures
        start == next_run_second_at(hour as nat, minute as nat, second as nat),
        hour < 20 && minute < 60 && second < 60 ==> start == next_run_hour_at(hour as nat) * 3600
            && hour * 3600 + minute * 60 + second < start <= hour * 3600 + minute * 60 + second + 4
            * 3600,
        20 <= hour < 24 ==> start == 4 * 3600,
{
    let now: u64 = (hour as u64) * 3600 + (minute as u64) * 60 + (second as u64);
    let run: u64 = (next_run_hour(hour) as u64) * 3600;
    if run <= now {
        run + 4 * 3600
    } else {
        run
    }
}

} // verus!
