//! Start-at-login, the log file and the meter, without the system they run on.

use roommute::autostart::{
    command_string, is_enabled, open_failure, outcome, registry_bytes, RunKeyChange, SUCCESS,
};
use roommute::logfile::{rotate_log_if_large, RotatingLog, MAX_LOG_BYTES, ROTATED_EXTENSION};
use roommute::resources::{cpu_nanos, ProcessMeter, Usage};

// ---- start-at-login -------------------------------------------------------

/// What the system says when a value is not there.
const NOT_FOUND: u32 = 2;

#[test]
fn command_is_quoted_for_paths_with_spaces() {
    let cmd = command_string(r"C:\Program Files\RoomMute\roommute.exe");
    assert_eq!(cmd, "\"C:\\Program Files\\RoomMute\\roommute.exe\"");
    assert!(cmd.starts_with('"') && cmd.ends_with('"'));
}

/// A value of the key that lives only here.
#[derive(Default)]
struct Value(Option<Vec<u8>>);

impl Value {
    fn enabled(&self) -> bool {
        is_enabled(true, if self.0.is_some() { SUCCESS } else { NOT_FOUND })
    }

    fn set(&mut self, exe: &str, enabled: bool) -> Result<(), String> {
        let status = match roommute::autostart::set(enabled, exe) {
            RunKeyChange::Write(bytes) => {
                self.0 = Some(bytes);
                SUCCESS
            }
            RunKeyChange::Remove => match self.0.take() {
                Some(_) => SUCCESS,
                None => NOT_FOUND,
            },
        };
        outcome(enabled, status, self.enabled())
    }

    fn read(&self) -> Option<String> {
        let bytes = self.0.as_ref()?;
        let wide: Vec<u16> = (0..bytes.len() / 2)
            .map(|i| u16::from_le_bytes([bytes[2 * i], bytes[2 * i + 1]]))
            .take_while(|&c| c != 0)
            .collect();
        Some(String::from_utf16_lossy(&wide))
    }
}

#[test]
fn enabling_and_disabling_round_trips() {
    let mut value = Value::default();
    let exe = r"C:\nowhere\roommute-selftest.exe";

    value.set(exe, true).expect("enable");
    assert!(value.enabled(), "should be registered after enabling");

    value.set(exe, false).expect("disable");
    assert!(!value.enabled(), "should be gone after disabling");

    // Disabling something that was never there must not error.
    value.set(exe, false).expect("disable again");
}

/// The round trip only asks whether the value exists. What Windows will
/// actually run is the string, and that string is encoded to UTF-16 bytes
/// by hand — so encode it, read it back, and require the command to survive
/// intact.
///
/// The path carries an accent and an emoji on purpose: the emoji is
/// outside the BMP and therefore a surrogate pair, which is where a
/// hand-rolled UTF-16 encoder goes wrong if it is going to.
#[test]
fn the_value_written_is_the_command_windows_will_run() {
    let mut value = Value::default();
    let exe = "C:\\nowhere\\Ro\u{00f4}mMute \u{1f3a4}\\roommute.exe";

    value.set(exe, true).expect("enable");
    let written = value.read();
    value.set(exe, false).expect("disable");

    assert_eq!(
        written.as_deref(),
        Some(command_string(exe).as_str()),
        "the Run value has to be the quoted command, byte for byte"
    );
}

#[test]
fn a_name_that_was_never_written_reads_as_nothing() {
    assert_eq!(Value::default().read(), None);
    assert!(!Value::default().enabled());
}

#[test]
fn is_enabled_agrees_with_what_is_actually_in_the_key() {
    assert!(is_enabled(true, SUCCESS));
    assert!(!is_enabled(true, NOT_FOUND));
    assert!(!is_enabled(false, SUCCESS), "a key that cannot be opened");
}

#[test]
fn the_bytes_are_utf16_with_a_nul() {
    for text in ["", "A", "é", "\u{ffff}", "\u{10000}", "\u{10ffff}", "a🎤b"] {
        let expected: Vec<u8> = text
            .encode_utf16()
            .chain(std::iter::once(0))
            .flat_map(u16::to_le_bytes)
            .collect();
        assert_eq!(registry_bytes(text), expected, "{text:?}");
    }
}

#[test]
fn a_key_that_cannot_be_changed_is_reported() {
    assert_eq!(
        outcome(true, 5, false).unwrap_err(),
        "writing the Run key failed: error 5"
    );
    assert_eq!(
        outcome(false, 5, true).unwrap_err(),
        "writing the Run key failed: error 5"
    );
    assert!(outcome(false, 5, false).is_ok());
    assert_eq!(
        open_failure(1234567890),
        "opening the Run key failed: error 1234567890"
    );
}

// ---- the log --------------------------------------------------------------

/// A log file and the one before it, by their sizes alone.
struct Files {
    log: RotatingLog,
    live: u64,
    old: Option<u64>,
}

impl Files {
    fn open(existing: Option<u64>, max: u64) -> Self {
        Files {
            log: RotatingLog::new(existing, max),
            live: existing.unwrap_or(0),
            old: None,
        }
    }

    fn write(&mut self, len: usize, can_rename: bool) {
        if self.log.must_rotate(len) {
            if can_rename {
                self.old = Some(self.live);
                self.live = 0;
            }
            self.log.after_rotation(can_rename, true);
        }
        assert!(self.log.open);
        self.live += len as u64;
        self.log.wrote(len);
    }
}

/// A small existing log is picked up and appended to, not rolled over.
#[test]
fn a_small_existing_file_is_kept_and_appended_to() {
    let mut f = Files::open(Some(24), 1024);
    f.write(14, true);
    assert_eq!(f.live, 38, "history was lost");
    assert!(f.old.is_none(), "nothing needed rotating");
}

/// A first run has no file at all, which must not be an error.
#[test]
fn a_first_run_creates_the_file() {
    let mut f = Files::open(None, 1024);
    f.write(6, true);
    assert_eq!(f.live, 6);
    assert!(f.old.is_none(), "nothing to roll over");
}

/// The failure this exists for: a process that runs for a day without
/// restarting used to grow its log without limit.
#[test]
fn a_long_run_rotates_without_restarting() {
    let mut f = Files::open(None, 1024);
    for _ in 0..20 {
        f.write(200, true);
        assert!(f.live <= 1024, "the live file passed its limit: {}", f.live);
    }
    assert!(
        f.old.is_some(),
        "the previous generation has to be kept, or rotation is deletion"
    );
}

/// Rotation must not lose the line that triggered it.
#[test]
fn the_line_that_triggers_rotation_is_still_written() {
    let mut f = Files::open(None, 64);
    f.write(60, true);
    f.write(18, true);
    assert_eq!((f.live, f.old), (18, Some(60)));
}

/// Picking up an existing file must account for what is already in it,
/// or the first rotation comes a whole file too late.
#[test]
fn an_existing_file_counts_towards_the_limit() {
    let mut f = Files::open(Some(900), 1024);
    f.write(200, true);
    assert!(
        f.live < 900,
        "should have rotated on the first write: {}",
        f.live
    );
}

#[test]
fn a_failed_rotation_does_not_lose_the_line() {
    let mut f = Files::open(Some(60), 64);
    f.write(18, false);
    assert_eq!((f.live, f.old), (78, None));
    assert_eq!(f.log.written, 78);
    f.write(5, true);
    assert_eq!((f.live, f.old), (5, Some(78)));
}

#[test]
fn a_log_that_cannot_be_opened_again_is_closed() {
    let mut log = RotatingLog::new(Some(10), 10);
    assert!(!log.must_rotate(0));
    assert!(log.must_rotate(1));
    log.after_rotation(true, false);
    assert!(!log.open);
    assert_eq!(log.written, 10);
    assert!(RotatingLog::new(None, 3).must_rotate(4));
    assert!(RotatingLog::new(Some(u64::MAX), u64::MAX).must_rotate(1));
}

#[test]
fn small_logs_are_left_alone() {
    assert!(
        !rotate_log_if_large(Some(30), 1024),
        "small log should not be rotated"
    );
    assert!(!rotate_log_if_large(Some(1024), 1024));
}

#[test]
fn oversized_logs_are_rolled_over() {
    assert!(
        rotate_log_if_large(Some(2048), 1024),
        "oversized log should have been moved aside"
    );
    assert_eq!(ROTATED_EXTENSION, "log.old");
    assert_eq!(MAX_LOG_BYTES, 5 * 1024 * 1024);
}

#[test]
fn missing_log_is_not_an_error() {
    // First run: nothing to rotate, and nothing should blow up.
    assert!(!rotate_log_if_large(None, 1024));
}

// ---- the meter ------------------------------------------------------------

/// An average needs two readings; the first only sets the baseline.
#[test]
fn the_first_sample_reports_nothing() {
    let mut m = ProcessMeter::new();
    let t = 5_000_000_000;
    assert!(
        m.sample(t, Some(1_000_000)).is_none(),
        "nothing to average against yet"
    );
}

#[test]
fn later_samples_report_what_was_used_since() {
    let mut m = ProcessMeter::new();
    assert!(m.sample(100, Some(10)).is_none());
    assert_eq!(
        m.sample(250, Some(40)),
        Some(Usage {
            used: 30,
            over: 150
        })
    );
    assert!(m.sample(300, None).is_none(), "nothing could be measured");
    assert_eq!(
        m.sample(350, Some(30)),
        Some(Usage { used: 0, over: 100 })
    );
}

#[test]
fn processor_time_comes_in_two_halves() {
    assert_eq!(cpu_nanos((0, 3), (0, 4)), 700);
    assert_eq!(cpu_nanos((1, 0), (0, 1)), (0x1_0000_0000 + 1) * 100);
}
