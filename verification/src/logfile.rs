//! When the log file rolls over.
//!
//! A log that is only checked at start-up outgrows its limit in exactly the
//! processes that run for long, so every write is checked.

use vstd::prelude::*;

verus! {

/// Roll the log over once it gets this big.
pub const MAX_LOG_BYTES: u64 = 5 * 1024 * 1024;

/// What a rotated log is called: this takes the place of its extension.
pub const ROTATED_EXTENSION: &'static str = "log.old";

/// A log file of limited size. One previous file is kept, which is enough to
/// catch a problem that just happened.
#[derive(Debug, Clone, Copy, PartialEq, Eq, Structural)]
pub struct RotatingLog {
    /// How much the live file holds.
    pub written: u64,
    pub max: u64,
    /// There is a live file to write to.
    pub open: bool,
}

impl RotatingLog {
    /// A line of `len` bytes would take the live file past its limit.
    pub open spec fn overflows(self, len: usize) -> bool {
        self.written + len > self.max
    }

    /// The log after an attempt to rotate it.
    pub open spec fn rotated(self, renamed: bool, reopened: bool) -> RotatingLog {
        RotatingLog {
            written: if renamed && reopened {
                0
            } else {
                self.written
            },
            open: reopened,
            ..self
        }
    }

    /// The log after `n` bytes went into it.
    pub open spec fn grown(self, n: usize) -> RotatingLog {
        RotatingLog { written: (self.written + n) as u64, ..self }
    }

    /// The log for a file that was opened.
    pub open spec fn opened(existing: Option<u64>, max: u64) -> RotatingLog {
        RotatingLog {
            written: match existing {
                Some(n) => n,
                None => 0,
            },
            max,
            open: true,
        }
    }

    /// The log for a file that was opened; `existing` is how much it already
    /// held, where that could be found out.
    pub fn new(existing: Option<u64>, max: u64) -> (r: Self)
        ensures
            r == RotatingLog::opened(existing, max),
    {
        RotatingLog {
            written: match existing {
                Some(n) => n,
                None => 0,
            },
            max,
            open: true,
        }
    }

    /// Must the file be rotated before a line of `len` bytes is written?
    pub fn must_rotate(&self, len: usize) -> (r: bool)
        ensures
            r == self.overflows(len),
    {
        len as u64 > self.max || self.written > self.max - len as u64
    }

    /// The file was closed, and an attempt made to move it aside and to open
    /// the live file again. A failed rotation is not worth losing the line over:
    /// whatever file could be opened is the one that is written to.
    pub fn after_rotation(&mut self, renamed: bool, reopened: bool)
        ensures
            *final(self) == old(self).rotated(renamed, reopened),
    {
        self.open = reopened;
        if renamed && reopened {
            self.written = 0;
        }
    }

    /// `n` bytes were written, or, with no file to write to, dropped.
    pub fn wrote(&mut self, n: usize)
        requires
            old(self).written + n <= u64::MAX,
        ensures
            *final(self) == old(self).grown(n),
    {
        self.written = self.written + n as u64;
    }
}

/// A log of this size is too large to be added to; `None` where there is none.
pub open spec fn too_large(len: Option<u64>, max_bytes: u64) -> bool {
    len matches Some(n) && n > max_bytes
}

/// Is a log that was left behind too large to be added to? A log that is not
/// there is not.
pub fn rotate_log_if_large(len: Option<u64>, max_bytes: u64) -> (r: bool)
    ensures
        r == too_large(len, max_bytes),
{
    match len {
        Some(n) => n > max_bytes,
        None => false,
    }
}

/// The log after a line of `len` bytes, where rotating works.
pub open spec fn after_line(log: RotatingLog, len: usize) -> RotatingLog {
    if log.overflows(len) {
        log.rotated(true, true).grown(len)
    } else {
        log.grown(len)
    }
}

/// The live file never passes its limit, for as long as lines fit it at all,
/// and the line that makes it rotate is in it afterwards.
pub proof fn the_live_file_keeps_its_limit(log: RotatingLog, len: usize)
    requires
        len <= log.max,
    ensures
        after_line(log, len).written <= log.max,
        log.overflows(len) ==> after_line(log, len).written == len,
        !log.overflows(len) ==> after_line(log, len).written == log.written + len,
{
}

/// The log after so many lines, where rotating works.
pub open spec fn after_lines(log: RotatingLog, lines: Seq<usize>) -> RotatingLog
    decreases lines.len(),
{
    if lines.len() == 0 {
        log
    } else {
        after_line(after_lines(log, lines.drop_last()), lines.last())
    }
}

/// However long a run lasts, its log does not outgrow the limit.
pub proof fn a_long_run_stays_within_its_limit(log: RotatingLog, lines: Seq<usize>)
    requires
        log.written <= log.max,
        forall|i: int| 0 <= i < lines.len() ==> #[trigger] lines[i] <= log.max,
    ensures
        after_lines(log, lines).written <= log.max,
        after_lines(log, lines).max == log.max,
    decreases lines.len(),
{
    if lines.len() > 0 {
        let rest = lines.drop_last();
        assert forall|i: int| 0 <= i < rest.len() implies #[trigger] rest[i] <= log.max by {
            assert(rest[i] == lines[i]);
        }
        a_long_run_stays_within_its_limit(log, rest);
        assert(lines[lines.len() - 1] <= log.max);
        the_live_file_keeps_its_limit(after_lines(log, rest), lines.last());
    }
}

/// What a file already held counts towards the limit.
pub proof fn an_existing_file_counts(existing: u64, max: u64, len: usize)
    ensures
        (RotatingLog { written: existing, max, open: true }).overflows(len) == (existing + len
            > max),
        RotatingLog::opened(Some(existing), max) == (RotatingLog {
            written: existing,
            max,
            open: true,
        }),
        RotatingLog::opened(None, max) == (RotatingLog { written: 0, max, open: true }),
{
}

/// A line makes the log rotate exactly when it would take the file past its limit, which
/// is five megabytes.
pub proof fn a_log_rotates_only_when_it_must(log: RotatingLog, len: usize)
    ensures
        log.overflows(len) <==> log.written + len > log.max,
        MAX_LOG_BYTES == 5_242_880,
{
}

/// A rotation that worked starts an empty file; one that did not goes on counting what is
/// there; and what is open afterwards is whatever could be opened.
pub proof fn a_failed_rotation_keeps_counting(log: RotatingLog, renamed: bool, reopened: bool)
    ensures
        log.rotated(true, true).written == 0,
        !(renamed && reopened) ==> log.rotated(renamed, reopened).written == log.written,
        log.rotated(renamed, reopened).open == reopened,
        log.rotated(renamed, reopened).max == log.max,
{
}

/// What is written is counted, byte for byte.
pub proof fn what_is_written_counts(log: RotatingLog, n: usize)
    requires
        log.written + n <= u64::MAX,
    ensures
        log.grown(n).written == log.written + n,
        log.grown(n).max == log.max,
        log.grown(n).open == log.open,
{
}

/// A log that was left behind is moved aside exactly when it is larger than allowed; one
/// that is not there never is.
pub proof fn a_large_log_is_moved_aside(n: u64, max_bytes: u64)
    ensures
        too_large(Some(n), max_bytes) <==> n > max_bytes,
        !too_large(None, max_bytes),
{
}

} // verus!
