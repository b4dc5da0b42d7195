//! Boot-to-first-output path of a small kernel: zeroing of the
//! uninitialized-data region, the console channel and its two text entry
//! points, and the leveled logger that renders colored records on top of it.

pub mod boot;
pub mod console;
pub mod digits;
pub mod exercise;
pub mod logging;

use vstd::prelude::*;
use crate::boot::{clear_bss, zeroed_range};
use crate::console::codes_of;
use crate::logging::{init, record_line, InitError, LevelFilter, Logger, Severity};

verus! {

/// The console output of a successful start of day: the greeting line, then
/// an Info record and an Error record.
pub open spec fn start_of_day_output() -> Seq<usize> {
    codes_of("Hello World!"@.push('\n'))
        + codes_of(record_line(Severity::Info, "test"@).push('\n'))
        + codes_of(record_line(Severity::Error, "error!"@).push('\n'))
}

/// The start-of-day sequence, up to the output it produces: zeroes the
/// uninitialized-data region `[sbss, ebss)` of `memory`, registers `logger`,
/// and returns the character-output codes of the greeting and the two
/// records. Sending them and halting afterwards is the caller's part.
/// A logger that was registered already is a configuration fault: it is
/// reported as an error, with the region zeroed and the logger unchanged.
pub fn rust_main(memory: &mut [u8], sbss: usize, ebss: usize, logger: &mut Logger) -> (r: Result<
    Vec<usize>,
    InitError,
>)
    requires
        sbss <= ebss <= old(memory)@.len(),
    ensures
        final(memory)@ == zeroed_range(old(memory)@, sbss as int, ebss as int),
        old(logger).is_registered_spec() ==> r == Err::<Vec<usize>, InitError>(
            InitError::AlreadyRegistered,
        ) && *final(logger) == *old(logger),
        !old(logger).is_registered_spec() ==> r is Ok && r->Ok_0@ == start_of_day_output()
            && final(logger).is_registered_spec() && final(logger).max_level_spec()
            == LevelFilter::Trace,
{
    clear_bss(memory, sbss, ebss);
    match init(logger) {
        Err(e) => Err(e),
        Ok(()) => {
            let mut out = crate::console::println("Hello World!");
            let mut info = logger.record(Severity::Info, "test");
            out.append(&mut info);
            let mut error = logger.record(Severity::Error, "error!");
            out.append(&mut error);
            Ok(out)
        },
    }
}

} // verus!
