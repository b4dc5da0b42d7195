//! The leveled logger: a single process-wide sink, registered once, that
//! renders every record as one colored line on the console channel.

use vstd::prelude::*;
use crate::console::{chars_of, codes_of, write_chars};
use crate::digits::{decimal, push_decimal};

verus! {

/// Severity of a record, from the most to the least severe.
#[derive(Clone, Copy, PartialEq, Eq, Structural, Debug)]
pub enum Severity {
    Error,
    Warn,
    Info,
    Debug,
    Trace,
}

/// The least severe level a registered sink admits; `Off` admits none.
#[derive(Clone, Copy, PartialEq, Eq, Structural, Debug)]
pub enum LevelFilter {
    Off,
    Error,
    Warn,
    Info,
    Debug,
    Trace,
}

/// Whether `filter` lets records of severity `level` through: `Off` lets
/// none through, and each other filter lets through its own severity and
/// every more severe one.
pub open spec fn admits(filter: LevelFilter, level: Severity) -> bool {
    let rank = match level {
        Severity::Error => 1int,
        Severity::Warn => 2int,
        Severity::Info => 3int,
        Severity::Debug => 4int,
        Severity::Trace => 5int,
    };
    let bound = match filter {
        LevelFilter::Off => 0int,
        LevelFilter::Error => 1int,
        LevelFilter::Warn => 2int,
        LevelFilter::Info => 3int,
        LevelFilter::Debug => 4int,
        LevelFilter::Trace => 5int,
    };
    rank <= bound
}

/// Terminal color code of each severity.
pub open spec fn color_of(level: Severity) -> nat {
    match level {
        Severity::Error => 31,
        Severity::Warn => 93,
        Severity::Info => 34,
        Severity::Debug => 32,
        Severity::Trace => 90,
    }
}

/// Canonical upper-case name of each severity.
pub open spec fn name_of(level: Severity) -> Seq<char> {
    match level {
        Severity::Error => "ERROR"@,
        Severity::Warn => "WARN"@,
        Severity::Info => "INFO"@,
        Severity::Debug => "DEBUG"@,
        Severity::Trace => "TRACE"@,
    }
}

/// The color code of each severity, as it appears in a rendered record.
pub proof fn lemma_color_text(level: Severity)
    ensures
        decimal(color_of(level)) == match level {
            Severity::Error => "31"@,
            Severity::Warn => "93"@,
            Severity::Info => "34"@,
            Severity::Debug => "32"@,
            Severity::Trace => "90"@,
        },
{
    reveal_strlit("31");
    reveal_strlit("93");
    reveal_strlit("34");
    reveal_strlit("32");
    reveal_strlit("90");
    reveal_with_fuel(decimal, 2);
    assert(decimal(color_of(level)) =~= match level {
        Severity::Error => "31"@,
        Severity::Warn => "93"@,
        Severity::Info => "34"@,
        Severity::Debug => "32"@,
        Severity::Trace => "90"@,
    });
}

/// One rendered record, without its line end:
/// `ESC[<color>m[<NAME>] - <message>ESC[0m`.
pub open spec fn record_line(level: Severity, message: Seq<char>) -> Seq<char> {
    seq!['\u{1b}', '['] + decimal(color_of(level)) + seq!['m', '['] + name_of(level)
        + seq![']', ' ', '-', ' '] + message + seq!['\u{1b}', '[', '0', 'm']
}

/// The color code that marks records of severity `level`.
pub fn log_level_to_color(level: Severity) -> (r: usize)
    ensures
        r == color_of(level),
{
    match level {
        Severity::Error => 31,
        Severity::Debug => 32,
        Severity::Info => 34,
        Severity::Warn => 93,
        Severity::Trace => 90,
    }
}

/// Relies on log::Level::as_str: the upper-case name of the level.
#[verifier::external_body]
fn level_name(level: Severity) -> (r: &'static str)
    ensures
        r@ == name_of(level),
{
    let l = match level {
        Severity::Error => log::Level::Error,
        Severity::Warn => log::Level::Warn,
        Severity::Info => log::Level::Info,
        Severity::Debug => log::Level::Debug,
        Severity::Trace => log::Level::Trace,
    };
    l.as_str()
}

/// Relies on log::set_max_level: stores the log facade's global filter.
#[verifier::external_body]
fn set_max_level(filter: LevelFilter) {
    log::set_max_level(
        match filter {
            LevelFilter::Off => log::LevelFilter::Off,
            LevelFilter::Error => log::LevelFilter::Error,
            LevelFilter::Warn => log::LevelFilter::Warn,
            LevelFilter::Info => log::LevelFilter::Info,
            LevelFilter::Debug => log::LevelFilter::Debug,
            LevelFilter::Trace => log::LevelFilter::Trace,
        },
    )
}

/// Renders one record as the characters of its line, without the line end.
pub fn format_record(level: Severity, message: &[char]) -> (r: Vec<char>)
    ensures
        r@ == record_line(level, message@),
{
    let mut out: Vec<char> = Vec::new();
    out.push('\u{1b}');
    out.push('[');
    push_decimal(&mut out, log_level_to_color(level));
    out.push('m');
    out.push('[');
    let mut name = chars_of(level_name(level));
    out.append(&mut name);
    out.push(']');
    out.push(' ');
    out.push('-');
    out.push(' ');
    let mut i: usize = 0;
    let ghost head = out@;
    while i < message.len()
        invariant
            i <= message@.len(),
            out@ == head + message@.subrange(0, i as int),
        decreases message@.len() - i,
    {
        out.push(message[i]);
        i = i + 1;
        assert(out@ =~= head + message@.subrange(0, i as int));
    }
    out.push('\u{1b}');
    out.push('[');
    out.push('0');
    out.push('m');
    assert(message@.subrange(0, message@.len() as int) =~= message@);
    assert(out@ =~= record_line(level, message@));
    out
}

/// Why a registration was refused.
#[derive(Clone, Copy, PartialEq, Eq, Structural, Debug)]
pub enum InitError {
    /// A sink was registered before: registration happens once per process.
    AlreadyRegistered,
}

/// The process-wide log sink together with its one-time registration guard.
/// It starts unregistered, admitting nothing; once registered it stays so,
/// with its filter fixed.
pub struct Logger {
    registered: bool,
    max_level: LevelFilter,
}

impl Logger {
    /// A sink that is not registered yet.
    pub fn new() -> (r: Logger)
        ensures
            !r.is_registered_spec(),
            r.max_level_spec() == LevelFilter::Off,
    {
        Logger { registered: false, max_level: LevelFilter::Off }
    }

    pub closed spec fn is_registered_spec(&self) -> bool {
        self.registered
    }

    pub closed spec fn max_level_spec(&self) -> LevelFilter {
        self.max_level
    }

    /// Whether a record of severity `level` emitted by the application
    /// reaches this sink: only once it is registered, and only within its
    /// filter.
    pub open spec fn dispatches(&self, level: Severity) -> bool {
        self.is_registered_spec() && admits(self.max_level_spec(), level)
    }

    /// What the application's record of severity `level` and text `message`
    /// puts on the console: the rendered line and a newline when the record
    /// reaches the sink, nothing otherwise.
    pub open spec fn emitted(&self, level: Severity, message: Seq<char>) -> Seq<usize> {
        if self.dispatches(level) {
            codes_of(record_line(level, message).push('\n'))
        } else {
            Seq::<usize>::empty()
        }
    }

    /// Whether a record of severity `level` would reach this sink.
    pub fn dispatches_level(&self, level: Severity) -> (r: bool)
        ensures
            r == self.dispatches(level),
    {
        self.registered && match self.max_level {
            LevelFilter::Off => false,
            LevelFilter::Error => level == Severity::Error,
            LevelFilter::Warn => level == Severity::Error || level == Severity::Warn,
            LevelFilter::Info => !(level == Severity::Debug || level == Severity::Trace),
            LevelFilter::Debug => level != Severity::Trace,
            LevelFilter::Trace => true,
        }
    }

    /// Whether the sink has been registered.
    pub fn is_registered(&self) -> (r: bool)
        ensures
            r == self.is_registered_spec(),
    {
        self.registered
    }

    /// The least severe level the sink admits.
    pub fn max_level(&self) -> (r: LevelFilter)
        ensures
            r == self.max_level_spec(),
    {
        self.max_level
    }

    /// Every record is admitted: the sink filters nothing.
    pub fn enabled(&self, level: Severity) -> (r: bool)
        ensures
            r,
    {
        true
    }

    /// The character-output codes for one record: its rendered line and a
    /// single newline.
    pub fn log(&self, level: Severity, message: &[char]) -> (r: Vec<usize>)
        ensures
            r@ == codes_of(record_line(level, message@).push('\n')),
    {
        if self.enabled(level) {
            let mut line = format_record(level, message);
            line.push('\n');
            write_chars(line.as_slice())
        } else {
            Vec::new()
        }
    }

    /// A record emitted by the application, its message already rendered:
    /// it is handed to `log` when it reaches the sink, and dropped otherwise.
    pub fn dispatch(&self, level: Severity, message: &[char]) -> (r: Vec<usize>)
        ensures
            r@ == self.emitted(level, message@),
            !self.is_registered_spec() ==> r@ == Seq::<usize>::empty(),
    {
        if self.dispatches_level(level) {
            self.log(level, message)
        } else {
            Vec::new()
        }
    }

    /// `dispatch` for a message given as text.
    pub fn record(&self, level: Severity, message: &str) -> (r: Vec<usize>)
        ensures
            r@ == self.emitted(level, message@),
            !self.is_registered_spec() ==> r@ == Seq::<usize>::empty(),
    {
        let m = chars_of(message);
        self.dispatch(level, m.as_slice())
    }

    /// Nothing is buffered, so flushing sends nothing and changes nothing.
    pub fn flush(&self) -> (r: Vec<usize>)
        ensures
            r@ == Seq::<usize>::empty(),
    {
        Vec::new()
    }
}

/// Registers `logger` as the process-wide sink, admitting every severity.
/// A second registration of the same `Logger` is refused and leaves the
/// registration as it was. The guard lives in the `Logger` value: that the
/// process registers only once rests on the caller keeping a single `Logger`
/// for the whole process (a fresh one from `Logger::new` starts unregistered).
pub fn init(logger: &mut Logger) -> (r: Result<(), InitError>)
    ensures
        old(logger).is_registered_spec() ==> r == Err::<(), InitError>(InitError::AlreadyRegistered)
            && *final(logger) == *old(logger),
        !old(logger).is_registered_spec() ==> r is Ok && final(logger).is_registered_spec()
            && final(logger).max_level_spec() == LevelFilter::Trace,
{
    if logger.registered {
        Err(InitError::AlreadyRegistered)
    } else {
        logger.registered = true;
        logger.max_level = LevelFilter::Trace;
        set_max_level(LevelFilter::Trace);
        Ok(())
    }
}

} // verus!
