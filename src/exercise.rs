//! Diagnostic report of where the link step placed the program's sections.

use vstd::prelude::*;
use crate::console::{chars_of, codes_of};
use crate::digits::{prefixed_hex, push_prefixed_hex};
use crate::logging::{record_line, LevelFilter, Logger, Severity};

verus! {

/// The message that reports the section `name` as the address range
/// `[start, end)`: `<name> [0x<start>, 0x<end>)`.
pub open spec fn region_message(name: Seq<char>, start: nat, end: nat) -> Seq<char> {
    name + seq![' ', '['] + prefixed_hex(start) + seq![',', ' '] + prefixed_hex(end) + seq![')']
}

/// The console output of the report through `logger`: the code section at
/// Info, the read-only data at Debug, the data section at Error, each one
/// only if it reaches the sink.
pub open spec fn mem_layout_output(
    logger: Logger,
    stext: nat,
    etext: nat,
    srodata: nat,
    erodata: nat,
    sdata: nat,
    edata: nat,
) -> Seq<usize> {
    logger.emitted(Severity::Info, region_message(".text"@, stext, etext))
        + logger.emitted(Severity::Debug, region_message(".rodata"@, srodata, erodata))
        + logger.emitted(Severity::Error, region_message(".data"@, sdata, edata))
}

/// The same output when every record reaches the sink: three rendered lines.
pub open spec fn mem_layout_lines(
    stext: nat,
    etext: nat,
    srodata: nat,
    erodata: nat,
    sdata: nat,
    edata: nat,
) -> Seq<usize> {
    codes_of(record_line(Severity::Info, region_message(".text"@, stext, etext)).push('\n'))
        + codes_of(record_line(Severity::Debug, region_message(".rodata"@, srodata, erodata)).push('\n'))
        + codes_of(record_line(Severity::Error, region_message(".data"@, sdata, edata)).push('\n'))
}

/// Renders the message for the section `name` spanning `[start, end)`.
pub fn region_text(name: &str, start: usize, end: usize) -> (r: Vec<char>)
    ensures
        r@ == region_message(name@, start as nat, end as nat),
{
    let mut out = chars_of(name);
    out.push(' ');
    out.push('[');
    push_prefixed_hex(&mut out, start);
    out.push(',');
    out.push(' ');
    push_prefixed_hex(&mut out, end);
    out.push(')');
    assert(out@ =~= region_message(name@, start as nat, end as nat));
    out
}

/// Reports the bounds of the code, read-only data and data sections through
/// `logger`, and returns the character-output codes of the records that reach
/// it: none before it is registered, all three once it admits every severity.
pub fn print_mem_layout(
    logger: &Logger,
    stext: usize,
    etext: usize,
    srodata: usize,
    erodata: usize,
    sdata: usize,
    edata: usize,
) -> (r: Vec<usize>)
    ensures
        r@ == mem_layout_output(
            *logger,
            stext as nat,
            etext as nat,
            srodata as nat,
            erodata as nat,
            sdata as nat,
            edata as nat,
        ),
        !logger.is_registered_spec() ==> r@ == Seq::<usize>::empty(),
        logger.is_registered_spec() && logger.max_level_spec() == LevelFilter::Trace ==> r@
            == mem_layout_lines(
            stext as nat,
            etext as nat,
            srodata as nat,
            erodata as nat,
            sdata as nat,
            edata as nat,
        ),
{
    let text = region_text(".text", stext, etext);
    let mut out = logger.dispatch(Severity::Info, text.as_slice());
    let rodata = region_text(".rodata", srodata, erodata);
    let mut second = logger.dispatch(Severity::Debug, rodata.as_slice());
    out.append(&mut second);
    let data = region_text(".data", sdata, edata);
    let mut third = logger.dispatch(Severity::Error, data.as_slice());
    out.append(&mut third);
    assert(!logger.is_registered_spec() ==> out@ =~= Seq::<usize>::empty());
    out
}

} // verus!
