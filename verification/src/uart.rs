//! The decisions of the serial bridge: which interrupt lines it asks for and
//! in what order, how it rewrites the channel's control flags, what it makes
//! of each emitted signal, and when it connects at all.
//!
//! The foreign calls that carry these values to and from the engine live
//! outside the library; they pass the engine's answers in as plain values.

use vstd::prelude::*;

verus! {

/// The names of the harness-owned interrupt source's two sub-lines.  The
/// engine indexes sub-lines positionally, so the input line's name must
/// stand first and the output line's second.
pub fn irq_names() -> (names: Vec<&'static str>)
    ensures
        names@.len() == 2,
        names@[0]@ == "8<uart_pty.in"@,
        names@[1]@ == "8>uart_pty.out"@,
{
    let mut names: Vec<&'static str> = Vec::new();
    names.push("8<uart_pty.in");
    names.push("8>uart_pty.out");
    names
}

/// Clears the engine's built-in console-echo bit out of a channel's control
/// flags, so that bridged output appears exactly once.  Every other flag is
/// left as it was.
pub fn clear_stdio_echo(flags: u32, stdio_mask: u32) -> (cleared: u32)
    ensures
        cleared == flags & !stdio_mask,
        cleared & stdio_mask == 0,
        cleared & !stdio_mask == flags & !stdio_mask,
{
    let cleared = flags & !stdio_mask;
    proof {
        assert((flags & !stdio_mask) & stdio_mask == 0) by (bit_vector);
        assert((flags & !stdio_mask) & !stdio_mask == flags & !stdio_mask) by (bit_vector);
    }
    cleared
}

/// A serial output interrupt delivers the emitted byte in the low eight bits
/// of the signal value; the rest of the value is discarded.
pub fn signal_byte(value: u32) -> (byte: u8)
    ensures
        byte as u32 == value & 0xff,
{
    proof {
        assert(value & 0xff <= 0xff) by (bit_vector);
    }
    (value & 0xff) as u8
}

/// The bridge connects the engine's output line to the harness's interrupt
/// source only when both of the channel's lines resolved; otherwise it stays
/// inert instead of failing the whole handle.
pub fn bridge_active(output_resolved: bool, input_resolved: bool) -> (active: bool)
    ensures
        active == (output_resolved && input_resolved),
{
    output_resolved && input_resolved
}

} // verus!
