//! The diagnostic serial line: what is written to it, byte for byte, and how
//! the polling driver decides its next port access.
//!
//! The functions that format append to a buffer of bytes. Sending a byte is
//! a matter of port accesses, which the caller performs; this module says
//! which.

use vstd::prelude::*;
use vstd::string::StringSliceAdditionalSpecFns;

verus! {

/// The base I/O port of the serial device.
pub const SERIAL_BASE: u32 = 0x3f8;

/// The transmit register: a byte written here goes out on the line.
pub const SERIAL_DATA: u32 = 0x3f8;

/// The interrupt-enable register.
pub const SERIAL_INTERRUPT_ENABLE: u32 = 0x3f9;

/// The FIFO control register.
pub const SERIAL_FIFO_CONTROL: u32 = 0x3fa;

/// The line control register.
pub const SERIAL_LINE_CONTROL: u32 = 0x3fb;

/// The modem control register.
pub const SERIAL_MODEM_CONTROL: u32 = 0x3fc;

/// The line status register.
pub const SERIAL_LINE_STATUS: u32 = 0x3fd;

/// The bit of the line status that says the transmit buffer is empty.
pub const TRANSMIT_EMPTY: u8 = 0x20;

/// Eight data bits, no parity, one stop bit.
pub const LINE_CONTROL_8N1: u8 = 0x3;

/// Data terminal ready together with request to send.
pub const DATA_TERMINAL_READY_AND_REQUEST_TO_SEND: u8 = 0x3;

/// The line feed that ends every diagnostic line.
pub const NEWLINE: u8 = 0x0a;

/// One access to a byte-wide I/O port.
#[derive(Clone, Copy, Debug, PartialEq, Eq, Structural)]
pub enum PortAccess {
    /// Read the byte at `port`.
    Read { port: u32 },
    /// Write `value` to `port`.
    Write { port: u32, value: u8 },
}

/// The register writes that configure the serial device, in order.
pub open spec fn serial_setup() -> Seq<PortAccess> {
    seq![
        PortAccess::Write { port: 0x3f9, value: 0 },
        PortAccess::Write { port: 0x3fa, value: 0 },
        PortAccess::Write { port: 0x3fb, value: 3 },
        PortAccess::Write { port: 0x3fc, value: 3 },
    ]
}

/// Whether the line status says that the transmit buffer is empty.
pub open spec fn transmit_ready(line_status: u8) -> bool {
    line_status & 0x20 != 0
}

/// The ASCII character of one hexadecimal digit, in lower case.
pub open spec fn hex_digit(nibble: u8) -> u8 {
    if nibble < 10 {
        (nibble + 0x30) as u8
    } else {
        (nibble - 10 + 0x61) as u8
    }
}

/// The two hexadecimal digits of a byte, the high one first.
pub open spec fn hex_byte(byte: u8) -> Seq<u8> {
    seq![hex_digit((byte >> 4) & 0xf), hex_digit(byte & 0xf)]
}

/// The byte of `n` that starts at bit `shift`.
pub open spec fn byte_at(n: u64, shift: u64) -> u8 {
    ((n >> shift) & 0xff) as u8
}

/// The eight hexadecimal digits of a 32-bit value, most significant first.
pub open spec fn hex_u32(n: u32) -> Seq<u8> {
    hex_byte(byte_at(n as u64, 24)) + hex_byte(byte_at(n as u64, 16)) + hex_byte(
        byte_at(n as u64, 8),
    ) + hex_byte(byte_at(n as u64, 0))
}

/// The sixteen hexadecimal digits of a 64-bit value, most significant first.
pub open spec fn hex_u64(n: u64) -> Seq<u8> {
    hex_byte(byte_at(n, 56)) + hex_byte(byte_at(n, 48)) + hex_byte(byte_at(n, 40)) + hex_byte(
        byte_at(n, 32),
    ) + hex_byte(byte_at(n, 24)) + hex_byte(byte_at(n, 16)) + hex_byte(byte_at(n, 8)) + hex_byte(
        byte_at(n, 0),
    )
}

/// A labelled value on a line of its own: the label, a colon, a space, the
/// digits and a line feed.
pub open spec fn labelled_line(label: Seq<u8>, digits: Seq<u8>) -> Seq<u8> {
    label + seq![0x3au8, 0x20u8] + digits + seq![0x0au8]
}

/// The four register writes that bring the serial device up: interrupts
/// off, FIFO off, 8N1, data terminal ready and request to send.
pub fn init_tdx_serial_port() -> (accesses: Vec<PortAccess>)
    ensures
        accesses@ == serial_setup(),
{
    let mut accesses: Vec<PortAccess> = Vec::new();
    accesses.push(PortAccess::Write { port: SERIAL_INTERRUPT_ENABLE, value: 0 });
    accesses.push(PortAccess::Write { port: SERIAL_FIFO_CONTROL, value: 0 });
    accesses.push(PortAccess::Write { port: SERIAL_LINE_CONTROL, value: LINE_CONTROL_8N1 });
    accesses.push(
        PortAccess::Write {
            port: SERIAL_MODEM_CONTROL,
            value: DATA_TERMINAL_READY_AND_REQUEST_TO_SEND,
        },
    );
    assert(accesses@ =~= serial_setup());
    accesses
}

/// The next port access on the way to sending `c`, given the line status
/// that was read last: the write of `c` once the transmit buffer is empty,
/// until then another read of the line status.
pub fn write_u8_to_serial(c: u8, line_status: u8) -> (access: PortAccess)
    ensures
        transmit_ready(line_status) ==> access == (PortAccess::Write { port: 0x3f8, value: c }),
        !transmit_ready(line_status) ==> access == (PortAccess::Read { port: 0x3fd }),
{
    if (line_status & TRANSMIT_EMPTY) != 0 {
        PortAccess::Write { port: SERIAL_DATA, value: c }
    } else {
        PortAccess::Read { port: SERIAL_LINE_STATUS }
    }
}

/// Appends the character of one hexadecimal digit.
pub fn write_single_hex(out: &mut Vec<u8>, c: u8)
    requires
        c < 16,
    ensures
        final(out)@ == old(out)@.push(hex_digit(c)),
{
    if c < 0xa {
        out.push(c + 0x30);
    } else {
        out.push(c - 10 + 0x61);
    }
}

/// Appends the two hexadecimal digits of a byte, the high one first.
pub fn write_byte_hex(out: &mut Vec<u8>, c: u8)
    ensures
        final(out)@ == old(out)@ + hex_byte(c),
{
    let char1: u8 = (c >> 4) & 0xF;
    let char2: u8 = c & 0xF;
    assert((c >> 4) & 0xF < 16 && c & 0xF < 16) by (bit_vector);
    write_single_hex(out, char1);
    write_single_hex(out, char2);
    assert(out@ =~= old(out)@ + hex_byte(c));
}

/// Appends the eight hexadecimal digits of `n` and a line feed.
pub fn write_u32(out: &mut Vec<u8>, n: u32)
    ensures
        final(out)@ == old(out)@ + hex_u32(n) + seq![0x0au8],
{
    let ghost start = out@;
    let wide: u64 = n as u64;
    write_byte_hex(out, byte_of(wide, 24));
    write_byte_hex(out, byte_of(wide, 16));
    write_byte_hex(out, byte_of(wide, 8));
    write_byte_hex(out, byte_of(wide, 0));
    assert(out@ =~= start + hex_u32(n));
    out.push(NEWLINE);
    assert(out@ =~= start + hex_u32(n) + seq![0x0au8]);
}

/// The byte of `n` that starts at bit `shift`.
fn byte_of(n: u64, shift: u64) -> (byte: u8)
    requires
        shift < 64,
    ensures
        byte == byte_at(n, shift),
{
    assert((n >> shift) & 0xff < 256) by (bit_vector);
    ((n >> shift) & 0xff) as u8
}

/// Appends the sixteen hexadecimal digits of `n` and a line feed.
pub fn write_u64(out: &mut Vec<u8>, n: u64)
    ensures
        final(out)@ == old(out)@ + hex_u64(n) + seq![0x0au8],
{
    let ghost start = out@;
    write_byte_hex(out, byte_of(n, 56));
    write_byte_hex(out, byte_of(n, 48));
    write_byte_hex(out, byte_of(n, 40));
    write_byte_hex(out, byte_of(n, 32));
    write_byte_hex(out, byte_of(n, 24));
    write_byte_hex(out, byte_of(n, 16));
    write_byte_hex(out, byte_of(n, 8));
    write_byte_hex(out, byte_of(n, 0));
    assert(out@ =~= start + hex_u64(n));
    out.push(NEWLINE);
    assert(out@ =~= start + hex_u64(n) + seq![0x0au8]);
}

/// Appends the bytes of `s` as they are.
fn write_bytes(out: &mut Vec<u8>, s: &str)
    ensures
        final(out)@ == old(out)@ + s.spec_bytes(),
{
    let bytes = s.as_bytes();
    let ghost start = out@;
    let mut i: usize = 0;
    while i < bytes.len()
        invariant
            i <= bytes@.len(),
            bytes@ == s.spec_bytes(),
            out@ == start + bytes@.subrange(0, i as int),
        decreases bytes@.len() - i,
    {
        out.push(bytes[i]);
        i += 1;
        assert(out@ =~= start + bytes@.subrange(0, i as int));
    }
    assert(bytes@.subrange(0, i as int) =~= bytes@);
}

/// Appends the bytes of `s` and a line feed.
pub fn write_str(out: &mut Vec<u8>, s: &str)
    ensures
        final(out)@ == old(out)@ + s.spec_bytes() + seq![0x0au8],
{
    write_bytes(out, s);
    out.push(NEWLINE);
    assert(out@ =~= old(out)@ + s.spec_bytes() + seq![0x0au8]);
}

/// Appends a labelled 32-bit value on a line of its own.
pub fn debug_u32_variable(out: &mut Vec<u8>, s: &str, val: u32)
    ensures
        final(out)@ == old(out)@ + labelled_line(s.spec_bytes(), hex_u32(val)),
{
    write_bytes(out, s);
    out.push(0x3a);
    out.push(0x20);
    write_u32(out, val);
    assert(out@ =~= old(out)@ + labelled_line(s.spec_bytes(), hex_u32(val)));
}

/// Appends a labelled 64-bit value on a line of its own.
pub fn debug_u64_variable(out: &mut Vec<u8>, s: &str, val: u64)
    ensures
        final(out)@ == old(out)@ + labelled_line(s.spec_bytes(), hex_u64(val)),
{
    write_bytes(out, s);
    out.push(0x3a);
    out.push(0x20);
    write_u64(out, val);
    assert(out@ =~= old(out)@ + labelled_line(s.spec_bytes(), hex_u64(val)));
}

} // verus!
