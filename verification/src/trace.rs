//! Snapshots of the CPU for a trace of a run, and their log lines.

use vstd::prelude::*;
use vstd::string::StrSliceExecFns;
use vstd::string::StringExecFns;

verus! {

/// What an observer sees of the CPU between two instructions.
#[derive(Debug, Clone, Copy, PartialEq, Eq)]
pub struct TraceState {
    pub pc: u16,
    pub opcode: u8,
    pub mnemonic: &'static str,
    pub register_a: u8,
    pub register_x: u8,
    pub register_y: u8,
    pub status: u8,
    pub stack_pointer: u8,
}

/// The upper-case hexadecimal digit of `n`, which is below 16.
pub open spec fn hex_char(n: u8) -> char {
    match n {
        0 => '0',
        1 => '1',
        2 => '2',
        3 => '3',
        4 => '4',
        5 => '5',
        6 => '6',
        7 => '7',
        8 => '8',
        9 => '9',
        10 => 'A',
        11 => 'B',
        12 => 'C',
        13 => 'D',
        14 => 'E',
        _ => 'F',
    }
}

/// A byte as two hexadecimal digits.
pub open spec fn hex2(byte: u8) -> Seq<char> {
    seq![hex_char(byte / 16), hex_char(byte % 16)]
}

/// A word as four hexadecimal digits.
pub open spec fn hex4(word: u16) -> Seq<char> {
    hex2((word / 256) as u8) + hex2((word % 256) as u8)
}

/// The binary digit of `byte` that is worth `weight`, a power of two.
pub open spec fn bin_char(byte: u8, weight: u8) -> char {
    if (byte / weight) % 2 == 1 {
        '1'
    } else {
        '0'
    }
}

/// A byte as eight binary digits, the highest first.
pub open spec fn bin8(byte: u8) -> Seq<char> {
    seq![
        bin_char(byte, 128),
        bin_char(byte, 64),
        bin_char(byte, 32),
        bin_char(byte, 16),
        bin_char(byte, 8),
        bin_char(byte, 4),
        bin_char(byte, 2),
        bin_char(byte, 1),
    ]
}

/// `text` filled up with spaces on the right to `width` characters; a longer
/// text stays as it is.
pub open spec fn pad_right(text: Seq<char>, width: nat) -> Seq<char> {
    if text.len() >= width {
        text
    } else {
        text + Seq::new((width - text.len()) as nat, |i: int| ' ')
    }
}

/// The log line of a snapshot:
/// `PC:HHHH OPC:HH MMM A:HH X:HH Y:HH P:BBBBBBBB SP:HH`.
pub open spec fn log_line(t: TraceState) -> Seq<char> {
    "PC:"@ + hex4(t.pc) + " OPC:"@ + hex2(t.opcode) + " "@ + pad_right(t.mnemonic@, 3) + " A:"@
        + hex2(t.register_a) + " X:"@ + hex2(t.register_x) + " Y:"@ + hex2(t.register_y) + " P:"@
        + bin8(t.status) + " SP:"@ + hex2(t.stack_pointer)
}

/// The hexadecimal digit of `n` as a string.
fn hex_digit(n: u8) -> (digit: &'static str)
    requires
        n < 16,
    ensures
        digit@ == seq![hex_char(n)],
{
    proof {
        reveal_strlit("0");
        reveal_strlit("1");
        reveal_strlit("2");
        reveal_strlit("3");
        reveal_strlit("4");
        reveal_strlit("5");
        reveal_strlit("6");
        reveal_strlit("7");
        reveal_strlit("8");
        reveal_strlit("9");
        reveal_strlit("A");
        reveal_strlit("B");
        reveal_strlit("C");
        reveal_strlit("D");
        reveal_strlit("E");
        reveal_strlit("F");
    }
    let digit: &'static str = match n {
        0 => "0",
        1 => "1",
        2 => "2",
        3 => "3",
        4 => "4",
        5 => "5",
        6 => "6",
        7 => "7",
        8 => "8",
        9 => "9",
        10 => "A",
        11 => "B",
        12 => "C",
        13 => "D",
        14 => "E",
        _ => "F",
    };
    assert(digit@ =~= seq![hex_char(n)]);
    digit
}

/// Appends `byte` as two hexadecimal digits.
fn push_hex2(line: &mut String, byte: u8)
    ensures
        final(line)@ == old(line)@ + hex2(byte),
{
    line.append(hex_digit(byte / 16));
    line.append(hex_digit(byte % 16));
    assert(line@ =~= old(line)@ + hex2(byte));
}

/// Appends the binary digit of `byte` that is worth `weight`.
fn push_bin(line: &mut String, byte: u8, weight: u8)
    requires
        weight > 0,
    ensures
        final(line)@ == old(line)@.push(bin_char(byte, weight)),
{
    proof {
        reveal_strlit("0");
        reveal_strlit("1");
    }
    if (byte / weight) % 2 == 1 {
        line.append("1");
    } else {
        line.append("0");
    }
    assert(line@ =~= old(line)@.push(bin_char(byte, weight)));
}

/// Appends `byte` as eight binary digits.
fn push_bin8(line: &mut String, byte: u8)
    ensures
        final(line)@ == old(line)@ + bin8(byte),
{
    push_bin(line, byte, 128);
    push_bin(line, byte, 64);
    push_bin(line, byte, 32);
    push_bin(line, byte, 16);
    push_bin(line, byte, 8);
    push_bin(line, byte, 4);
    push_bin(line, byte, 2);
    push_bin(line, byte, 1);
    assert(line@ =~= old(line)@ + bin8(byte));
}

/// Appends `text`, filled up with spaces to three characters.
fn push_padded(line: &mut String, text: &str)
    ensures
        final(line)@ == old(line)@ + pad_right(text@, 3),
{
    let len: usize = text.unicode_len();
    line.append(text);
    let mut written: usize = len;
    assert(line@ =~= old(line)@ + text@ + Seq::new(0, |i: int| ' '));
    while written < 3
        invariant
            len == text@.len(),
            len <= written,
            len < 3 ==> written <= 3,
            len >= 3 ==> written == len,
            line@ == old(line)@ + text@ + Seq::new((written - len) as nat, |i: int| ' '),
        decreases 3 - written,
    {
        proof {
            reveal_strlit(" ");
        }
        line.append(" ");
        written = written + 1;
        assert(line@ =~= old(line)@ + text@ + Seq::new((written - len) as nat, |i: int| ' '));
    }
    assert(line@ =~= old(line)@ + pad_right(text@, 3));
}

impl TraceState {
    /// The snapshot as one line of a trace log.
    pub fn to_log_line(&self) -> (line: String)
        ensures
            line@ == log_line(*self),
    {
        let mut line: String = String::from_str("PC:");
        push_hex2(&mut line, (self.pc / 256) as u8);
        push_hex2(&mut line, (self.pc % 256) as u8);
        assert(line@ =~= "PC:"@ + hex4(self.pc));
        line.append(" OPC:");
        push_hex2(&mut line, self.opcode);
        line.append(" ");
        push_padded(&mut line, self.mnemonic);
        line.append(" A:");
        push_hex2(&mut line, self.register_a);
        line.append(" X:");
        push_hex2(&mut line, self.register_x);
        line.append(" Y:");
        push_hex2(&mut line, self.register_y);
        line.append(" P:");
        push_bin8(&mut line, self.status);
        line.append(" SP:");
        push_hex2(&mut line, self.stack_pointer);
        line
    }
}

} // verus!
