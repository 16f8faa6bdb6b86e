//! How deeply the structure of a TOML text can nest.
//!
//! The scan follows the text byte by byte as a TOML tokenizer would: it knows
//! comments and the four kinds of string, and looks at brackets, braces and
//! periods only outside them. What it measures bounds the depth of the value
//! that the text denotes, so that a text can be judged before it is parsed.

use vstd::prelude::*;
use vstd::string::StringSliceAdditionalSpecFns;

verus! {

/// The greatest weight with which a text is handed to the parser.
pub const MAX_NESTING: usize = 128;

/// Where in the text the scan stands.
#[derive(Debug, Clone, Copy, PartialEq, Eq, Structural)]
pub enum Mode {
    /// Outside strings and comments.
    Code,
    /// Behind a `#`, up to the end of the line.
    Comment,
    /// Behind one delimiter: a string has begun.
    Opened { basic: bool },
    /// Behind two delimiters: an empty string, or the start of a block.
    OpenedTwice { basic: bool },
    /// Inside a string of one line.
    Line { basic: bool },
    /// Behind a backslash inside a basic string of one line.
    LineEscape,
    /// Inside a block string, behind `run` delimiters in a row (0 to 2).
    Block { basic: bool, run: u8 },
    /// Behind a backslash inside a basic block string.
    BlockEscape,
    /// Behind the three delimiters that close a block; up to two more
    /// belong to the string, and `extra` tells that one has been read.
    Closed { basic: bool, extra: bool },
}

/// The delimiter of a basic string (`"`) or of a literal one (`'`).
pub open spec fn delimiter(basic: bool) -> u8 {
    if basic {
        0x22
    } else {
        0x27
    }
}

/// Whether `byte`, met in `mode`, stands outside strings and comments.
pub open spec fn in_code(mode: Mode, byte: u8) -> bool {
    match mode {
        Mode::Code => true,
        Mode::OpenedTwice { basic } => byte != delimiter(basic),
        Mode::Closed { basic, extra } => byte != delimiter(basic),
        _ => false,
    }
}

/// The mode behind a byte that stands outside strings and comments.
pub open spec fn code_mode(byte: u8) -> Mode {
    if byte == 0x23 {
        Mode::Comment
    } else if byte == 0x22 {
        Mode::Opened { basic: true }
    } else if byte == 0x27 {
        Mode::Opened { basic: false }
    } else {
        Mode::Code
    }
}

/// The mode behind `byte`, met in `mode`.
pub open spec fn next_mode(mode: Mode, byte: u8) -> Mode {
    match mode {
        Mode::Code => code_mode(byte),
        Mode::Comment => if byte == 0x0a {
            Mode::Code
        } else {
            Mode::Comment
        },
        Mode::Opened { basic } => if byte == delimiter(basic) {
            Mode::OpenedTwice { basic }
        } else if basic && byte == 0x5c {
            Mode::LineEscape
        } else if byte == 0x0a {
            Mode::Code
        } else {
            Mode::Line { basic }
        },
        Mode::OpenedTwice { basic } => if byte == delimiter(basic) {
            Mode::Block { basic, run: 0 }
        } else {
            code_mode(byte)
        },
        Mode::Line { basic } => if byte == delimiter(basic) || byte == 0x0a {
            Mode::Code
        } else if basic && byte == 0x5c {
            Mode::LineEscape
        } else {
            Mode::Line { basic }
        },
        Mode::LineEscape => Mode::Line { basic: true },
        Mode::Block { basic, run } => if byte == delimiter(basic) {
            if run >= 2 {
                Mode::Closed { basic, extra: false }
            } else {
                Mode::Block { basic, run: (run + 1) as u8 }
            }
        } else if basic && byte == 0x5c {
            Mode::BlockEscape
        } else {
            Mode::Block { basic, run: 0 }
        },
        Mode::BlockEscape => Mode::Block { basic: true, run: 0 },
        Mode::Closed { basic, extra } => if byte == delimiter(basic) {
            if extra {
                Mode::Code
            } else {
                Mode::Closed { basic, extra: true }
            }
        } else {
            code_mode(byte)
        },
    }
}

/// What the scan knows behind a prefix of the text.
///
/// `weight` is how deep a value at this place lies: one for each bracket or
/// brace that is open, and one for each period of a key on the way there.
/// `base` is the weight at which the present element began, `saved` holds
/// base and weight from before each open bracket, and `peak` is the greatest
/// weight met so far.
pub struct Scan {
    pub mode: Mode,
    pub weight: usize,
    pub base: usize,
    pub peak: usize,
    pub saved: Seq<(usize, usize)>,
}

/// One more, as far as the machine can count.
pub open spec fn bump(n: usize) -> usize {
    if n < usize::MAX {
        (n + 1) as usize
    } else {
        n
    }
}

/// The greater of two.
pub open spec fn greater(a: usize, b: usize) -> usize {
    if a >= b {
        a
    } else {
        b
    }
}

/// The scan before the first byte.
pub open spec fn start() -> Scan {
    Scan { mode: Mode::Code, weight: 0, base: 0, peak: 0, saved: Seq::empty() }
}

/// What a byte outside strings and comments does to the weight.
///
/// A bracket or brace opens a level and a period adds one. A closing bracket
/// returns to the weight from before its opening, a comma to the weight at
/// which the element began, and the end of a line outside all brackets to
/// nothing.
pub open spec fn weigh(scan: Scan, byte: u8) -> Scan {
    if byte == 0x5b || byte == 0x7b {
        Scan {
            weight: bump(scan.weight),
            base: bump(scan.weight),
            peak: greater(scan.peak, bump(scan.weight)),
            saved: scan.saved.push((scan.base, scan.weight)),
            ..scan
        }
    } else if byte == 0x5d || byte == 0x7d {
        if scan.saved.len() > 0 {
            Scan {
                weight: scan.saved.last().1,
                base: scan.saved.last().0,
                saved: scan.saved.drop_last(),
                ..scan
            }
        } else {
            Scan { weight: 0, base: 0, ..scan }
        }
    } else if byte == 0x2e {
        Scan { weight: bump(scan.weight), peak: greater(scan.peak, bump(scan.weight)), ..scan }
    } else if byte == 0x2c {
        Scan { weight: scan.base, ..scan }
    } else if byte == 0x0a && scan.saved.len() == 0 {
        Scan { weight: 0, base: 0, ..scan }
    } else {
        scan
    }
}

/// The scan behind one more byte.
pub open spec fn advance(scan: Scan, byte: u8) -> Scan {
    let weighed = if in_code(scan.mode, byte) {
        weigh(scan, byte)
    } else {
        scan
    };
    Scan { mode: next_mode(scan.mode, byte), ..weighed }
}

/// The scan behind a whole text.
pub open spec fn scan(bytes: Seq<u8>) -> Scan
    decreases bytes.len(),
{
    if bytes.len() == 0 {
        start()
    } else {
        advance(scan(bytes.drop_last()), bytes.last())
    }
}

/// The greatest weight that a text reaches.
pub open spec fn nesting_peak(bytes: Seq<u8>) -> usize {
    scan(bytes).peak
}

/// The scan as it runs.
pub struct Scanner {
    mode: Mode,
    weight: usize,
    base: usize,
    peak: usize,
    saved: Vec<(usize, usize)>,
}

impl View for Scanner {
    type V = Scan;

    closed spec fn view(&self) -> Scan {
        Scan {
            mode: self.mode,
            weight: self.weight,
            base: self.base,
            peak: self.peak,
            saved: self.saved@,
        }
    }
}

fn delimiter_of(basic: bool) -> (byte: u8)
    ensures
        byte == delimiter(basic),
{
    if basic {
        0x22
    } else {
        0x27
    }
}

fn code_mode_of(byte: u8) -> (mode: Mode)
    ensures
        mode == code_mode(byte),
{
    if byte == 0x23 {
        Mode::Comment
    } else if byte == 0x22 {
        Mode::Opened { basic: true }
    } else if byte == 0x27 {
        Mode::Opened { basic: false }
    } else {
        Mode::Code
    }
}

fn is_in_code(mode: Mode, byte: u8) -> (outside: bool)
    ensures
        outside == in_code(mode, byte),
{
    match mode {
        Mode::Code => true,
        Mode::OpenedTwice { basic } => byte != delimiter_of(basic),
        Mode::Closed { basic, extra } => byte != delimiter_of(basic),
        _ => false,
    }
}

fn next_mode_of(mode: Mode, byte: u8) -> (next: Mode)
    ensures
        next == next_mode(mode, byte),
{
    match mode {
        Mode::Code => code_mode_of(byte),
        Mode::Comment => if byte == 0x0a {
            Mode::Code
        } else {
            Mode::Comment
        },
        Mode::Opened { basic } => if byte == delimiter_of(basic) {
            Mode::OpenedTwice { basic }
        } else if basic && byte == 0x5c {
            Mode::LineEscape
        } else if byte == 0x0a {
            Mode::Code
        } else {
            Mode::Line { basic }
        },
        Mode::OpenedTwice { basic } => if byte == delimiter_of(basic) {
            Mode::Block { basic, run: 0 }
        } else {
            code_mode_of(byte)
        },
        Mode::Line { basic } => if byte == delimiter_of(basic) || byte == 0x0a {
            Mode::Code
        } else if basic && byte == 0x5c {
            Mode::LineEscape
        } else {
            Mode::Line { basic }
        },
        Mode::LineEscape => Mode::Line { basic: true },
        Mode::Block { basic, run } => if byte == delimiter_of(basic) {
            if run >= 2 {
                Mode::Closed { basic, extra: false }
            } else {
                Mode::Block { basic, run: run + 1 }
            }
        } else if basic && byte == 0x5c {
            Mode::BlockEscape
        } else {
            Mode::Block { basic, run: 0 }
        },
        Mode::BlockEscape => Mode::Block { basic: true, run: 0 },
        Mode::Closed { basic, extra } => if byte == delimiter_of(basic) {
            if extra {
                Mode::Code
            } else {
                Mode::Closed { basic, extra: true }
            }
        } else {
            code_mode_of(byte)
        },
    }
}

fn bump_of(n: usize) -> (more: usize)
    ensures
        more == bump(n),
{
    if n < usize::MAX {
        n + 1
    } else {
        n
    }
}

impl Scanner {
    /// A scan that has read nothing.
    pub fn new() -> (scanner: Scanner)
        ensures
            scanner@ == start(),
    {
        Scanner { mode: Mode::Code, weight: 0, base: 0, peak: 0, saved: Vec::new() }
    }

    /// The greatest weight met so far.
    pub fn peak(&self) -> (peak: usize)
        ensures
            peak == self@.peak,
    {
        self.peak
    }

    fn weigh(&mut self, byte: u8)
        ensures
            final(self)@ == weigh(old(self)@, byte),
    {
        if byte == 0x5b || byte == 0x7b {
            self.saved.push((self.base, self.weight));
            self.weight = bump_of(self.weight);
            self.base = self.weight;
            if self.weight > self.peak {
                self.peak = self.weight;
            }
        } else if byte == 0x5d || byte == 0x7d {
            match self.saved.pop() {
                Some(before) => {
                    self.base = before.0;
                    self.weight = before.1;
                },
                None => {
                    self.base = 0;
                    self.weight = 0;
                },
            }
        } else if byte == 0x2e {
            self.weight = bump_of(self.weight);
            if self.weight > self.peak {
                self.peak = self.weight;
            }
        } else if byte == 0x2c {
            self.weight = self.base;
        } else if byte == 0x0a && self.saved.len() == 0 {
            self.weight = 0;
            self.base = 0;
        }
    }

    /// Reads one more byte.
    pub fn advance(&mut self, byte: u8)
        ensures
            final(self)@ == advance(old(self)@, byte),
    {
        if is_in_code(self.mode, byte) {
            self.weigh(byte);
        }
        self.mode = next_mode_of(self.mode, byte);
    }
}

/// Scans `content` and returns the greatest weight that it reaches.
pub fn measure_nesting(content: &str) -> (peak: usize)
    ensures
        peak == nesting_peak(content.spec_bytes()),
{
    let bytes = content.as_bytes();
    let mut scanner = Scanner::new();
    let mut i: usize = 0;
    while i < bytes.len()
        invariant
            i <= bytes.len(),
            scanner@ == scan(bytes@.take(i as int)),
        decreases bytes.len() - i,
    {
        proof {
            assert(bytes@.take(i + 1).drop_last() == bytes@.take(i as int));
            assert(bytes@.take(i + 1).last() == bytes@[i as int]);
        }
        scanner.advance(bytes[i]);
        i += 1;
    }
    assert(bytes@.take(i as int) == bytes@);
    scanner.peak()
}

} // verus!
