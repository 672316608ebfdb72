//! How deep a text nests, measured before the text is parsed.
//!
//! A TOML parser descends once for every array inside an array, every table
//! inside a table and every dot of a key, and a text that nests without end
//! exhausts its stack. The measure taken here is read off the bytes alone:
//! the brackets and braces that are open, plus twice the dots of the key at
//! hand. Brackets and dots count wherever they stand outside a string or a
//! comment, and a string or a comment ends as early as any reading of it
//! allows, so nothing that the parser descends into goes uncounted. A text
//! of measure `m` takes the parser no deeper than `2 * m + 2`: the dots of a
//! table's header, the dots of a key and the brackets of its value add up.

use vstd::prelude::*;
use vstd::utf8::encode_utf8;

verus! {

/// The deepest measure at which a text is still parsed.
pub const MAX_NESTING: usize = 32;

/// A tab.
pub const TAB: u8 = 9;

/// A line feed.
pub const NEWLINE: u8 = 10;

/// A space, the first character that is no control character.
pub const SPACE: u8 = 32;

/// `"`
pub const QUOTE: u8 = 34;

/// `#`
pub const HASH: u8 = 35;

/// `'`
pub const APOSTROPHE: u8 = 39;

/// `,`
pub const COMMA: u8 = 44;

/// `.`
pub const DOT: u8 = 46;

/// `=`
pub const EQUALS: u8 = 61;

/// `[`
pub const BRACKET: u8 = 91;

/// `\`
pub const BACKSLASH: u8 = 92;

/// `]`
pub const BRACKET_END: u8 = 93;

/// `{`
pub const BRACE: u8 = 123;

/// `}`
pub const BRACE_END: u8 = 125;

/// Where in the text the scanner is.
#[derive(Clone, Copy, Debug, PartialEq, Eq, Structural)]
pub enum Mode {
    /// Outside any string or comment.
    Plain,
    /// In a comment, up to the end of the line or any other control
    /// character but a tab.
    Comment,
    /// In a string between quotes, up to the next quote or the end of the
    /// line.
    Basic,
    /// In a string between apostrophes, up to the next apostrophe or the end
    /// of the line.
    Literal,
    /// In a string between triple quotes.
    BasicBlock,
    /// In a string between triple apostrophes.
    LiteralBlock,
    /// Behind the triple quotes that closed a string: further quotes belong
    /// to its end.
    BasicEnd,
    /// Behind the triple apostrophes that closed a string.
    LiteralEnd,
}

/// What the scanner has counted so far.
pub struct Gauge {
    pub mode: Mode,
    /// Brackets and braces that are open.
    pub open: int,
    /// Dots since the last bracket, brace, comma, equals sign or line end.
    pub dots: int,
    /// The most that `open + 2 * dots` has been.
    pub deepest: int,
}

impl Gauge {
    /// Before the first byte.
    pub open spec fn start() -> Gauge {
        Gauge { mode: Mode::Plain, open: 0, dots: 0, deepest: 0 }
    }

    /// This gauge in another mode.
    pub open spec fn turn(self, mode: Mode) -> Gauge {
        Gauge { mode, ..self }
    }

    /// This gauge outside strings, with other counts.
    pub open spec fn count(self, open: int, dots: int) -> Gauge {
        Gauge {
            mode: Mode::Plain,
            open,
            dots,
            deepest: if open + 2 * dots > self.deepest {
                open + 2 * dots
            } else {
                self.deepest
            },
        }
    }
}

/// Whether the byte `q` stands three times in a row at `i`.
pub open spec fn triple(bytes: Seq<u8>, i: int, q: u8) -> bool {
    i + 2 < bytes.len() && bytes[i] == q && bytes[i + 1] == q && bytes[i + 2] == q
}

/// The gauge after the byte at `i`, read outside any string or comment, and
/// the number of bytes taken.
pub open spec fn plain(bytes: Seq<u8>, i: int, g: Gauge) -> (Gauge, int) {
    let b = bytes[i];
    if b == HASH {
        (g.turn(Mode::Comment), 1)
    } else if b == QUOTE {
        if triple(bytes, i, QUOTE) {
            (g.turn(Mode::BasicBlock), 3)
        } else {
            (g.turn(Mode::Basic), 1)
        }
    } else if b == APOSTROPHE {
        if triple(bytes, i, APOSTROPHE) {
            (g.turn(Mode::LiteralBlock), 3)
        } else {
            (g.turn(Mode::Literal), 1)
        }
    } else if b == BRACKET || b == BRACE {
        (g.count(g.open + 1, 0), 1)
    } else if b == BRACKET_END || b == BRACE_END {
        (g.count(if g.open > 0 { g.open - 1 } else { 0 }, 0), 1)
    } else if b == DOT {
        (g.count(g.open, g.dots + 1), 1)
    } else if b == EQUALS || b == COMMA || b == NEWLINE {
        (g.count(g.open, 0), 1)
    } else {
        (g.turn(Mode::Plain), 1)
    }
}

/// The gauge after the byte at `i`, and the number of bytes taken.
pub open spec fn step(bytes: Seq<u8>, i: int, g: Gauge) -> (Gauge, int) {
    let b = bytes[i];
    match g.mode {
        Mode::Plain => plain(bytes, i, g),
        Mode::Comment => if b < SPACE && b != TAB {
            (g.count(g.open, 0), 1)
        } else {
            (g, 1)
        },
        Mode::Basic => if b == QUOTE {
            (g.turn(Mode::Plain), 1)
        } else if b == NEWLINE {
            (g.count(g.open, 0), 1)
        } else if b == BACKSLASH {
            (g, 2)
        } else {
            (g, 1)
        },
        Mode::Literal => if b == APOSTROPHE {
            (g.turn(Mode::Plain), 1)
        } else if b == NEWLINE {
            (g.count(g.open, 0), 1)
        } else {
            (g, 1)
        },
        Mode::BasicBlock => if triple(bytes, i, QUOTE) {
            (g.turn(Mode::BasicEnd), 3)
        } else if b == BACKSLASH {
            (g, 2)
        } else {
            (g, 1)
        },
        Mode::LiteralBlock => if triple(bytes, i, APOSTROPHE) {
            (g.turn(Mode::LiteralEnd), 3)
        } else {
            (g, 1)
        },
        Mode::BasicEnd => if b == QUOTE {
            (g, 1)
        } else {
            plain(bytes, i, g)
        },
        Mode::LiteralEnd => if b == APOSTROPHE {
            (g, 1)
        } else {
            plain(bytes, i, g)
        },
    }
}

/// The deepest count once the bytes from `i` on are read.
pub open spec fn scan(bytes: Seq<u8>, i: int, g: Gauge) -> int
    decreases bytes.len() - i,
{
    if 0 <= i < bytes.len() {
        let (next, taken) = step(bytes, i, g);
        if 1 <= taken <= bytes.len() - i {
            scan(bytes, i + taken, next)
        } else {
            next.deepest
        }
    } else {
        g.deepest
    }
}

/// The measure of `text`: the most that the open brackets and braces and
/// twice the dots of one key have come to, anywhere in the text.
pub open spec fn nesting(text: Seq<char>) -> int {
    scan(encode_utf8(text), 0, Gauge::start())
}

/// The deepest count never falls.
pub proof fn lemma_scan_grows(bytes: Seq<u8>, i: int, g: Gauge)
    ensures
        scan(bytes, i, g) >= g.deepest,
    decreases bytes.len() - i,
{
    if 0 <= i < bytes.len() {
        let (next, taken) = step(bytes, i, g);
        if 1 <= taken <= bytes.len() - i {
            lemma_scan_grows(bytes, i + taken, next);
        }
    }
}


/// Whether `text` nests no deeper than [`MAX_NESTING`].
pub fn shallow(text: &str) -> (r: bool)
    ensures
        r == (nesting(text@) <= MAX_NESTING),
{
    let bytes = text.as_bytes();
    let n = bytes.len();
    let mut i: usize = 0;
    let mut mode = Mode::Plain;
    let mut open: usize = 0;
    let mut dots: usize = 0;
    let mut deepest: usize = 0;
    while i < n
        invariant
            n == bytes@.len(),
            i <= n,
            deepest <= MAX_NESTING,
            open + 2 * dots <= deepest,
            scan(
                bytes@,
                i as int,
                Gauge { mode, open: open as int, dots: dots as int, deepest: deepest as int },
            ) == nesting(text@),
        decreases n - i,
    {
        let b = bytes[i];
        let outside = match mode {
            Mode::Plain => true,
            Mode::BasicEnd => b != QUOTE,
            Mode::LiteralEnd => b != APOSTROPHE,
            _ => false,
        };
        let mut taken: usize = 1;
        if outside {
            mode = Mode::Plain;
            if b == HASH {
                mode = Mode::Comment;
            } else if b == QUOTE {
                if 2 < n - i && bytes[i + 1] == QUOTE && bytes[i + 2] == QUOTE {
                    mode = Mode::BasicBlock;
                    taken = 3;
                } else {
                    mode = Mode::Basic;
                }
            } else if b == APOSTROPHE {
                if 2 < n - i && bytes[i + 1] == APOSTROPHE && bytes[i + 2] == APOSTROPHE {
                    mode = Mode::LiteralBlock;
                    taken = 3;
                } else {
                    mode = Mode::Literal;
                }
            } else if b == BRACKET || b == BRACE {
                open = open + 1;
                dots = 0;
            } else if b == BRACKET_END || b == BRACE_END {
                if open > 0 {
                    open = open - 1;
                }
                dots = 0;
            } else if b == DOT {
                dots = dots + 1;
            } else if b == EQUALS || b == COMMA || b == NEWLINE {
                dots = 0;
            }
        } else {
            match mode {
                Mode::Comment => {
                    if b < SPACE && b != TAB {
                        mode = Mode::Plain;
                        dots = 0;
                    }
                },
                Mode::Basic => {
                    if b == QUOTE {
                        mode = Mode::Plain;
                    } else if b == NEWLINE {
                        mode = Mode::Plain;
                        dots = 0;
                    } else if b == BACKSLASH {
                        taken = 2;
                    }
                },
                Mode::Literal => {
                    if b == APOSTROPHE {
                        mode = Mode::Plain;
                    } else if b == NEWLINE {
                        mode = Mode::Plain;
                        dots = 0;
                    }
                },
                Mode::BasicBlock => {
                    if 2 < n - i && b == QUOTE && bytes[i + 1] == QUOTE && bytes[i + 2] == QUOTE {
                        mode = Mode::BasicEnd;
                        taken = 3;
                    } else if b == BACKSLASH {
                        taken = 2;
                    }
                },
                Mode::LiteralBlock => {
                    if 2 < n - i && b == APOSTROPHE && bytes[i + 1] == APOSTROPHE && bytes[i + 2]
                        == APOSTROPHE {
                        mode = Mode::LiteralEnd;
                        taken = 3;
                    }
                },
                _ => {},
            }
        }
        if open + 2 * dots > deepest {
            deepest = open + 2 * dots;
        }
        if deepest > MAX_NESTING {
            proof {
                let g = Gauge {
                    mode,
                    open: open as int,
                    dots: dots as int,
                    deepest: deepest as int,
                };
                if taken <= n - i {
                    lemma_scan_grows(bytes@, i + taken, g);
                }
            }
            return false;
        }
        if taken > n - i {
            return true;
        }
        i = i + taken;
    }
    true
}

} // verus!
