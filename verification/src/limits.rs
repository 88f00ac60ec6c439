//! What text is handed to the JSON parser.
//!
//! The parser keeps the keys of the objects that it is inside of in one
//! buffer that it indexes with sixteen bits, counts the elements of an
//! array in thirty-two, gathers the digits of an exponent in a machine
//! word, and calls itself once for each level of nesting. On a comma before
//! the end of an object it forgets where it is. So a text is read only
//! where one scan of its bytes finds it within these limits and finds no
//! such comma.
//!
//! The scan follows strings and brackets as JSON writes them. It takes
//! every string that stands where an object expects a key for a key, and
//! counts the bytes between its quotes, which are never fewer than the
//! bytes of the key that they spell.

use vstd::prelude::*;

verus! {

/// The longest text that is read, in bytes: shorter than any array with
/// more elements than the parser can count.
pub const MAX_TEXT_BYTES: usize = 4294967295;

/// The most bytes that a key and the keys of the objects around it may
/// have between their quotes, all together.
pub const MAX_KEY_BYTES: u32 = 65535;

/// The most digits that an exponent may have.
pub const MAX_EXPONENT_DIGITS: u8 = 9;

/// The most arrays and objects that may stand inside one another.
pub const MAX_DEPTH: usize = 128;

pub const QUOTE: u8 = 34;

pub const BACKSLASH: u8 = 92;

pub const PLUS: u8 = 43;

pub const MINUS: u8 = 45;

pub const COMMA: u8 = 44;

pub const UPPER_E: u8 = 69;

pub const LOWER_E: u8 = 101;

pub const OPEN_ARRAY: u8 = 91;

pub const CLOSE_ARRAY: u8 = 93;

pub const OPEN_OBJECT: u8 = 123;

pub const CLOSE_OBJECT: u8 = 125;

/// Whether a byte is one of the digits `0` to `9`.
pub open spec fn is_digit(byte: u8) -> bool {
    48 <= byte <= 57
}

/// Whether a byte is a space, a tab, a line feed or a carriage return.
pub open spec fn is_space(byte: u8) -> bool {
    byte == 32 || byte == 9 || byte == 10 || byte == 13
}

/// Where a scan stands, outside of strings, with respect to a number.
#[derive(Debug, Clone, Copy, PartialEq, Eq, Structural)]
pub enum Place {
    /// Not behind a digit and not in an exponent.
    Elsewhere,
    /// Behind a digit of the integer or of the fraction.
    Digit,
    /// Behind the `e` or `E` that follows a digit.
    Mark,
    /// Behind the sign of an exponent.
    Sign,
    /// Behind a digit of an exponent.
    Exponent,
}

/// An array or an object that a scan is inside of.
#[derive(Debug, Clone, Copy, PartialEq, Eq, Structural)]
pub struct Level {
    /// It is an object.
    pub object: bool,
    /// It is an object, and the next string in it stands where a key does:
    /// behind its opening bracket or behind a comma.
    pub key_next: bool,
    /// The bytes of its latest key, counted up to one more than
    /// `MAX_KEY_BYTES`.
    pub key: u32,
    /// The bytes of the latest keys of the objects around it, counted
    /// likewise.
    pub above: u32,
}

/// What a scan has noted of a text so far, beside the levels that it is
/// inside of.
#[derive(Debug, Clone, Copy, PartialEq, Eq, Structural)]
pub struct Marks {
    /// Inside a string.
    pub in_string: bool,
    /// Inside a string, behind a backslash.
    pub escaped: bool,
    /// The string at hand stands where a key does.
    pub is_key: bool,
    /// The bytes of the string at hand, counted up to one more than
    /// `MAX_KEY_BYTES`.
    pub run: u32,
    pub place: Place,
    /// The digits of the exponent at hand, counted up to one more than
    /// `MAX_EXPONENT_DIGITS`.
    pub digits: u8,
    /// Behind a comma, with nothing but space since.
    pub after_comma: bool,
    /// An exponent was seen.
    pub exponent: bool,
    /// An exponent of more than `MAX_EXPONENT_DIGITS` digits was seen.
    pub long_exponent: bool,
    /// A key was seen that has, with the keys of the objects around it,
    /// more than `MAX_KEY_BYTES` bytes.
    pub long_key: bool,
    /// More than `MAX_DEPTH` levels were seen inside one another.
    pub deep: bool,
    /// A comma was seen before the end of an object.
    pub trailing_comma: bool,
}

/// The model of a scan.
pub struct ScanView {
    pub marks: Marks,
    pub levels: Seq<Level>,
}

/// A scan of a text: what it has noted, and the levels that it is inside
/// of, the outermost first.
#[derive(Debug, PartialEq)]
pub struct Scan {
    pub marks: Marks,
    pub levels: Vec<Level>,
}

impl View for Scan {
    type V = ScanView;

    open spec fn view(&self) -> ScanView {
        ScanView { marks: self.marks, levels: self.levels@ }
    }
}

/// The scan of the empty text.
pub open spec fn scan_start() -> ScanView {
    ScanView {
        marks: Marks {
            in_string: false,
            escaped: false,
            is_key: false,
            run: 0,
            place: Place::Elsewhere,
            digits: 0,
            after_comma: false,
            exponent: false,
            long_exponent: false,
            long_key: false,
            deep: false,
            trailing_comma: false,
        },
        levels: Seq::empty(),
    }
}

/// A count of bytes with one more byte, up to one more than
/// `MAX_KEY_BYTES`.
pub open spec fn one_more(run: u32) -> u32 {
    if run <= MAX_KEY_BYTES {
        (run + 1) as u32
    } else {
        run
    }
}

/// The bytes of the keys around a level that opens inside of `levels`.
pub open spec fn keys_above(levels: Seq<Level>) -> u32 {
    if levels.len() == 0 {
        0
    } else if levels.last().object {
        if levels.last().above + levels.last().key > MAX_KEY_BYTES {
            (MAX_KEY_BYTES + 1) as u32
        } else {
            (levels.last().above + levels.last().key) as u32
        }
    } else {
        levels.last().above
    }
}

/// The marks after a byte that is outside of strings and is no quote, no
/// bracket, no comma and no space: a digit, the mark or the sign of an
/// exponent, or anything else.
pub open spec fn number_step(m: Marks, byte: u8) -> Marks {
    if is_digit(byte) {
        match m.place {
            Place::Mark | Place::Sign | Place::Exponent => {
                let digits = if m.digits <= MAX_EXPONENT_DIGITS {
                    (m.digits + 1) as u8
                } else {
                    m.digits
                };
                Marks {
                    place: Place::Exponent,
                    digits: digits,
                    long_exponent: m.long_exponent || digits > MAX_EXPONENT_DIGITS,
                    ..m
                }
            },
            _ => Marks { place: Place::Digit, ..m },
        }
    } else if byte == LOWER_E || byte == UPPER_E {
        match m.place {
            Place::Digit | Place::Exponent => Marks {
                place: Place::Mark,
                digits: 0,
                exponent: true,
                ..m
            },
            _ => Marks { place: Place::Elsewhere, ..m },
        }
    } else if byte == PLUS || byte == MINUS {
        match m.place {
            Place::Mark => Marks { place: Place::Sign, ..m },
            _ => Marks { place: Place::Elsewhere, ..m },
        }
    } else {
        Marks { place: Place::Elsewhere, ..m }
    }
}

/// The scan after the quote that ends a string. Where the string stood for
/// a key, its bytes are noted at its level and held against the limit.
pub open spec fn string_end(s: ScanView) -> ScanView {
    let m = s.marks;
    if m.is_key && s.levels.len() > 0 {
        let top = s.levels.last();
        ScanView {
            marks: Marks {
                in_string: false,
                is_key: false,
                long_key: m.long_key || top.above + m.run > MAX_KEY_BYTES,
                ..m
            },
            levels: s.levels.drop_last().push(Level { key_next: false, key: m.run, ..top }),
        }
    } else {
        ScanView { marks: Marks { in_string: false, is_key: false, ..m }, ..s }
    }
}

/// The scan after the bracket that opens an array or an object.
pub open spec fn level_start(s: ScanView, object: bool) -> ScanView {
    let m = Marks { place: Place::Elsewhere, after_comma: false, ..s.marks };
    if s.levels.len() >= MAX_DEPTH {
        ScanView { marks: Marks { deep: true, ..m }, ..s }
    } else {
        ScanView {
            marks: m,
            levels: s.levels.push(
                Level { object: object, key_next: object, key: 0, above: keys_above(s.levels) },
            ),
        }
    }
}

/// The scan after the bracket that closes an array or an object.
pub open spec fn level_end(s: ScanView, object: bool) -> ScanView {
    let m = s.marks;
    ScanView {
        marks: Marks {
            place: Place::Elsewhere,
            after_comma: false,
            trailing_comma: m.trailing_comma || (object && m.after_comma),
            ..m
        },
        levels: if s.levels.len() > 0 {
            s.levels.drop_last()
        } else {
            s.levels
        },
    }
}

/// The scan after a comma: in an object, a key comes next.
pub open spec fn comma(s: ScanView) -> ScanView {
    let m = Marks { place: Place::Elsewhere, after_comma: true, ..s.marks };
    if s.levels.len() > 0 && s.levels.last().object {
        ScanView {
            marks: m,
            levels: s.levels.drop_last().push(Level { key_next: true, ..s.levels.last() }),
        }
    } else {
        ScanView { marks: m, ..s }
    }
}

/// The scan after one more byte. A quote opens and closes a string, and
/// inside one a backslash takes the next byte with it.
pub open spec fn scan_step(s: ScanView, byte: u8) -> ScanView {
    let m = s.marks;
    if m.in_string {
        if m.escaped {
            ScanView { marks: Marks { escaped: false, run: one_more(m.run), ..m }, ..s }
        } else if byte == BACKSLASH {
            ScanView { marks: Marks { escaped: true, run: one_more(m.run), ..m }, ..s }
        } else if byte == QUOTE {
            string_end(s)
        } else {
            ScanView { marks: Marks { run: one_more(m.run), ..m }, ..s }
        }
    } else if byte == QUOTE {
        ScanView {
            marks: Marks {
                in_string: true,
                is_key: s.levels.len() > 0 && s.levels.last().key_next,
                run: 0,
                place: Place::Elsewhere,
                after_comma: false,
                ..m
            },
            ..s
        }
    } else if byte == OPEN_OBJECT || byte == OPEN_ARRAY {
        level_start(s, byte == OPEN_OBJECT)
    } else if byte == CLOSE_OBJECT || byte == CLOSE_ARRAY {
        level_end(s, byte == CLOSE_OBJECT)
    } else if byte == COMMA {
        comma(s)
    } else if is_space(byte) {
        ScanView { marks: Marks { place: Place::Elsewhere, ..m }, ..s }
    } else {
        ScanView { marks: number_step(Marks { after_comma: false, ..m }, byte), ..s }
    }
}

/// The scan of a text, byte by byte from its start.
pub open spec fn scan(bytes: Seq<u8>) -> ScanView
    decreases bytes.len(),
{
    if bytes.len() == 0 {
        scan_start()
    } else {
        scan_step(scan(bytes.drop_last()), bytes.last())
    }
}

/// Whether a text may hold an exponent: outside of its strings, an `e` or
/// `E` behind a digit.
pub open spec fn has_exponent(bytes: Seq<u8>) -> bool {
    scan(bytes).marks.exponent
}

/// Whether a text holds, outside of its strings, a comma that nothing but
/// space parts from the end of an object. No such text is JSON.
pub open spec fn has_trailing_comma(bytes: Seq<u8>) -> bool {
    scan(bytes).marks.trailing_comma
}

/// Whether what a scan has noted is within the limits.
pub open spec fn marks_within_limits(m: Marks) -> bool {
    !m.long_key && !m.long_exponent && !m.deep
}

/// Whether a text is within the limits of the parser: it has at most
/// `MAX_TEXT_BYTES` bytes, at most `MAX_DEPTH` levels inside one another,
/// no key that has with the keys around it more than `MAX_KEY_BYTES`
/// bytes, and no exponent of more than `MAX_EXPONENT_DIGITS` digits.
pub open spec fn within_limits(bytes: Seq<u8>) -> bool {
    bytes.len() <= MAX_TEXT_BYTES && marks_within_limits(scan(bytes).marks)
}

/// The marks after a byte that belongs to no string and is no quote, no
/// bracket, no comma and no space.
fn number_byte(m: Marks, byte: u8) -> (r: Marks)
    ensures
        r == number_step(m, byte),
{
    let mut r = m;
    if 48 <= byte && byte <= 57 {
        match m.place {
            Place::Mark | Place::Sign | Place::Exponent => {
                if m.digits <= MAX_EXPONENT_DIGITS {
                    r.digits = m.digits + 1;
                }
                r.place = Place::Exponent;
                r.long_exponent = m.long_exponent || r.digits > MAX_EXPONENT_DIGITS;
            },
            _ => {
                r.place = Place::Digit;
            },
        }
    } else if byte == LOWER_E || byte == UPPER_E {
        match m.place {
            Place::Digit | Place::Exponent => {
                r.place = Place::Mark;
                r.digits = 0;
                r.exponent = true;
            },
            _ => {
                r.place = Place::Elsewhere;
            },
        }
    } else if byte == PLUS || byte == MINUS {
        match m.place {
            Place::Mark => {
                r.place = Place::Sign;
            },
            _ => {
                r.place = Place::Elsewhere;
            },
        }
    } else {
        r.place = Place::Elsewhere;
    }
    r
}

/// A count of bytes with one more byte.
fn count(run: u32) -> (r: u32)
    ensures
        r == one_more(run),
{
    if run <= MAX_KEY_BYTES {
        run + 1
    } else {
        run
    }
}

/// Ends the string at hand.
fn end_string(s: &mut Scan)
    ensures
        final(s)@ == string_end(old(s)@),
{
    let m = s.marks;
    let mut n = m;
    n.in_string = false;
    n.is_key = false;
    if m.is_key && s.levels.len() > 0 {
        let mut top = s.levels.pop().unwrap();
        let total: u64 = top.above as u64 + m.run as u64;
        n.long_key = m.long_key || total > MAX_KEY_BYTES as u64;
        top.key_next = false;
        top.key = m.run;
        s.levels.push(top);
    }
    s.marks = n;
}

/// The bytes of the keys around a level that opens now.
fn above_next(levels: &Vec<Level>) -> (r: u32)
    ensures
        r == keys_above(levels@),
{
    if levels.len() == 0 {
        0
    } else {
        let top = levels[levels.len() - 1];
        if top.object {
            let total: u64 = top.above as u64 + top.key as u64;
            if total > MAX_KEY_BYTES as u64 {
                MAX_KEY_BYTES + 1
            } else {
                total as u32
            }
        } else {
            top.above
        }
    }
}

/// Opens an array or an object.
fn start_level(s: &mut Scan, object: bool)
    ensures
        final(s)@ == level_start(old(s)@, object),
{
    let mut n = s.marks;
    n.place = Place::Elsewhere;
    n.after_comma = false;
    if s.levels.len() >= MAX_DEPTH {
        n.deep = true;
    } else {
        let above: u32 = above_next(&s.levels);
        s.levels.push(Level { object: object, key_next: object, key: 0, above: above });
    }
    s.marks = n;
}

/// Closes an array or an object.
fn end_level(s: &mut Scan, object: bool)
    ensures
        final(s)@ == level_end(old(s)@, object),
{
    let m = s.marks;
    let mut n = m;
    n.place = Place::Elsewhere;
    n.after_comma = false;
    n.trailing_comma = m.trailing_comma || (object && m.after_comma);
    if s.levels.len() > 0 {
        s.levels.pop();
    }
    s.marks = n;
}

/// Passes a comma.
fn pass_comma(s: &mut Scan)
    ensures
        final(s)@ == comma(old(s)@),
{
    let mut n = s.marks;
    n.place = Place::Elsewhere;
    n.after_comma = true;
    if s.levels.len() > 0 && s.levels[s.levels.len() - 1].object {
        let mut top = s.levels.pop().unwrap();
        top.key_next = true;
        s.levels.push(top);
    }
    s.marks = n;
}

/// Takes one more byte into a scan.
pub fn advance(s: &mut Scan, byte: u8)
    ensures
        final(s)@ == scan_step(old(s)@, byte),
{
    let m = s.marks;
    if m.in_string {
        if m.escaped {
            s.marks.escaped = false;
            s.marks.run = count(m.run);
        } else if byte == BACKSLASH {
            s.marks.escaped = true;
            s.marks.run = count(m.run);
        } else if byte == QUOTE {
            end_string(s);
        } else {
            s.marks.run = count(m.run);
        }
    } else if byte == QUOTE {
        let is_key = s.levels.len() > 0 && s.levels[s.levels.len() - 1].key_next;
        s.marks.in_string = true;
        s.marks.is_key = is_key;
        s.marks.run = 0;
        s.marks.place = Place::Elsewhere;
        s.marks.after_comma = false;
    } else if byte == OPEN_OBJECT || byte == OPEN_ARRAY {
        start_level(s, byte == OPEN_OBJECT);
    } else if byte == CLOSE_OBJECT || byte == CLOSE_ARRAY {
        end_level(s, byte == CLOSE_OBJECT);
    } else if byte == COMMA {
        pass_comma(s);
    } else if byte == 32 || byte == 9 || byte == 10 || byte == 13 {
        s.marks.place = Place::Elsewhere;
    } else {
        let mut n = m;
        n.after_comma = false;
        s.marks = number_byte(n, byte);
    }
}

/// Scans a text from its start to its end.
pub fn scan_text(bytes: &[u8]) -> (r: Scan)
    ensures
        r@ == scan(bytes@),
{
    let mut s = Scan {
        marks: Marks {
            in_string: false,
            escaped: false,
            is_key: false,
            run: 0,
            place: Place::Elsewhere,
            digits: 0,
            after_comma: false,
            exponent: false,
            long_exponent: false,
            long_key: false,
            deep: false,
            trailing_comma: false,
        },
        levels: Vec::new(),
    };
    let mut i: usize = 0;
    proof {
        assert(bytes@.take(0) =~= Seq::<u8>::empty());
    }
    while i < bytes.len()
        invariant
            i <= bytes.len(),
            s@ == scan(bytes@.take(i as int)),
        decreases bytes.len() - i,
    {
        proof {
            assert(bytes@.take(i as int + 1).drop_last() =~= bytes@.take(i as int));
            assert(bytes@.take(i as int + 1).last() == bytes@[i as int]);
        }
        advance(&mut s, bytes[i]);
        i += 1;
    }
    proof {
        assert(bytes@.take(i as int) =~= bytes@);
    }
    s
}

/// Whether a text is within the limits of the parser.
pub fn check_limits(bytes: &[u8]) -> (r: bool)
    ensures
        r == within_limits(bytes@),
{
    if bytes.len() > MAX_TEXT_BYTES {
        return false;
    }
    let m = scan_text(bytes).marks;
    !m.long_key && !m.long_exponent && !m.deep
}

} // verus!
