//! A parser of ANSI escape sequences that tracks the character attributes
//! that SGR sequences select.

use vstd::prelude::*;

use heapless::consts::U8;

use crate::util::color::{console_code, is_color_code, lemma_console_code_roundtrip, ConsoleColor};

verus! {

/// How the following characters are drawn.
#[derive(Debug, Clone, Copy, PartialEq, Eq, Structural)]
pub struct CharacterAttribute {
    pub foreground: ConsoleColor,
    pub background: ConsoleColor,
    pub underline: bool,
    pub reverse: bool,
    pub strikethrough: bool,
}

/// White on black, with no decoration.
pub open spec fn default_attribute() -> CharacterAttribute {
    CharacterAttribute {
        foreground: ConsoleColor::White,
        background: ConsoleColor::Black,
        underline: false,
        reverse: false,
        strikethrough: false,
    }
}

impl Default for CharacterAttribute {
    fn default() -> (a: Self)
        ensures
            a == default_attribute(),
    {
        CharacterAttribute {
            foreground: ConsoleColor::White,
            background: ConsoleColor::Black,
            underline: false,
            reverse: false,
            strikethrough: false,
        }
    }
}

/// The color whose foreground code is `code`.
pub open spec fn code_color(code: u8) -> ConsoleColor {
    match code {
        30 => ConsoleColor::Black,
        31 => ConsoleColor::Red,
        32 => ConsoleColor::Green,
        33 => ConsoleColor::Yellow,
        34 => ConsoleColor::Blue,
        35 => ConsoleColor::Magenta,
        36 => ConsoleColor::Cyan,
        37 => ConsoleColor::White,
        90 => ConsoleColor::BrightBlack,
        91 => ConsoleColor::BrightRed,
        92 => ConsoleColor::BrightGreen,
        93 => ConsoleColor::BrightYellow,
        94 => ConsoleColor::BrightBlue,
        95 => ConsoleColor::BrightMagenta,
        96 => ConsoleColor::BrightCyan,
        _ => ConsoleColor::BrightWhite,
    }
}

/// What one SGR parameter does to the attributes: 0 resets them; 4, 7 and
/// 9 turn underline, reverse and strikethrough on and 24, 27 and 29 off;
/// 30-37 and 90-97 set the foreground, 40-47 and 100-107 the background;
/// the rest do nothing.
pub open spec fn sgr(a: CharacterAttribute, code: u8) -> CharacterAttribute {
    if code == 0 {
        default_attribute()
    } else if code == 4 {
        CharacterAttribute { underline: true, ..a }
    } else if code == 7 {
        CharacterAttribute { reverse: true, ..a }
    } else if code == 9 {
        CharacterAttribute { strikethrough: true, ..a }
    } else if code == 24 {
        CharacterAttribute { underline: false, ..a }
    } else if code == 27 {
        CharacterAttribute { reverse: false, ..a }
    } else if code == 29 {
        CharacterAttribute { strikethrough: false, ..a }
    } else if is_color_code(code) {
        CharacterAttribute { foreground: code_color(code), ..a }
    } else if 40 <= code <= 47 || 100 <= code <= 107 {
        CharacterAttribute { background: code_color((code - 10) as u8), ..a }
    } else {
        a
    }
}

/// The color of a color code, as `from_console_code` gives it.
fn color_of(code: u8) -> (c: ConsoleColor)
    requires
        is_color_code(code),
    ensures
        c == code_color(code),
{
    match ConsoleColor::from_console_code(code) {
        Some(c) => {
            proof {
                lemma_console_code_roundtrip(c, code_color(code));
            }
            c
        },
        None => ConsoleColor::White,
    }
}

impl CharacterAttribute {
    /// Applies one SGR parameter.
    pub fn apply_sgr(&mut self, code: u8)
        ensures
            *final(self) == sgr(*old(self), code),
    {
        if code == 0 {
            *self = CharacterAttribute::default();
        } else if code == 4 {
            self.underline = true;
        } else if code == 7 {
            self.reverse = true;
        } else if code == 9 {
            self.strikethrough = true;
        } else if code == 24 {
            self.underline = false;
        } else if code == 27 {
            self.reverse = false;
        } else if code == 29 {
            self.strikethrough = false;
        } else if (30 <= code && code <= 37) || (90 <= code && code <= 97) {
            self.foreground = color_of(code);
        } else if (40 <= code && code <= 47) || (100 <= code && code <= 107) {
            self.background = color_of(code - 10);
        }
    }
}

/// A control sequence as far as the console acts on it.
#[derive(Debug, Clone, Copy, PartialEq, Eq, Structural)]
pub enum CSI {
    CursorMove(i8, i8),
    CursorMoveLine(i8),
    SGR,
    Unknown,
}

/// The count of a cursor command: the first parameter, or 1 without one,
/// read as a signed byte.
pub open spec fn csi_count(params: Seq<u8>) -> i8 {
    if params.len() > 0 {
        params[0] as i8
    } else {
        1
    }
}

/// `n` negated, wrapping.
pub open spec fn neg_i8(n: i8) -> i8 {
    if n == i8::MIN {
        n
    } else {
        (-n) as i8
    }
}

/// The sequence that `final_byte` ends, with parameters `params`.
pub open spec fn csi_spec(final_byte: u8, params: Seq<u8>) -> CSI {
    let n = csi_count(params);
    if final_byte == 0x41 {
        CSI::CursorMove(neg_i8(n), 0)
    } else if final_byte == 0x42 {
        CSI::CursorMove(n, 0)
    } else if final_byte == 0x43 {
        CSI::CursorMove(0, n)
    } else if final_byte == 0x44 {
        CSI::CursorMove(0, neg_i8(n))
    } else if final_byte == 0x45 {
        CSI::CursorMoveLine(n)
    } else if final_byte == 0x46 {
        CSI::CursorMoveLine(neg_i8(n))
    } else if final_byte == 0x6d {
        CSI::SGR
    } else {
        CSI::Unknown
    }
}

impl CSI {
    pub fn new(final_byte: u8, params: &[u8]) -> (c: CSI)
        ensures
            c == csi_spec(final_byte, params@),
    {
        let n: i8 = if params.len() > 0 { params[0] as i8 } else { 1 };
        let neg: i8 = if n == i8::MIN { n } else { -n };
        if final_byte == 0x41 {
            CSI::CursorMove(neg, 0)
        } else if final_byte == 0x42 {
            CSI::CursorMove(n, 0)
        } else if final_byte == 0x43 {
            CSI::CursorMove(0, n)
        } else if final_byte == 0x44 {
            CSI::CursorMove(0, neg)
        } else if final_byte == 0x45 {
            CSI::CursorMoveLine(n)
        } else if final_byte == 0x46 {
            CSI::CursorMoveLine(neg)
        } else if final_byte == 0x6d {
            CSI::SGR
        } else {
            CSI::Unknown
        }
    }
}

/// The parameters of the sequence being parsed, at most eight (a
/// `heapless::Vec` of capacity 8).
#[verifier::external_body]
pub struct ParamBuf {
    inner: heapless::Vec<u8, U8>,
}

/// The parameters that a buffer holds, in order.
pub uninterp spec fn param_items(b: ParamBuf) -> Seq<u8>;

impl ParamBuf {
    /// The parameters held, in order.
    pub open spec fn items(&self) -> Seq<u8> {
        param_items(*self)
    }
}

/// `heapless::Vec::new`: an empty buffer.
#[verifier::external_body]
fn params_new() -> (b: ParamBuf)
    ensures
        param_items(b) == Seq::<u8>::empty(),
{
    ParamBuf { inner: heapless::Vec::new() }
}

/// `heapless::Vec::push`: appends `x` where fewer than eight are held, else
/// gives `x` back and keeps the buffer.
#[verifier::external_body]
fn params_push(b: &mut ParamBuf, x: u8) -> (r: Result<(), u8>)
    ensures
        r == (if old(b).items().len() < 8 { Ok::<(), u8>(()) } else { Err::<(), u8>(x) }),
        final(b).items() == if old(b).items().len() < 8 {
            old(b).items().push(x)
        } else {
            old(b).items()
        },
{
    b.inner.push(x)
}

/// `heapless::Vec::clear`: empties the buffer.
#[verifier::external_body]
fn params_clear(b: &mut ParamBuf)
    ensures
        final(b).items() == Seq::<u8>::empty(),
{
    b.inner.clear()
}

/// The held parameters, copied out of the buffer (through its slice).
#[verifier::external_body]
fn params_to_vec(b: &ParamBuf) -> (v: Vec<u8>)
    ensures
        v@ == param_items(*b),
{
    b.inner.iter().copied().collect()
}

/// Where the parser is within a sequence.
#[derive(Debug, Clone, Copy, PartialEq, Eq, Structural)]
pub enum ParseStatus {
    /// The last byte was `ESC`.
    BeginEscapeSequence,
    /// Within `ESC [ n1 ; n2 ; ...`.
    ParsingCSI,
    /// Plain text.
    Text,
}

/// The parser's state, as values.
pub struct EscapeState {
    pub status: ParseStatus,
    pub char_attr: CharacterAttribute,
    pub current_param: Option<u8>,
    pub params: Seq<u8>,
}

/// The attributes after the SGR parameters `params` in order.
pub open spec fn apply_all(a: CharacterAttribute, params: Seq<u8>) -> CharacterAttribute {
    params.fold_left(a, |acc: CharacterAttribute, p: u8| sgr(acc, p))
}

/// Whether `parse(byte)` can go on from `s` without overflowing the eight
/// parameters.
pub open spec fn parse_fits(s: EscapeState, byte: u8) -> bool {
    s.status == ParseStatus::ParsingCSI ==> {
        &&& byte == 0x3b ==> s.params.len() < 8
        &&& (0x40 <= byte <= 0x7e && s.current_param is Some) ==> s.params.len() < 8
    }
}

/// One step of the parser: its next state and the sequence it finished.
pub open spec fn parse_step(s: EscapeState, byte: u8) -> (EscapeState, Option<CSI>) {
    let reset = EscapeState { status: ParseStatus::Text, current_param: None, params: Seq::empty(), ..s };
    match s.status {
        ParseStatus::BeginEscapeSequence => if byte == 0x5b {
            (EscapeState { status: ParseStatus::ParsingCSI, current_param: None, params: Seq::empty(), ..s }, None)
        } else {
            (reset, None)
        },
        ParseStatus::ParsingCSI => if 0x30 <= byte <= 0x39 {
            let res = (match s.current_param {
                Some(p) => p as int,
                None => 0,
            }) * 10 + (byte - 0x30);
            (EscapeState { current_param: if res <= 0xff { Some(res as u8) } else { None }, ..s }, None)
        } else if byte == 0x3b {
            let p = match s.current_param {
                Some(p) => p,
                None => 0,
            };
            (EscapeState { params: s.params.push(p), current_param: Some(0u8), ..s }, None)
        } else if 0x40 <= byte <= 0x7e {
            let params = match s.current_param {
                Some(p) => s.params.push(p),
                None => s.params,
            };
            let csi = csi_spec(byte, params);
            let attr = if csi == CSI::SGR {
                if params.len() == 0 {
                    sgr(s.char_attr, 0)
                } else {
                    apply_all(s.char_attr, params)
                }
            } else {
                s.char_attr
            };
            (EscapeState { char_attr: attr, ..reset }, Some(csi))
        } else {
            (reset, None)
        },
        ParseStatus::Text => (reset, None),
    }
}

/// The parser.
pub struct EscapeParser {
    status: ParseStatus,
    char_attr: CharacterAttribute,
    current_param: Option<u8>,
    params: ParamBuf,
}

impl EscapeParser {
    pub closed spec fn view(&self) -> EscapeState {
        EscapeState {
            status: self.status,
            char_attr: self.char_attr,
            current_param: self.current_param,
            params: param_items(self.params),
        }
    }

    /// A parser in text, with the default attributes.
    pub fn new() -> (p: Self)
        ensures
            p.view() == (EscapeState {
                status: ParseStatus::Text,
                char_attr: default_attribute(),
                current_param: None,
                params: Seq::empty(),
            }),
    {
        EscapeParser {
            status: ParseStatus::Text,
            char_attr: CharacterAttribute::default(),
            params: params_new(),
            current_param: None,
        }
    }

    /// Whether a sequence is being parsed.
    pub fn is_parsing(&self) -> (b: bool)
        ensures
            b == (self.view().status != ParseStatus::Text),
    {
        match self.status {
            ParseStatus::Text => false,
            _ => true,
        }
    }

    /// An `ESC` in text: a sequence begins.
    pub fn start_parse(&mut self)
        requires
            old(self).view().status == ParseStatus::Text,
        ensures
            final(self).view() == (EscapeState {
                status: ParseStatus::BeginEscapeSequence,
                current_param: None,
                ..old(self).view()
            }),
    {
        self.status = ParseStatus::BeginEscapeSequence;
        self.current_param = None;
    }

    fn apply_params(&mut self, params: &Vec<u8>)
        ensures
            final(self).char_attr == apply_all(old(self).char_attr, params@),
            final(self).status == old(self).status,
            final(self).current_param == old(self).current_param,
            final(self).params == old(self).params,
    {
        let ghost f = |acc: CharacterAttribute, p: u8| sgr(acc, p);
        let mut i: usize = 0;
        while i < params.len()
            invariant
                i <= params@.len(),
                f == (|acc: CharacterAttribute, p: u8| sgr(acc, p)),
                self.char_attr == params@.take(i as int).fold_left(old(self).char_attr, f),
                self.status == old(self).status,
                self.current_param == old(self).current_param,
                self.params == old(self).params,
            decreases params@.len() - i,
        {
            let p = params[i];
            self.char_attr.apply_sgr(p);
            proof {
                assert(params@.take(i + 1).drop_last() =~= params@.take(i as int));
            }
            i = i + 1;
        }
        proof {
            assert(params@.take(params@.len() as int) =~= params@);
        }
    }

    /// A byte within a sequence; returns the sequence where the byte ends
    /// one.
    pub fn parse(&mut self, byte: u8) -> (r: Option<CSI>)
        requires
            old(self).view().status != ParseStatus::Text,
            parse_fits(old(self).view(), byte),
            old(self).view().params.len() <= 8,
        ensures
            (final(self).view(), r) == parse_step(old(self).view(), byte),
            final(self).view().params.len() <= 8,
    {
        match self.status {
            ParseStatus::BeginEscapeSequence => {
                if byte == 0x5b {
                    self.status = ParseStatus::ParsingCSI;
                    self.current_param = None;
                    params_clear(&mut self.params);
                    return None;
                }
            },
            ParseStatus::ParsingCSI => {
                if 0x30 <= byte && byte <= 0x39 {
                    let digit = (byte - 0x30) as u32;
                    let param = match self.current_param {
                        Some(p) => p as u32,
                        None => 0,
                    };
                    let res = param * 10 + digit;
                    self.current_param = if res <= 0xff { Some(res as u8) } else { None };
                    return None;
                } else if byte == 0x3b {
                    let param = match self.current_param {
                        Some(p) => p,
                        None => 0,
                    };
                    let _ = params_push(&mut self.params, param);
                    self.current_param = Some(0);
                    return None;
                } else if 0x40 <= byte && byte <= 0x7e {
                    if let Some(param) = self.current_param {
                        let _ = params_push(&mut self.params, param);
                    }
                    let params = params_to_vec(&self.params);
                    let csi = CSI::new(byte, params.as_slice());
                    if csi == CSI::SGR {
                        if params.len() == 0 {
                            self.char_attr.apply_sgr(0);
                        } else {
                            self.apply_params(&params);
                        }
                    }
                    self.status = ParseStatus::Text;
                    self.current_param = None;
                    params_clear(&mut self.params);
                    return Some(csi);
                }
            },
            ParseStatus::Text => {},
        }
        self.status = ParseStatus::Text;
        self.current_param = None;
        params_clear(&mut self.params);
        None
    }

    /// The attributes selected so far.
    pub fn char_attribute(&self) -> (a: CharacterAttribute)
        ensures
            a == self.view().char_attr,
    {
        self.char_attr
    }
}

} // verus!
