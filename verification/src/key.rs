use vstd::prelude::*;

verus! {

/// A key code reported by the console input layer.
///
/// The code space is partitioned into three disjoint bands: printable ASCII
/// codes (0..=127, using the lowercase letter codes), a contiguous arrow-key
/// band, and a band of other named keys (function keys, ESC, DELETE, ENTER,
/// TAB). Every named non-ASCII constant lies at or above 128 by construction.
/// Unknown codes from the input layer map to undefined values.
///
/// The named constants carry the raw codes; [`Key::from_code`] wraps a code
/// in a `Key`.
#[derive(Debug, Clone, Copy, PartialEq, Eq, Structural, PartialOrd, Ord, Hash)]
pub struct Key(u16);

impl View for Key {
    type V = u16;

    closed spec fn view(&self) -> u16 {
        self.0
    }
}

impl Key {
    pub const SPACE: u16 = 32;

    pub const EXCLAMATION_MARK: u16 = 33;

    pub const QUOTATION_MARK: u16 = 34;

    pub const NUMBER_SIGN: u16 = 35;

    pub const DOLLAR: u16 = 36;

    pub const PERCENT_SIGN: u16 = 37;

    pub const AMPERSAND: u16 = 38;

    pub const APOSTROPHE: u16 = 39;

    pub const LEFT_PARENTHESIS: u16 = 40;

    pub const RIGHT_PARENTHESIS: u16 = 41;

    pub const ASTERISK: u16 = 42;

    pub const PLUS: u16 = 43;

    pub const COMMA: u16 = 44;

    pub const MINUS: u16 = 45;

    pub const DOT: u16 = 46;

    pub const SLASH: u16 = 47;

    pub const COLON: u16 = 58;

    pub const SEMICOLON: u16 = 59;

    pub const LESS_THAN_SIGN: u16 = 60;

    pub const EQUALS_SIGN: u16 = 61;

    pub const GREATER_THAN_SIGN: u16 = 62;

    pub const QUESTION_MARK: u16 = 63;

    pub const AT_SIGN: u16 = 64;

    pub const LEFT_BRACKET: u16 = 91;

    pub const BACKSLASH: u16 = 92;

    pub const RIGHT_BRACKET: u16 = 93;

    pub const CARET: u16 = 94;

    pub const UNDERSCORE: u16 = 95;

    pub const BACKTICK: u16 = 96;

    pub const LEFT_CURLY_BRACKET: u16 = 123;

    pub const VERTICAL_BAR: u16 = 124;

    pub const RIGHT_CURLY_BRACKET: u16 = 125;

    pub const TILDE: u16 = 126;

    pub const DIGIT_0: u16 = 48;

    pub const DIGIT_1: u16 = 49;

    pub const DIGIT_2: u16 = 50;

    pub const DIGIT_3: u16 = 51;

    pub const DIGIT_4: u16 = 52;

    pub const DIGIT_5: u16 = 53;

    pub const DIGIT_6: u16 = 54;

    pub const DIGIT_7: u16 = 55;

    pub const DIGIT_8: u16 = 56;

    pub const DIGIT_9: u16 = 57;

    pub const A: u16 = 97;

    pub const B: u16 = 98;

    pub const C: u16 = 99;

    pub const D: u16 = 100;

    pub const E: u16 = 101;

    pub const F: u16 = 102;

    pub const G: u16 = 103;

    pub const H: u16 = 104;

    pub const I: u16 = 105;

    pub const J: u16 = 106;

    pub const K: u16 = 107;

    pub const L: u16 = 108;

    pub const M: u16 = 109;

    pub const N: u16 = 110;

    pub const O: u16 = 111;

    pub const P: u16 = 112;

    pub const Q: u16 = 113;

    pub const R: u16 = 114;

    pub const S: u16 = 115;

    pub const T: u16 = 116;

    pub const U: u16 = 117;

    pub const V: u16 = 118;

    pub const W: u16 = 119;

    pub const X: u16 = 120;

    pub const Y: u16 = 121;

    pub const Z: u16 = 122;

    pub const LEFT: u16 = 5000;

    pub const UP: u16 = 5001;

    pub const RIGHT: u16 = 5002;

    pub const DOWN: u16 = 5003;

    pub const F1: u16 = 5004;

    pub const F2: u16 = 5005;

    pub const F3: u16 = 5006;

    pub const F4: u16 = 5007;

    pub const F5: u16 = 5008;

    pub const F6: u16 = 5009;

    pub const F7: u16 = 5010;

    pub const F8: u16 = 5011;

    pub const F9: u16 = 5012;

    pub const F10: u16 = 5013;

    pub const F11: u16 = 5014;

    pub const F12: u16 = 5015;

    pub const ESC: u16 = 5016;

    pub const DELETE: u16 = 5017;

    pub const ENTER: u16 = 5018;

    pub const TAB: u16 = 5019;
}

impl Key {
    /// Wraps a raw code from the input layer.
    pub fn from_code(code: u16) -> (k: Key)
        ensures
            k@ == code,
    {
        Key(code)
    }

    /// The raw 16-bit code of this key.
    pub fn code(&self) -> (c: u16)
        ensures
            c == self@,
    {
        self.0
    }

    /// The arrow keys form one contiguous ordered band, so a single range
    /// test identifies them.
    pub open spec fn spec_is_arrow_key(self) -> bool {
        Key::LEFT <= self@ <= Key::DOWN
    }

    pub fn is_arrow_key(&self) -> (r: bool)
        ensures
            r == self.spec_is_arrow_key(),
    {
        Key::LEFT <= self.0 && self.0 <= Key::DOWN
    }

    /// A key is ASCII exactly when its code lies in 0..=127.
    pub open spec fn spec_is_ascii(self) -> bool {
        self@ <= 127
    }

    pub fn is_ascii(&self) -> (r: bool)
        ensures
            r == self.spec_is_ascii(),
    {
        self.0 <= 127
    }

    /// Converts the key code to an ASCII byte iff the key is ASCII.
    pub fn to_ascii(&self) -> (r: Option<u8>)
        ensures
            self.spec_is_ascii() ==> r == Some(self@ as u8),
            !self.spec_is_ascii() ==> r is None,
    {
        if self.0 <= 127 {
            Some(self.0 as u8)
        } else {
            None
        }
    }

    /// An ASCII decimal digit code.
    pub open spec fn spec_is_numeric(self) -> bool {
        self.spec_is_ascii() && Key::DIGIT_0 <= self@ <= Key::DIGIT_9
    }

    /// Checks if the key is ASCII and a decimal digit.
    pub fn is_numeric(&self) -> (r: bool)
        ensures
            r == self.spec_is_numeric(),
    {
        self.0 <= 127 && Key::DIGIT_0 <= self.0 && self.0 <= Key::DIGIT_9
    }

    /// An ASCII digit or letter code (letters in either case).
    pub open spec fn spec_is_alphanumeric(self) -> bool {
        self.spec_is_ascii() && (Key::DIGIT_0 <= self@ <= Key::DIGIT_9
            || 65 <= self@ <= 90 || Key::A <= self@ <= Key::Z)
    }

    /// Checks if the key is ASCII and a digit or a letter.
    pub fn is_alphanumeric(&self) -> (r: bool)
        ensures
            r == self.spec_is_alphanumeric(),
    {
        self.0 <= 127 && ((Key::DIGIT_0 <= self.0 && self.0 <= Key::DIGIT_9)
            || (65 <= self.0 && self.0 <= 90)
            || (Key::A <= self.0 && self.0 <= Key::Z))
    }
}

/// Every code in 0..=127 converts to its ASCII byte and every code at or
/// above 128 converts to nothing; all named arrow, function and other key
/// constants lie outside the ASCII band by construction.
pub proof fn lemma_ascii_partition(k: Key)
    ensures
        k.spec_is_ascii() <==> k@ <= 127,
        k@ >= 128 ==> !k.spec_is_ascii(),
        k@ == Key::LEFT ==> !k.spec_is_ascii(),
        k@ == Key::UP ==> !k.spec_is_ascii(),
        k@ == Key::RIGHT ==> !k.spec_is_ascii(),
        k@ == Key::DOWN ==> !k.spec_is_ascii(),
        k@ == Key::F1 ==> !k.spec_is_ascii(),
        k@ == Key::F2 ==> !k.spec_is_ascii(),
        k@ == Key::F3 ==> !k.spec_is_ascii(),
        k@ == Key::F4 ==> !k.spec_is_ascii(),
        k@ == Key::F5 ==> !k.spec_is_ascii(),
        k@ == Key::F6 ==> !k.spec_is_ascii(),
        k@ == Key::F7 ==> !k.spec_is_ascii(),
        k@ == Key::F8 ==> !k.spec_is_ascii(),
        k@ == Key::F9 ==> !k.spec_is_ascii(),
        k@ == Key::F10 ==> !k.spec_is_ascii(),
        k@ == Key::F11 ==> !k.spec_is_ascii(),
        k@ == Key::F12 ==> !k.spec_is_ascii(),
        k@ == Key::ESC ==> !k.spec_is_ascii(),
        k@ == Key::DELETE ==> !k.spec_is_ascii(),
        k@ == Key::ENTER ==> !k.spec_is_ascii(),
        k@ == Key::TAB ==> !k.spec_is_ascii(),
{
}

/// The arrow-key test holds exactly for the four arrow constants: it accepts
/// LEFT, UP, RIGHT and DOWN and rejects every other code, in particular every
/// ASCII code and every other named constant.
pub proof fn lemma_arrow_keys_exact(k: Key)
    ensures
        k.spec_is_arrow_key() <==> (k@ == Key::LEFT || k@ == Key::UP || k@ == Key::RIGHT
            || k@ == Key::DOWN),
        k.spec_is_ascii() ==> !k.spec_is_arrow_key(),
        k@ == Key::F1 ==> !k.spec_is_arrow_key(),
        k@ == Key::F2 ==> !k.spec_is_arrow_key(),
        k@ == Key::F3 ==> !k.spec_is_arrow_key(),
        k@ == Key::F4 ==> !k.spec_is_arrow_key(),
        k@ == Key::F5 ==> !k.spec_is_arrow_key(),
        k@ == Key::F6 ==> !k.spec_is_arrow_key(),
        k@ == Key::F7 ==> !k.spec_is_arrow_key(),
        k@ == Key::F8 ==> !k.spec_is_arrow_key(),
        k@ == Key::F9 ==> !k.spec_is_arrow_key(),
        k@ == Key::F10 ==> !k.spec_is_arrow_key(),
        k@ == Key::F11 ==> !k.spec_is_arrow_key(),
        k@ == Key::F12 ==> !k.spec_is_arrow_key(),
        k@ == Key::ESC ==> !k.spec_is_arrow_key(),
        k@ == Key::DELETE ==> !k.spec_is_arrow_key(),
        k@ == Key::ENTER ==> !k.spec_is_arrow_key(),
        k@ == Key::TAB ==> !k.spec_is_arrow_key(),
{
}

/// Numeric and alphanumeric classification is confined to the ASCII band:
/// both are false for every non-ASCII code, and every numeric key is also
/// alphanumeric.
pub proof fn lemma_classification_ascii_only(k: Key)
    ensures
        !k.spec_is_ascii() ==> !k.spec_is_numeric(),
        !k.spec_is_ascii() ==> !k.spec_is_alphanumeric(),
        k.spec_is_numeric() ==> k.spec_is_alphanumeric(),
{
}

} // verus!
