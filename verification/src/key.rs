//! Key presses as reported by the terminal layer.

use vstd::prelude::*;
use vstd::string::StringExecFns;

use crate::text::{char_from_u32, decimal, is_scalar_value, lemma_decimal_reads_back, push_char, push_decimal};

verus! {

/// A decoded key press.
#[derive(Clone, Debug, PartialEq, Eq, Structural, PartialOrd, Ord)]
pub struct Press {
    pub ctrl: bool,
    pub alt: bool,
    pub symbol: Symbol,
}

/// What was pressed: a character or a special key.
#[derive(Clone, Debug, PartialEq, Eq, Structural, PartialOrd, Ord)]
pub enum Symbol {
    Char(char),
    Special(Special),
}

/// Keys that have no character of their own.
#[derive(Clone, Debug, PartialEq, Eq, Structural, PartialOrd, Ord)]
pub enum Special {
    Backspace,
    F(u32),
    Insert,
    Delete,
    Home,
    End,
    PageUp,
    PageDown,
    Up,
    Down,
    Left,
    Right,
}

/// The special key that a raw key code stands for, if any: `0x7f` is
/// backspace, `0xffff` down to `0xfff4` are the function keys `F(1)` to
/// `F(12)`, and `0xfff3` down to `0xffea` are insert, delete, home, end,
/// page up, page down and the four arrows up, down, left, right.
pub open spec fn special_for_key(key: u16) -> Option<Special> {
    if key == 0x7f {
        Some(Special::Backspace)
    } else if 0xfff4 <= key {
        Some(Special::F((0x10000 - key) as u32))
    } else if key == 0xfff3 {
        Some(Special::Insert)
    } else if key == 0xfff2 {
        Some(Special::Delete)
    } else if key == 0xfff1 {
        Some(Special::Home)
    } else if key == 0xfff0 {
        Some(Special::End)
    } else if key == 0xffef {
        Some(Special::PageUp)
    } else if key == 0xffee {
        Some(Special::PageDown)
    } else if key == 0xffed {
        Some(Special::Up)
    } else if key == 0xffec {
        Some(Special::Down)
    } else if key == 0xffeb {
        Some(Special::Left)
    } else if key == 0xffea {
        Some(Special::Right)
    } else {
        None
    }
}

/// The press that a raw terminal event stands for.
///
/// `emod == 0x01` means that alt was held. A key code of zero carries the
/// character as a code point; codes below `0x20` are control chords of the
/// letter `key | 0x60`; `0x20` is the space bar; everything else is looked
/// up by `special_for_key`.
pub open spec fn press_of_raw(emod: u8, key: u16, character: u32) -> Option<Press> {
    let alt = emod == 0x01;
    if key == 0 {
        if is_scalar_value(character) {
            Some(Press { ctrl: false, alt, symbol: Symbol::Char(character as char) })
        } else {
            None
        }
    } else if key < 0x20 {
        Some(Press { ctrl: true, alt, symbol: Symbol::Char((key + 0x60) as char) })
    } else if key == 0x20 {
        Some(Press { ctrl: false, alt, symbol: Symbol::Char(' ') })
    } else {
        match special_for_key(key) {
            Some(s) => Some(Press { ctrl: false, alt, symbol: Symbol::Special(s) }),
            None => None,
        }
    }
}

/// The text of a special key: its lower-case name, with `f` followed by
/// the decimal number for a function key.
pub open spec fn special_text(s: Special) -> Seq<char> {
    match s {
        Special::Backspace => "backspace"@,
        Special::F(n) => seq!['f'] + decimal(n as nat),
        Special::Insert => "insert"@,
        Special::Delete => "delete"@,
        Special::Home => "home"@,
        Special::End => "end"@,
        Special::PageUp => "page-up"@,
        Special::PageDown => "page-down"@,
        Special::Up => "up"@,
        Special::Down => "down"@,
        Special::Left => "left"@,
        Special::Right => "right"@,
    }
}

/// The text of a symbol: the character itself, or the special key's name.
pub open spec fn symbol_text(s: Symbol) -> Seq<char> {
    match s {
        Symbol::Char(c) => seq![c],
        Symbol::Special(k) => special_text(k),
    }
}

/// The text of a press: `C-` when ctrl was held, then `M-` when alt was
/// held, then the symbol's text.
pub open spec fn press_text(p: Press) -> Seq<char> {
    (if p.ctrl { "C-"@ } else { Seq::empty() }) + (if p.alt { "M-"@ } else { Seq::empty() })
        + symbol_text(p.symbol)
}

/// What every decoded press carries, over all modifier bytes, key codes
/// and code points: alt is held exactly when the modifier byte is `0x01`;
/// ctrl exactly for the codes `1..0x20`, which are the chords of the
/// characters `0x61..=0x7f` (`key | 0x60`); code zero carries the code
/// point when it is a Unicode scalar value; `0x20` is the space bar; and
/// above it only backspace (`0x7f`) and `0xffea..=0xffff` decode, all to
/// special keys, with `0xffff` down to `0xfff4` the function keys
/// `F(1)` to `F(12)`.
pub proof fn lemma_decoded_press(emod: u8, key: u16, character: u32)
    ensures
        press_of_raw(emod, key, character) matches Some(p) ==> {
            &&& p.alt == (emod == 0x01)
            &&& p.ctrl == (1 <= key && key < 0x20)
        },
        key == 0 ==> (press_of_raw(emod, key, character) is Some <==> is_scalar_value(character)),
        key == 0 ==> (press_of_raw(emod, key, character) matches Some(p) ==> (p.symbol matches Symbol::Char(
            c,
        ) && c as u32 == character)),
        1 <= key < 0x20 ==> (press_of_raw(emod, key, character) matches Some(p) && p.symbol matches Symbol::Char(
            c,
        ) && c as u32 == (key | 0x60) && c as u32 == key + 0x60),
        key == 0x20 ==> press_of_raw(emod, key, character) == Some(
            Press { ctrl: false, alt: emod == 0x01, symbol: Symbol::Char(' ') },
        ),
        key > 0x20 ==> (press_of_raw(emod, key, character) is Some <==> (key == 0x7f || 0xffea <= key)),
        key > 0x20 ==> (press_of_raw(emod, key, character) matches Some(p) ==> p.symbol is Special),
        0xfff4 <= key ==> (press_of_raw(emod, key, character) matches Some(p) && p.symbol matches Symbol::Special(
            Special::F(n),
        ) && 1 <= n <= 12 && n == 0x10000 - key),
{
    if 1 <= key < 0x20 {
        assert(key < 0x20 ==> (key | 0x60u16) == key + 0x60) by (bit_vector);
    }
}

/// Each named special key has its code: `0x7f` backspace, then from
/// `0xfff3` down: insert, delete, home, end, page up, page down, up, down,
/// left and right; alt is kept on every one of them.
pub proof fn lemma_named_special_keys(emod: u8, character: u32)
    ensures
        press_of_raw(emod, 0x7f, character) == Some(
            Press { ctrl: false, alt: emod == 0x01, symbol: Symbol::Special(Special::Backspace) },
        ),
        press_of_raw(emod, 0xfff3, character) == Some(
            Press { ctrl: false, alt: emod == 0x01, symbol: Symbol::Special(Special::Insert) },
        ),
        press_of_raw(emod, 0xfff2, character) == Some(
            Press { ctrl: false, alt: emod == 0x01, symbol: Symbol::Special(Special::Delete) },
        ),
        press_of_raw(emod, 0xfff1, character) == Some(
            Press { ctrl: false, alt: emod == 0x01, symbol: Symbol::Special(Special::Home) },
        ),
        press_of_raw(emod, 0xfff0, character) == Some(
            Press { ctrl: false, alt: emod == 0x01, symbol: Symbol::Special(Special::End) },
        ),
        press_of_raw(emod, 0xffef, character) == Some(
            Press { ctrl: false, alt: emod == 0x01, symbol: Symbol::Special(Special::PageUp) },
        ),
        press_of_raw(emod, 0xffee, character) == Some(
            Press { ctrl: false, alt: emod == 0x01, symbol: Symbol::Special(Special::PageDown) },
        ),
        press_of_raw(emod, 0xffed, character) == Some(
            Press { ctrl: false, alt: emod == 0x01, symbol: Symbol::Special(Special::Up) },
        ),
        press_of_raw(emod, 0xffec, character) == Some(
            Press { ctrl: false, alt: emod == 0x01, symbol: Symbol::Special(Special::Down) },
        ),
        press_of_raw(emod, 0xffeb, character) == Some(
            Press { ctrl: false, alt: emod == 0x01, symbol: Symbol::Special(Special::Left) },
        ),
        press_of_raw(emod, 0xffea, character) == Some(
            Press { ctrl: false, alt: emod == 0x01, symbol: Symbol::Special(Special::Right) },
        ),
{
}

/// Different special keys have different names: the name of a special
/// key tells which key it is (and, for a function key, its number).
pub proof fn lemma_special_text_injective(a: Special, b: Special)
    requires
        special_text(a) == special_text(b),
    ensures
        a == b,
{
    reveal_strlit("backspace");
    reveal_strlit("insert");
    reveal_strlit("delete");
    reveal_strlit("home");
    reveal_strlit("end");
    reveal_strlit("page-up");
    reveal_strlit("page-down");
    reveal_strlit("up");
    reveal_strlit("down");
    reveal_strlit("left");
    reveal_strlit("right");
    let ta = special_text(a);
    if let Special::F(n) = a {
        lemma_decimal_reads_back(n as nat);
        assert(ta[0] == 'f');
        if let Special::F(m) = b {
            lemma_decimal_reads_back(m as nat);
            assert(ta.drop_first() =~= decimal(n as nat));
            assert(special_text(b).drop_first() =~= decimal(m as nat));
        } else {
            assert(special_text(b)[0] != 'f');
        }
    } else if let Special::F(m) = b {
        assert(special_text(b)[0] == 'f');
        assert(ta[0] != 'f');
    } else {
        assert(ta.len() == special_text(b).len());
        assert(ta[0] == special_text(b)[0]);
        assert(ta[ta.len() - 1] == special_text(b)[ta.len() - 1]);
    }
}

/// A press's text starts with `C-` exactly when ctrl is held, followed by
/// `M-` exactly when alt is held, and ends with the symbol's text; a plain
/// character is written as that single character.
pub proof fn lemma_press_text_parts(p: Press)
    ensures
        p.ctrl ==> press_text(p).subrange(0, 2) == "C-"@,
        p.alt ==> press_text(p).subrange(if p.ctrl { 2int } else { 0 }, if p.ctrl { 4int } else { 2 })
            == "M-"@,
        press_text(p).len() == (if p.ctrl { 2int } else { 0 }) + (if p.alt { 2int } else { 0 })
            + symbol_text(p.symbol).len(),
        press_text(p).subrange(press_text(p).len() - symbol_text(p.symbol).len(), press_text(p).len() as int)
            == symbol_text(p.symbol),
        p.symbol matches Symbol::Char(c) ==> symbol_text(p.symbol) == seq![c],
{
    reveal_strlit("C-");
    reveal_strlit("M-");
    let pre = (if p.ctrl { "C-"@ } else { Seq::empty() }) + (if p.alt { "M-"@ } else { Seq::empty() });
    assert(press_text(p) == pre + symbol_text(p.symbol));
    assert(press_text(p).subrange(pre.len() as int, press_text(p).len() as int) =~= symbol_text(p.symbol));
    if p.ctrl {
        assert(press_text(p).subrange(0, 2) =~= "C-"@);
    }
    if p.alt {
        let k: int = if p.ctrl { 2 } else { 0 };
        assert(press_text(p).subrange(k, k + 2) =~= "M-"@);
    }
}

/// A plain character decodes to a press of that character, without ctrl,
/// with alt exactly when the modifier byte is `0x01`; it is written as the
/// character itself, after `M-` when alt was held.
pub proof fn lemma_plain_character(emod: u8, character: u32)
    requires
        is_scalar_value(character),
    ensures
        press_of_raw(emod, 0, character) == Some(
            Press { ctrl: false, alt: emod == 0x01, symbol: Symbol::Char(character as char) },
        ),
        press_text(press_of_raw(emod, 0, character).unwrap()) == (if emod == 0x01 {
            "M-"@
        } else {
            Seq::empty()
        }) + seq![character as char],
{
    let p = press_of_raw(emod, 0, character).unwrap();
    assert(press_text(p) =~= (if emod == 0x01 {
        "M-"@
    } else {
        Seq::empty()
    }) + seq![character as char]);
}

/// Different non-zero key codes never decode to the same press.
pub proof fn lemma_key_codes_distinct(emod: u8, k1: u16, k2: u16, character: u32)
    requires
        k1 != 0,
        k2 != 0,
        k1 != k2,
        press_of_raw(emod, k1, character) is Some,
        press_of_raw(emod, k2, character) is Some,
    ensures
        press_of_raw(emod, k1, character) != press_of_raw(emod, k2, character),
{
    if k1 < 0x20 && k2 < 0x20 {
        let c1 = (k1 + 0x60) as char;
        let c2 = (k2 + 0x60) as char;
        assert(c1 as int == k1 + 0x60);
        assert(c2 as int == k2 + 0x60);
    }
}

fn special_from_key(key: u16) -> (r: Option<Special>)
    ensures
        r == special_for_key(key),
{
    match key {
        0x7f => Some(Special::Backspace),
        0xffff => Some(Special::F(1)),
        0xfffe => Some(Special::F(2)),
        0xfffd => Some(Special::F(3)),
        0xfffc => Some(Special::F(4)),
        0xfffb => Some(Special::F(5)),
        0xfffa => Some(Special::F(6)),
        0xfff9 => Some(Special::F(7)),
        0xfff8 => Some(Special::F(8)),
        0xfff7 => Some(Special::F(9)),
        0xfff6 => Some(Special::F(10)),
        0xfff5 => Some(Special::F(11)),
        0xfff4 => Some(Special::F(12)),
        0xfff3 => Some(Special::Insert),
        0xfff2 => Some(Special::Delete),
        0xfff1 => Some(Special::Home),
        0xfff0 => Some(Special::End),
        0xffef => Some(Special::PageUp),
        0xffee => Some(Special::PageDown),
        0xffed => Some(Special::Up),
        0xffec => Some(Special::Down),
        0xffeb => Some(Special::Left),
        0xffea => Some(Special::Right),
        _ => None,
    }
}

impl Press {
    /// Decodes a raw terminal key event: the modifier byte, the key code
    /// and the code point of the character.
    pub fn from_raw(emod: u8, key: u16, character: u32) -> (r: Option<Self>)
        ensures
            r == press_of_raw(emod, key, character),
            r matches Some(p) ==> p.alt == (emod == 0x01) && p.ctrl == (1 <= key && key < 0x20),
    {
        let alt = emod == 0x01;

        if key == 0 {
            match char_from_u32(character) {
                Some(c) => {
                    assert(c == character as char);
                    Some(Press { ctrl: false, alt: alt, symbol: Symbol::Char(c) })
                },
                None => None,
            }
        } else if key < 0x20 {
            let code: u32 = key as u32 | 0b01100000;
            assert(key < 0x20 ==> (key as u32 | 0b01100000u32) == key as u32 + 0x60) by (bit_vector);
            match char_from_u32(code) {
                Some(c) => {
                    assert(c == (key + 0x60) as char);
                    Some(Press { ctrl: true, alt: alt, symbol: Symbol::Char(c) })
                },
                None => {
                    assert(false);
                    None
                },
            }
        } else if key == 0x20 {
            Some(Press { ctrl: false, alt: alt, symbol: Symbol::Char(' ') })
        } else {
            match special_from_key(key) {
                Some(s) => Some(Press { ctrl: false, alt: alt, symbol: Symbol::Special(s) }),
                None => None,
            }
        }
    }

    /// The press as text, such as `C-M-a` or `page-up`.
    pub fn to_string(&self) -> (s: String)
        ensures
            s@ == press_text(*self),
    {
        let mut s = String::new();
        if self.ctrl {
            s.append("C-");
        }
        if self.alt {
            s.append("M-");
        }
        self.symbol.push_text(&mut s);
        s
    }
}

impl Symbol {
    fn push_text(&self, s: &mut String)
        ensures
            final(s)@ == old(s)@ + symbol_text(*self),
    {
        match self {
            Symbol::Char(c) => {
                push_char(s, *c);
                assert(old(s)@.push(*c) =~= old(s)@ + seq![*c]);
            },
            Symbol::Special(k) => k.push_text(s),
        }
    }

    /// The symbol as text: the character itself or the special key's name.
    pub fn to_string(&self) -> (s: String)
        ensures
            s@ == symbol_text(*self),
    {
        let mut s = String::new();
        self.push_text(&mut s);
        assert(s@ =~= symbol_text(*self));
        s
    }
}

impl Special {
    fn push_text(&self, s: &mut String)
        ensures
            final(s)@ == old(s)@ + special_text(*self),
    {
        match self {
            Special::Backspace => s.append("backspace"),
            Special::F(n) => {
                push_char(s, 'f');
                push_decimal(s, *n as u64);
                assert(old(s)@.push('f') + decimal(*n as nat) =~= old(s)@ + (seq!['f'] + decimal(*n as nat)));
            },
            Special::Insert => s.append("insert"),
            Special::Delete => s.append("delete"),
            Special::Home => s.append("home"),
            Special::End => s.append("end"),
            Special::PageUp => s.append("page-up"),
            Special::PageDown => s.append("page-down"),
            Special::Up => s.append("up"),
            Special::Down => s.append("down"),
            Special::Left => s.append("left"),
            Special::Right => s.append("right"),
        }
    }

    /// The special key as text, such as `backspace` or `f12`.
    pub fn to_string(&self) -> (s: String)
        ensures
            s@ == special_text(*self),
    {
        let mut s = String::new();
        self.push_text(&mut s);
        assert(s@ =~= special_text(*self));
        s
    }
}

} // verus!
