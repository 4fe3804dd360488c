//! The terminal layer's plain data: raw-mode configuration of the
//! terminal's line settings, window sizes and the events they become.

use vstd::prelude::*;

verus! {

/// The line settings of a terminal: the four flag words and the control
/// characters, as the platform's `termios` holds them.
pub struct Termios {
    pub input_flags: u64,
    pub output_flags: u64,
    pub local_flags: u64,
    pub control_flags: u64,
    pub control_chars: Vec<u8>,
}

/// The value of a `Termios`.
pub struct TermiosView {
    pub input_flags: u64,
    pub output_flags: u64,
    pub local_flags: u64,
    pub control_flags: u64,
    pub control_chars: Seq<u8>,
}

impl View for Termios {
    type V = TermiosView;

    open spec fn view(&self) -> TermiosView {
        TermiosView {
            input_flags: self.input_flags,
            output_flags: self.output_flags,
            local_flags: self.local_flags,
            control_flags: self.control_flags,
            control_chars: self.control_chars@,
        }
    }
}

/// The platform's values of the flags that raw mode changes, and the
/// positions of the `VMIN` and `VTIME` control characters.
#[derive(Clone, Copy, Debug, PartialEq, Eq, Structural)]
pub struct RawModeFlags {
    pub ignbrk: u64,
    pub brkint: u64,
    pub parmrk: u64,
    pub istrip: u64,
    pub inlcr: u64,
    pub igncr: u64,
    pub icrnl: u64,
    pub ixon: u64,
    pub opost: u64,
    pub echo: u64,
    pub echonl: u64,
    pub icanon: u64,
    pub isig: u64,
    pub iexten: u64,
    pub csize: u64,
    pub parenb: u64,
    pub cs8: u64,
    pub vmin: usize,
    pub vtime: usize,
}

/// The input flags that raw mode clears: break handling, parity marking,
/// eighth-bit stripping, carriage-return and newline translation and
/// flow control.
pub open spec fn raw_input_mask(f: RawModeFlags) -> u64 {
    f.ignbrk | f.brkint | f.parmrk | f.istrip | f.inlcr | f.igncr | f.icrnl | f.ixon
}

/// The local flags that raw mode clears: echo, canonical line editing,
/// signal characters and extended input processing.
pub open spec fn raw_local_mask(f: RawModeFlags) -> u64 {
    f.echo | f.echonl | f.icanon | f.isig | f.iexten
}

/// The settings of raw mode, made from `t`: the masked flags cleared,
/// output post-processing off, eight-bit characters without parity, and
/// reads that return at once (`VMIN` and `VTIME` zero).
pub open spec fn raw_mode(t: TermiosView, f: RawModeFlags) -> TermiosView {
    TermiosView {
        input_flags: t.input_flags & !raw_input_mask(f),
        output_flags: t.output_flags & !f.opost,
        local_flags: t.local_flags & !raw_local_mask(f),
        control_flags: (t.control_flags & !(f.csize | f.parenb)) | f.cs8,
        control_chars: t.control_chars.update(f.vmin as int, 0).update(f.vtime as int, 0),
    }
}

/// Puts the settings `tios` into raw mode.
pub fn config_tios(tios: &mut Termios, flags: &RawModeFlags)
    requires
        flags.vmin < old(tios).control_chars@.len(),
        flags.vtime < old(tios).control_chars@.len(),
    ensures
        final(tios)@ == raw_mode(old(tios)@, *flags),
{
    tios.input_flags = tios.input_flags & !(flags.ignbrk | flags.brkint | flags.parmrk
        | flags.istrip | flags.inlcr | flags.igncr | flags.icrnl | flags.ixon);
    tios.output_flags = tios.output_flags & !flags.opost;
    tios.local_flags = tios.local_flags & !(flags.echo | flags.echonl | flags.icanon
        | flags.isig | flags.iexten);
    tios.control_flags = tios.control_flags & !(flags.csize | flags.parenb);
    tios.control_flags = tios.control_flags | flags.cs8;
    tios.control_chars.set(flags.vmin, 0);
    tios.control_chars.set(flags.vtime, 0);
    assert(tios@.control_chars =~= raw_mode(old(tios)@, *flags).control_chars);
}

/// Raw mode is idempotent: configuring settings that are already in raw
/// mode changes nothing.
pub proof fn lemma_raw_mode_idempotent(t: TermiosView, f: RawModeFlags)
    requires
        f.vmin < t.control_chars.len(),
        f.vtime < t.control_chars.len(),
    ensures
        raw_mode(raw_mode(t, f), f) == raw_mode(t, f),
{
    let r = raw_mode(t, f);
    let (i, im, o, op, l, lm, c, cm, cs) = (
        t.input_flags,
        raw_input_mask(f),
        t.output_flags,
        f.opost,
        t.local_flags,
        raw_local_mask(f),
        t.control_flags,
        f.csize | f.parenb,
        f.cs8,
    );
    assert((i & !im) & !im == i & !im) by (bit_vector);
    assert((o & !op) & !op == o & !op) by (bit_vector);
    assert((l & !lm) & !lm == l & !lm) by (bit_vector);
    assert((((c & !cm) | cs) & !cm) | cs == (c & !cm) | cs) by (bit_vector);
    assert(raw_mode(r, f).control_chars =~= r.control_chars);
}

/// In raw mode every masked flag is off, output post-processing is off,
/// the `cs8` bits are on, and `VMIN` and `VTIME` are zero.
pub proof fn lemma_raw_mode_effect(t: TermiosView, f: RawModeFlags)
    requires
        f.vmin < t.control_chars.len(),
        f.vtime < t.control_chars.len(),
    ensures
        raw_mode(t, f).input_flags & raw_input_mask(f) == 0,
        raw_mode(t, f).output_flags & f.opost == 0,
        raw_mode(t, f).local_flags & raw_local_mask(f) == 0,
        raw_mode(t, f).control_flags & f.cs8 == f.cs8,
        raw_mode(t, f).control_chars[f.vmin as int] == 0,
        raw_mode(t, f).control_chars[f.vtime as int] == 0,
        raw_mode(t, f).control_chars.len() == t.control_chars.len(),
        raw_mode(t, f).input_flags & (f.ignbrk | f.brkint | f.parmrk | f.istrip) == 0,
        raw_mode(t, f).input_flags & (f.inlcr | f.igncr | f.icrnl | f.ixon) == 0,
        raw_mode(t, f).local_flags & (f.echo | f.echonl | f.icanon) == 0,
        raw_mode(t, f).local_flags & (f.isig | f.iexten) == 0,
        raw_mode(t, f).control_flags & ((f.csize | f.parenb) & !f.cs8) == 0,
{
    let (i, im, o, op, l, lm, c, cm, cs) = (
        t.input_flags,
        raw_input_mask(f),
        t.output_flags,
        f.opost,
        t.local_flags,
        raw_local_mask(f),
        t.control_flags,
        f.csize | f.parenb,
        f.cs8,
    );
    assert((i & !im) & im == 0) by (bit_vector);
    assert((o & !op) & op == 0) by (bit_vector);
    assert((l & !lm) & lm == 0) by (bit_vector);
    assert(((c & !cm) | cs) & cs == cs) by (bit_vector);
    assert(((c & !cm) | cs) & (cm & !cs) == 0) by (bit_vector);
    let (a1, a2, a3, a4, a5, a6, a7, a8) = (f.ignbrk, f.brkint, f.parmrk, f.istrip, f.inlcr, f.igncr, f.icrnl, f.ixon);
    assert((i & !(a1 | a2 | a3 | a4 | a5 | a6 | a7 | a8)) & (a1 | a2 | a3 | a4) == 0) by (bit_vector);
    assert((i & !(a1 | a2 | a3 | a4 | a5 | a6 | a7 | a8)) & (a5 | a6 | a7 | a8) == 0) by (bit_vector);
    let (b1, b2, b3, b4, b5) = (f.echo, f.echonl, f.icanon, f.isig, f.iexten);
    assert((l & !(b1 | b2 | b3 | b4 | b5)) & (b1 | b2 | b3) == 0) by (bit_vector);
    assert((l & !(b1 | b2 | b3 | b4 | b5)) & (b4 | b5) == 0) by (bit_vector);
}

/// Raw mode changes nothing but what it is meant to: every input, output
/// and local flag outside its mask keeps its value, every control flag
/// outside `csize | parenb | cs8` keeps its value, the `cs8` bits are set
/// and the rest of `csize | parenb` cleared, and every control character
/// other than `VMIN` and `VTIME` is kept.
pub proof fn lemma_raw_mode_keeps_the_rest(t: TermiosView, f: RawModeFlags)
    requires
        f.vmin < t.control_chars.len(),
        f.vtime < t.control_chars.len(),
    ensures
        raw_mode(t, f).input_flags & !raw_input_mask(f) == t.input_flags & !raw_input_mask(f),
        raw_mode(t, f).output_flags & !f.opost == t.output_flags & !f.opost,
        raw_mode(t, f).local_flags & !raw_local_mask(f) == t.local_flags & !raw_local_mask(f),
        raw_mode(t, f).control_flags & !(f.csize | f.parenb | f.cs8) == t.control_flags & !(f.csize
            | f.parenb | f.cs8),
        raw_mode(t, f).control_flags & ((f.csize | f.parenb) & !f.cs8) == 0,
        raw_mode(t, f).control_chars.len() == t.control_chars.len(),
        forall|k: int|
            0 <= k < t.control_chars.len() && k != f.vmin && k != f.vtime
                ==> #[trigger] raw_mode(t, f).control_chars[k] == t.control_chars[k],
{
    let (i, im, o, op, l, lm, c, cm, cs) = (
        t.input_flags,
        raw_input_mask(f),
        t.output_flags,
        f.opost,
        t.local_flags,
        raw_local_mask(f),
        t.control_flags,
        f.csize | f.parenb,
        f.cs8,
    );
    assert((i & !im) & !im == i & !im) by (bit_vector);
    assert((o & !op) & !op == o & !op) by (bit_vector);
    assert((l & !lm) & !lm == l & !lm) by (bit_vector);
    assert(((c & !cm) | cs) & !(cm | cs) == c & !(cm | cs)) by (bit_vector);
    assert(((c & !cm) | cs) & (cm & !cs) == 0) by (bit_vector);
}

/// Something that happened at the terminal.
#[derive(Clone, Copy, Debug, PartialEq, Eq, Structural)]
pub enum Event {
    /// The window now has this many columns and rows.
    Resized(usize, usize),
}

/// A terminal window size, as the `TIOCGWINSZ` request reports it.
#[derive(Clone, Copy, Debug, PartialEq, Eq, Structural)]
pub struct WinSize {
    pub ws_row: u16,
    pub ws_col: u16,
    pub ws_xpixel: u16,
    pub ws_ypixel: u16,
}

impl WinSize {
    /// The resize event for this size: columns first, then rows.
    pub fn to_event(&self) -> (e: Event)
        ensures
            e == Event::Resized(self.ws_col as usize, self.ws_row as usize),
    {
        Event::Resized(self.ws_col as usize, self.ws_row as usize)
    }
}

} // verus!
