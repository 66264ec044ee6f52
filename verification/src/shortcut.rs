//! Keyboard shortcuts for menu items: a logical key plus five independent
//! modifier flags, together with their two native encodings (the
//! key-equivalent string and the modifier bitmask).

use vstd::prelude::*;

verus! {

/// A logical keyboard key for a menu shortcut: a letter, a digit, a function
/// key, one of a few editing keys, or a raw key-equivalent string supplied by
/// the caller through `Other`.
#[derive(Clone, Debug)]
pub enum Key {
    A,
    B,
    C,
    D,
    E,
    F,
    G,
    H,
    I,
    J,
    K,
    L,
    M,
    N,
    O,
    P,
    Q,
    R,
    S,
    T,
    U,
    V,
    W,
    X,
    Y,
    Z,
    Num1,
    Num2,
    Num3,
    Num4,
    Num5,
    Num6,
    Num7,
    Num8,
    Num9,
    Num0,
    F1,
    F2,
    F3,
    F4,
    F5,
    F6,
    F7,
    F8,
    F9,
    F10,
    F11,
    F12,
    Delete,
    Backspace,
    Enter,
    Tab,
    Other(String),
}

impl Key {
    /// The key-equivalent string for this key: letters and digits map to
    /// their own character, function keys map to the reserved function-key
    /// code points starting at U+F704, the editing keys map to their control
    /// characters, and `Other` maps to exactly the string it carries.
    pub open spec fn spec_string(&self) -> Seq<char> {
        match self {
            Key::A => "a"@,
            Key::B => "b"@,
            Key::C => "c"@,
            Key::D => "d"@,
            Key::E => "e"@,
            Key::F => "f"@,
            Key::G => "g"@,
            Key::H => "h"@,
            Key::I => "i"@,
            Key::J => "j"@,
            Key::K => "k"@,
            Key::L => "l"@,
            Key::M => "m"@,
            Key::N => "n"@,
            Key::O => "o"@,
            Key::P => "p"@,
            Key::Q => "q"@,
            Key::R => "r"@,
            Key::S => "s"@,
            Key::T => "t"@,
            Key::U => "u"@,
            Key::V => "v"@,
            Key::W => "w"@,
            Key::X => "x"@,
            Key::Y => "y"@,
            Key::Z => "z"@,
            Key::Num1 => "1"@,
            Key::Num2 => "2"@,
            Key::Num3 => "3"@,
            Key::Num4 => "4"@,
            Key::Num5 => "5"@,
            Key::Num6 => "6"@,
            Key::Num7 => "7"@,
            Key::Num8 => "8"@,
            Key::Num9 => "9"@,
            Key::Num0 => "0"@,
            Key::F1 => "\u{F704}"@,
            Key::F2 => "\u{F705}"@,
            Key::F3 => "\u{F706}"@,
            Key::F4 => "\u{F707}"@,
            Key::F5 => "\u{F708}"@,
            Key::F6 => "\u{F709}"@,
            Key::F7 => "\u{F70A}"@,
            Key::F8 => "\u{F70B}"@,
            Key::F9 => "\u{F70C}"@,
            Key::F10 => "\u{F70D}"@,
            Key::F11 => "\u{F70E}"@,
            Key::F12 => "\u{F70F}"@,
            Key::Delete => "\u{7F}"@,
            Key::Backspace => "\u{8}"@,
            Key::Enter => "\r"@,
            Key::Tab => "\t"@,
            Key::Other(s) => s@,
        }
    }

    /// The key-equivalent string handed to the native menu item, exactly as
    /// `spec_string` describes it.
    pub fn to_string(&self) -> (r: String)
        ensures
            r@ == self.spec_string(),
    {
        match self {
            Key::A => "a".to_owned(),
            Key::B => "b".to_owned(),
            Key::C => "c".to_owned(),
            Key::D => "d".to_owned(),
            Key::E => "e".to_owned(),
            Key::F => "f".to_owned(),
            Key::G => "g".to_owned(),
            Key::H => "h".to_owned(),
            Key::I => "i".to_owned(),
            Key::J => "j".to_owned(),
            Key::K => "k".to_owned(),
            Key::L => "l".to_owned(),
            Key::M => "m".to_owned(),
            Key::N => "n".to_owned(),
            Key::O => "o".to_owned(),
            Key::P => "p".to_owned(),
            Key::Q => "q".to_owned(),
            Key::R => "r".to_owned(),
            Key::S => "s".to_owned(),
            Key::T => "t".to_owned(),
            Key::U => "u".to_owned(),
            Key::V => "v".to_owned(),
            Key::W => "w".to_owned(),
            Key::X => "x".to_owned(),
            Key::Y => "y".to_owned(),
            Key::Z => "z".to_owned(),
            Key::Num1 => "1".to_owned(),
            Key::Num2 => "2".to_owned(),
            Key::Num3 => "3".to_owned(),
            Key::Num4 => "4".to_owned(),
            Key::Num5 => "5".to_owned(),
            Key::Num6 => "6".to_owned(),
            Key::Num7 => "7".to_owned(),
            Key::Num8 => "8".to_owned(),
            Key::Num9 => "9".to_owned(),
            Key::Num0 => "0".to_owned(),
            Key::F1 => "\u{F704}".to_owned(),
            Key::F2 => "\u{F705}".to_owned(),
            Key::F3 => "\u{F706}".to_owned(),
            Key::F4 => "\u{F707}".to_owned(),
            Key::F5 => "\u{F708}".to_owned(),
            Key::F6 => "\u{F709}".to_owned(),
            Key::F7 => "\u{F70A}".to_owned(),
            Key::F8 => "\u{F70B}".to_owned(),
            Key::F9 => "\u{F70C}".to_owned(),
            Key::F10 => "\u{F70D}".to_owned(),
            Key::F11 => "\u{F70E}".to_owned(),
            Key::F12 => "\u{F70F}".to_owned(),
            Key::Delete => "\u{7F}".to_owned(),
            Key::Backspace => "\u{8}".to_owned(),
            Key::Enter => "\r".to_owned(),
            Key::Tab => "\t".to_owned(),
            Key::Other(s) => s.clone(),
        }
    }
}

/// Each named key maps to its documented literal or control character, and
/// `Other` round-trips to exactly the string it carries. Letters and digits
/// are shown here for a representative sample; the function keys cover the
/// whole reserved range U+F704 through U+F70F.
pub proof fn lemma_key_string_contents()
    ensures
        Key::A.spec_string() =~= seq!['a'],
        Key::M.spec_string() =~= seq!['m'],
        Key::Z.spec_string() =~= seq!['z'],
        Key::Num0.spec_string() =~= seq!['0'],
        Key::Num1.spec_string() =~= seq!['1'],
        Key::Num9.spec_string() =~= seq!['9'],
        Key::F1.spec_string() =~= seq!['\u{F704}'],
        Key::F2.spec_string() =~= seq!['\u{F705}'],
        Key::F3.spec_string() =~= seq!['\u{F706}'],
        Key::F4.spec_string() =~= seq!['\u{F707}'],
        Key::F5.spec_string() =~= seq!['\u{F708}'],
        Key::F6.spec_string() =~= seq!['\u{F709}'],
        Key::F7.spec_string() =~= seq!['\u{F70A}'],
        Key::F8.spec_string() =~= seq!['\u{F70B}'],
        Key::F9.spec_string() =~= seq!['\u{F70C}'],
        Key::F10.spec_string() =~= seq!['\u{F70D}'],
        Key::F11.spec_string() =~= seq!['\u{F70E}'],
        Key::F12.spec_string() =~= seq!['\u{F70F}'],
        Key::Delete.spec_string() =~= seq!['\u{7F}'],
        Key::Backspace.spec_string() =~= seq!['\u{8}'],
        Key::Enter.spec_string() =~= seq!['\r'],
        Key::Tab.spec_string() =~= seq!['\t'],
        forall|s: String| (#[trigger] Key::Other(s).spec_string()) == s@,
{
    reveal_strlit("a");
    reveal_strlit("m");
    reveal_strlit("z");
    reveal_strlit("0");
    reveal_strlit("1");
    reveal_strlit("9");
    reveal_strlit("\u{F704}");
    reveal_strlit("\u{F705}");
    reveal_strlit("\u{F706}");
    reveal_strlit("\u{F707}");
    reveal_strlit("\u{F708}");
    reveal_strlit("\u{F709}");
    reveal_strlit("\u{F70A}");
    reveal_strlit("\u{F70B}");
    reveal_strlit("\u{F70C}");
    reveal_strlit("\u{F70D}");
    reveal_strlit("\u{F70E}");
    reveal_strlit("\u{F70F}");
    reveal_strlit("\u{7F}");
    reveal_strlit("\u{8}");
    reveal_strlit("\r");
    reveal_strlit("\t");
}

/// A keyboard shortcut: one key and five independent modifier flags. All
/// flags start out false; the builder-style setters flip one flag each.
#[derive(Clone, Debug)]
pub struct Shortcut {
    pub key: Key,
    pub capslock: bool,
    pub shift: bool,
    pub control: bool,
    pub option: bool,
    pub command: bool,
}

impl Shortcut {
    /// The native modifier bitmask: one fixed bit per flag, bits 16 through
    /// 20 for caps-lock, shift, control, option and command in that order.
    pub open spec fn spec_mask(&self) -> usize {
        (if self.capslock {
            1usize << 16
        } else {
            0usize
        }) | (if self.shift {
            1usize << 17
        } else {
            0usize
        }) | (if self.control {
            1usize << 18
        } else {
            0usize
        }) | (if self.option {
            1usize << 19
        } else {
            0usize
        }) | (if self.command {
            1usize << 20
        } else {
            0usize
        })
    }

    /// A shortcut for `key` with every modifier flag cleared.
    pub fn new(key: Key) -> (r: Self)
        ensures
            r.key == key,
            !r.capslock,
            !r.shift,
            !r.control,
            !r.option,
            !r.command,
    {
        Self { key, capslock: false, shift: false, control: false, option: false, command: false }
    }

    /// Sets the caps-lock flag, keeping everything else.
    pub fn capslock(self, capslock: bool) -> (r: Self)
        ensures
            r.capslock == capslock,
            r.key == self.key,
            r.shift == self.shift,
            r.control == self.control,
            r.option == self.option,
            r.command == self.command,
    {
        Self { capslock, ..self }
    }

    /// Sets the shift flag, keeping everything else.
    pub fn shift(self, shift: bool) -> (r: Self)
        ensures
            r.shift == shift,
            r.key == self.key,
            r.capslock == self.capslock,
            r.control == self.control,
            r.option == self.option,
            r.command == self.command,
    {
        Self { shift, ..self }
    }

    /// Sets the control flag, keeping everything else.
    pub fn control(self, control: bool) -> (r: Self)
        ensures
            r.control == control,
            r.key == self.key,
            r.capslock == self.capslock,
            r.shift == self.shift,
            r.option == self.option,
            r.command == self.command,
    {
        Self { control, ..self }
    }

    /// Sets the option flag, keeping everything else.
    pub fn option(self, option: bool) -> (r: Self)
        ensures
            r.option == option,
            r.key == self.key,
            r.capslock == self.capslock,
            r.shift == self.shift,
            r.control == self.control,
            r.command == self.command,
    {
        Self { option, ..self }
    }

    /// Sets the command flag, keeping everything else.
    pub fn command(self, command: bool) -> (r: Self)
        ensures
            r.command == command,
            r.key == self.key,
            r.capslock == self.capslock,
            r.shift == self.shift,
            r.control == self.control,
            r.option == self.option,
    {
        Self { command, ..self }
    }

    /// The native modifier bitmask for this shortcut, exactly as `spec_mask`
    /// describes it.
    pub fn mask(&self) -> (r: usize)
        ensures
            r == self.spec_mask(),
    {
        (if self.capslock {
            1usize << 16
        } else {
            0usize
        }) | (if self.shift {
            1usize << 17
        } else {
            0usize
        }) | (if self.control {
            1usize << 18
        } else {
            0usize
        }) | (if self.option {
            1usize << 19
        } else {
            0usize
        }) | (if self.command {
            1usize << 20
        } else {
            0usize
        })
    }
}

/// The modifier mask holds exactly the bit for each flag that is set: each of
/// bits 16 through 20 is present if and only if its flag is true, no other
/// bit is ever set, and the mask is 0 exactly when no flag is set.
pub proof fn lemma_mask_bits(s: Shortcut)
    ensures
        s.spec_mask() & (1usize << 16) == (if s.capslock {
            1usize << 16
        } else {
            0usize
        }),
        s.spec_mask() & (1usize << 17) == (if s.shift {
            1usize << 17
        } else {
            0usize
        }),
        s.spec_mask() & (1usize << 18) == (if s.control {
            1usize << 18
        } else {
            0usize
        }),
        s.spec_mask() & (1usize << 19) == (if s.option {
            1usize << 19
        } else {
            0usize
        }),
        s.spec_mask() & (1usize << 20) == (if s.command {
            1usize << 20
        } else {
            0usize
        }),
        s.spec_mask() & !0x1F0000usize == 0,
        (s.spec_mask() == 0) <==> (!s.capslock && !s.shift && !s.control && !s.option
            && !s.command),
{
    let t0: usize = if s.capslock { 1usize << 16 } else { 0usize };
    let t1: usize = if s.shift { 1usize << 17 } else { 0usize };
    let t2: usize = if s.control { 1usize << 18 } else { 0usize };
    let t3: usize = if s.option { 1usize << 19 } else { 0usize };
    let t4: usize = if s.command { 1usize << 20 } else { 0usize };
    assert(s.spec_mask() == t0 | t1 | t2 | t3 | t4);
    assert((t0 | t1 | t2 | t3 | t4) & (1usize << 16) == t0 && (t0 | t1 | t2 | t3 | t4) & (1usize
        << 17) == t1 && (t0 | t1 | t2 | t3 | t4) & (1usize << 18) == t2 && (t0 | t1 | t2 | t3 | t4)
        & (1usize << 19) == t3 && (t0 | t1 | t2 | t3 | t4) & (1usize << 20) == t4 && (t0 | t1 | t2
        | t3 | t4) & !0x1F0000usize == 0 && (((t0 | t1 | t2 | t3 | t4) == 0) <==> (t0 == 0 && t1
        == 0 && t2 == 0 && t3 == 0 && t4 == 0))) by (bit_vector)
        requires
            t0 == 1usize << 16 || t0 == 0usize,
            t1 == 1usize << 17 || t1 == 0usize,
            t2 == 1usize << 18 || t2 == 0usize,
            t3 == 1usize << 19 || t3 == 0usize,
            t4 == 1usize << 20 || t4 == 0usize,
    ;
    assert((1usize << 16) != 0usize && (1usize << 17) != 0usize && (1usize << 18) != 0usize && (
    1usize << 19) != 0usize && (1usize << 20) != 0usize) by (bit_vector);
}

} // verus!
