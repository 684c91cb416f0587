use vstd::prelude::*;

verus! {

/// One event from the input device: a key of the 16-key hex keypad, or the
/// quit signal.
#[derive(Clone, Copy, Debug, PartialEq, Eq, Structural)]
pub enum Input {
    /// A pressed key, as its hex code 0x0-0xF.
    Key(u8),
    /// The user asked to stop the machine.
    Quit,
}

/// One keystroke as the core reads it: a character with or without the
/// control modifier, or the escape key. Translating the terminal's own event
/// type into this is the front end's job.
#[derive(Clone, Copy, Debug, PartialEq, Eq, Structural)]
pub enum KeyStroke {
    /// A character key; the flag says whether control was held.
    Char(char, bool),
    /// The escape key.
    Esc,
}

/// The fixed keyboard-to-hex mapping: the 4x4 block `1234` / `qwer` / `asdf`
/// / `zxcv` (shifted variants included) maps to the hex keypad, control-C and
/// escape ask to quit, everything else is ignored.
pub open spec fn match_key_spec(k: KeyStroke) -> Option<Input> {
    match k {
        KeyStroke::Esc => Some(Input::Quit),
        KeyStroke::Char(c, ctrl) => {
            if (c == 'c' || c == 'C') && ctrl {
                Some(Input::Quit)
            } else if c == '1' || c == '!' {
                Some(Input::Key(0x1))
            } else if c == '2' || c == '@' {
                Some(Input::Key(0x2))
            } else if c == '3' || c == '#' {
                Some(Input::Key(0x3))
            } else if c == '4' || c == '$' {
                Some(Input::Key(0xC))
            } else if c == 'q' || c == 'Q' {
                Some(Input::Key(0x4))
            } else if c == 'w' || c == 'W' {
                Some(Input::Key(0x5))
            } else if c == 'e' || c == 'E' {
                Some(Input::Key(0x6))
            } else if c == 'r' || c == 'R' {
                Some(Input::Key(0xD))
            } else if c == 'a' || c == 'A' {
                Some(Input::Key(0x7))
            } else if c == 's' || c == 'S' {
                Some(Input::Key(0x8))
            } else if c == 'd' || c == 'D' {
                Some(Input::Key(0x9))
            } else if c == 'f' || c == 'F' {
                Some(Input::Key(0xE))
            } else if c == 'z' || c == 'Z' {
                Some(Input::Key(0xA))
            } else if c == 'x' || c == 'X' {
                Some(Input::Key(0x0))
            } else if c == 'c' || c == 'C' {
                Some(Input::Key(0xB))
            } else if c == 'v' || c == 'V' {
                Some(Input::Key(0xF))
            } else {
                None
            }
        },
    }
}

/// The hex keypad: stateless translation of keystrokes into key codes.
pub struct Keypad {}

impl Keypad {
    /// Translate one keystroke by the fixed mapping. Every key code this
    /// returns is below 16.
    pub fn match_key(k: KeyStroke) -> (r: Option<Input>)
        ensures
            r == match_key_spec(k),
            r matches Some(Input::Key(code)) ==> code < 16,
    {
        match k {
            KeyStroke::Esc => Some(Input::Quit),
            KeyStroke::Char(c, ctrl) => {
                if (c == 'c' || c == 'C') && ctrl {
                    Some(Input::Quit)
                } else {
                    match c {
                        '1' | '!' => Some(Input::Key(0x1)),
                        '2' | '@' => Some(Input::Key(0x2)),
                        '3' | '#' => Some(Input::Key(0x3)),
                        '4' | '$' => Some(Input::Key(0xC)),
                        'q' | 'Q' => Some(Input::Key(0x4)),
                        'w' | 'W' => Some(Input::Key(0x5)),
                        'e' | 'E' => Some(Input::Key(0x6)),
                        'r' | 'R' => Some(Input::Key(0xD)),
                        'a' | 'A' => Some(Input::Key(0x7)),
                        's' | 'S' => Some(Input::Key(0x8)),
                        'd' | 'D' => Some(Input::Key(0x9)),
                        'f' | 'F' => Some(Input::Key(0xE)),
                        'z' | 'Z' => Some(Input::Key(0xA)),
                        'x' | 'X' => Some(Input::Key(0x0)),
                        'c' | 'C' => Some(Input::Key(0xB)),
                        'v' | 'V' => Some(Input::Key(0xF)),
                        _ => None,
                    }
                }
            },
        }
    }
}

} // verus!
