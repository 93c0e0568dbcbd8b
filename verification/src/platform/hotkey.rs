//! Hotkeys: how a hotkey is written and what it stands for.

use crate::text::{chars_of, concat, same_chars, split_chars, split_on, string_of, views};
use crate::{Error, ErrorKind};
use vstd::prelude::*;

verus! {

/// What the hotkey did.
#[derive(Debug, Clone, Copy, PartialEq, Eq, Structural)]
pub enum HotkeyEvent {
    /// The hotkey went down.
    Pressed,
    /// The hotkey came up.
    Released,
}

/// A modifier key.
#[derive(Debug, Clone, Copy, PartialEq, Eq, Structural)]
pub enum Modifier {
    Cmd,
    Shift,
    Opt,
    Ctrl,
}

/// A key that can end a hotkey.
#[derive(Debug, Clone, Copy, PartialEq, Eq, Structural)]
pub enum Key {
    Space,
    Return,
    Tab,
    Escape,
    Delete,
    ForwardDelete,
    Home,
    End,
    PageUp,
    PageDown,
    LeftArrow,
    RightArrow,
    UpArrow,
    DownArrow,
    F1,
    F2,
    F3,
    F4,
    F5,
    F6,
    F7,
    F8,
    F9,
    F10,
    F11,
    F12,
    F13,
    F14,
    F15,
    F16,
    F17,
    F18,
    F19,
    F20,
    A,
    B,
    C,
    D,
    E,
    F,
    G,
    H,
    I,
    J,
    K,
    L,
    M,
    N,
    O,
    P,
    Q,
    R,
    S,
    T,
    U,
    V,
    W,
    X,
    Y,
    Z,
    Num0,
    Num1,
    Num2,
    Num3,
    Num4,
    Num5,
    Num6,
    Num7,
    Num8,
    Num9,
}

/// Which modifiers a hotkey holds.
#[derive(Debug, Clone, Copy, PartialEq, Eq, Structural)]
pub struct Modifiers {
    pub cmd: bool,
    pub shift: bool,
    pub opt: bool,
    pub ctrl: bool,
}

/// A hotkey: modifiers and a key.
#[derive(Debug, Clone, Copy, PartialEq, Eq, Structural)]
pub struct Hotkey {
    pub modifiers: Modifiers,
    pub key: Key,
}

/// A hotkey as the settings write it.
#[derive(Debug, Clone)]
pub struct HotkeyConfig {
    /// The names of the modifiers.
    pub modifiers: Vec<String>,
    /// The name of the key.
    pub key: String,
}

/// The lower-case form of a text, as `str::to_lowercase` gives it.
pub uninterp spec fn lowercase(s: Seq<char>) -> Seq<char>;

/// `str::to_lowercase` of the standard library: the text with each
/// character replaced by its lower-case form, by Unicode's rules.
#[verifier::external_body]
fn to_lower(s: &str) -> (lowered: String)
    ensures
        lowered@ == lowercase(s@),
{
    s.to_lowercase()
}

/// The modifier a lower-case name stands for, if any.
pub open spec fn modifier_named(name: Seq<char>) -> Option<Modifier> {
    if name == "cmd"@ || name == "super"@ || name == "meta"@ {
        Some(Modifier::Cmd)
    } else if name == "shift"@ {
        Some(Modifier::Shift)
    } else if name == "alt"@ || name == "option"@ {
        Some(Modifier::Opt)
    } else if name == "ctrl"@ || name == "control"@ {
        Some(Modifier::Ctrl)
    } else {
        None
    }
}

/// The key a lower-case name stands for, if any.
pub open spec fn key_named(name: Seq<char>) -> Option<Key> {
    if name == "space"@ {
        Some(Key::Space)
    } else if name == "enter"@ || name == "return"@ {
        Some(Key::Return)
    } else if name == "tab"@ {
        Some(Key::Tab)
    } else if name == "escape"@ || name == "esc"@ {
        Some(Key::Escape)
    } else if name == "delete"@ {
        Some(Key::Delete)
    } else if name == "forwarddelete"@ {
        Some(Key::ForwardDelete)
    } else if name == "home"@ {
        Some(Key::Home)
    } else if name == "end"@ {
        Some(Key::End)
    } else if name == "pageup"@ {
        Some(Key::PageUp)
    } else if name == "pagedown"@ {
        Some(Key::PageDown)
    } else if name == "left"@ {
        Some(Key::LeftArrow)
    } else if name == "right"@ {
        Some(Key::RightArrow)
    } else if name == "up"@ {
        Some(Key::UpArrow)
    } else if name == "down"@ {
        Some(Key::DownArrow)
    } else if name == "f1"@ {
        Some(Key::F1)
    } else if name == "f2"@ {
        Some(Key::F2)
    } else if name == "f3"@ {
        Some(Key::F3)
    } else if name == "f4"@ {
        Some(Key::F4)
    } else if name == "f5"@ {
        Some(Key::F5)
    } else if name == "f6"@ {
        Some(Key::F6)
    } else if name == "f7"@ {
        Some(Key::F7)
    } else if name == "f8"@ {
        Some(Key::F8)
    } else if name == "f9"@ {
        Some(Key::F9)
    } else if name == "f10"@ {
        Some(Key::F10)
    } else if name == "f11"@ {
        Some(Key::F11)
    } else if name == "f12"@ {
        Some(Key::F12)
    } else if name == "f13"@ {
        Some(Key::F13)
    } else if name == "f14"@ {
        Some(Key::F14)
    } else if name == "f15"@ {
        Some(Key::F15)
    } else if name == "f16"@ {
        Some(Key::F16)
    } else if name == "f17"@ {
        Some(Key::F17)
    } else if name == "f18"@ {
        Some(Key::F18)
    } else if name == "f19"@ {
        Some(Key::F19)
    } else if name == "f20"@ {
        Some(Key::F20)
    } else if name == "a"@ {
        Some(Key::A)
    } else if name == "b"@ {
        Some(Key::B)
    } else if name == "c"@ {
        Some(Key::C)
    } else if name == "d"@ {
        Some(Key::D)
    } else if name == "e"@ {
        Some(Key::E)
    } else if name == "f"@ {
        Some(Key::F)
    } else if name == "g"@ {
        Some(Key::G)
    } else if name == "h"@ {
        Some(Key::H)
    } else if name == "i"@ {
        Some(Key::I)
    } else if name == "j"@ {
        Some(Key::J)
    } else if name == "k"@ {
        Some(Key::K)
    } else if name == "l"@ {
        Some(Key::L)
    } else if name == "m"@ {
        Some(Key::M)
    } else if name == "n"@ {
        Some(Key::N)
    } else if name == "o"@ {
        Some(Key::O)
    } else if name == "p"@ {
        Some(Key::P)
    } else if name == "q"@ {
        Some(Key::Q)
    } else if name == "r"@ {
        Some(Key::R)
    } else if name == "s"@ {
        Some(Key::S)
    } else if name == "t"@ {
        Some(Key::T)
    } else if name == "u"@ {
        Some(Key::U)
    } else if name == "v"@ {
        Some(Key::V)
    } else if name == "w"@ {
        Some(Key::W)
    } else if name == "x"@ {
        Some(Key::X)
    } else if name == "y"@ {
        Some(Key::Y)
    } else if name == "z"@ {
        Some(Key::Z)
    } else if name == "0"@ {
        Some(Key::Num0)
    } else if name == "1"@ {
        Some(Key::Num1)
    } else if name == "2"@ {
        Some(Key::Num2)
    } else if name == "3"@ {
        Some(Key::Num3)
    } else if name == "4"@ {
        Some(Key::Num4)
    } else if name == "5"@ {
        Some(Key::Num5)
    } else if name == "6"@ {
        Some(Key::Num6)
    } else if name == "7"@ {
        Some(Key::Num7)
    } else if name == "8"@ {
        Some(Key::Num8)
    } else if name == "9"@ {
        Some(Key::Num9)
    } else {
        None
    }
}

/// The modifiers with one more held; an unknown one changes nothing.
pub open spec fn with_modifier(held: Modifiers, modifier: Option<Modifier>) -> Modifiers {
    match modifier {
        Some(Modifier::Cmd) => Modifiers { cmd: true, ..held },
        Some(Modifier::Shift) => Modifiers { shift: true, ..held },
        Some(Modifier::Opt) => Modifiers { opt: true, ..held },
        Some(Modifier::Ctrl) => Modifiers { ctrl: true, ..held },
        None => held,
    }
}

/// The modifiers that lower-case names stand for; unknown names are
/// passed over.
pub open spec fn modifiers_named(names: Seq<Seq<char>>) -> Modifiers
    decreases names.len(),
{
    if names.len() == 0 {
        Modifiers { cmd: false, shift: false, opt: false, ctrl: false }
    } else {
        with_modifier(modifiers_named(names.drop_last()), modifier_named(names.last()))
    }
}

/// The views of the strings.
pub open spec fn texts(strings: Seq<String>) -> Seq<Seq<char>> {
    strings.map_values(|s: String| s@)
}

/// The lower-case forms of the texts.
pub open spec fn lowercased(names: Seq<Seq<char>>) -> Seq<Seq<char>> {
    names.map_values(|name: Seq<char>| lowercase(name))
}

/// The modifier a lower-case name stands for.
pub fn modifier_from_name(lowered: &str) -> (modifier: Option<Modifier>)
    ensures
        modifier == modifier_named(lowered@),
{
    let name = chars_of(lowered);
    if same_chars(&name, &chars_of("cmd")) || same_chars(&name, &chars_of("super")) || same_chars(
        &name,
        &chars_of("meta"),
    ) {
        Some(Modifier::Cmd)
    } else if same_chars(&name, &chars_of("shift")) {
        Some(Modifier::Shift)
    } else if same_chars(&name, &chars_of("alt")) || same_chars(&name, &chars_of("option")) {
        Some(Modifier::Opt)
    } else if same_chars(&name, &chars_of("ctrl")) || same_chars(&name, &chars_of("control")) {
        Some(Modifier::Ctrl)
    } else {
        None
    }
}

/// The key a lower-case name stands for; a configuration error that
/// quotes `written`, the name as it was written, where it stands for
/// none.
pub fn key_from_name(lowered: &str, written: &str) -> (result: Result<Key, Error>)
    ensures
        match key_named(lowered@) {
            Some(key) => result == Ok::<Key, Error>(key),
            None => {
                &&& result matches Err(e)
                &&& e.spec_kind() == ErrorKind::Config
                &&& e.spec_message() == "Unknown key: "@ + written@
            },
        },
{
    let name = chars_of(lowered);
    if same_chars(&name, &chars_of("space")) {
        Ok(Key::Space)
    } else if same_chars(&name, &chars_of("enter")) || same_chars(&name, &chars_of("return")) {
        Ok(Key::Return)
    } else if same_chars(&name, &chars_of("tab")) {
        Ok(Key::Tab)
    } else if same_chars(&name, &chars_of("escape")) || same_chars(&name, &chars_of("esc")) {
        Ok(Key::Escape)
    } else if same_chars(&name, &chars_of("delete")) {
        Ok(Key::Delete)
    } else if same_chars(&name, &chars_of("forwarddelete")) {
        Ok(Key::ForwardDelete)
    } else if same_chars(&name, &chars_of("home")) {
        Ok(Key::Home)
    } else if same_chars(&name, &chars_of("end")) {
        Ok(Key::End)
    } else if same_chars(&name, &chars_of("pageup")) {
        Ok(Key::PageUp)
    } else if same_chars(&name, &chars_of("pagedown")) {
        Ok(Key::PageDown)
    } else if same_chars(&name, &chars_of("left")) {
        Ok(Key::LeftArrow)
    } else if same_chars(&name, &chars_of("right")) {
        Ok(Key::RightArrow)
    } else if same_chars(&name, &chars_of("up")) {
        Ok(Key::UpArrow)
    } else if same_chars(&name, &chars_of("down")) {
        Ok(Key::DownArrow)
    } else if same_chars(&name, &chars_of("f1")) {
        Ok(Key::F1)
    } else if same_chars(&name, &chars_of("f2")) {
        Ok(Key::F2)
    } else if same_chars(&name, &chars_of("f3")) {
        Ok(Key::F3)
    } else if same_chars(&name, &chars_of("f4")) {
        Ok(Key::F4)
    } else if same_chars(&name, &chars_of("f5")) {
        Ok(Key::F5)
    } else if same_chars(&name, &chars_of("f6")) {
        Ok(Key::F6)
    } else if same_chars(&name, &chars_of("f7")) {
        Ok(Key::F7)
    } else if same_chars(&name, &chars_of("f8")) {
        Ok(Key::F8)
    } else if same_chars(&name, &chars_of("f9")) {
        Ok(Key::F9)
    } else if same_chars(&name, &chars_of("f10")) {
        Ok(Key::F10)
    } else if same_chars(&name, &chars_of("f11")) {
        Ok(Key::F11)
    } else if same_chars(&name, &chars_of("f12")) {
        Ok(Key::F12)
    } else if same_chars(&name, &chars_of("f13")) {
        Ok(Key::F13)
    } else if same_chars(&name, &chars_of("f14")) {
        Ok(Key::F14)
    } else if same_chars(&name, &chars_of("f15")) {
        Ok(Key::F15)
    } else if same_chars(&name, &chars_of("f16")) {
        Ok(Key::F16)
    } else if same_chars(&name, &chars_of("f17")) {
        Ok(Key::F17)
    } else if same_chars(&name, &chars_of("f18")) {
        Ok(Key::F18)
    } else if same_chars(&name, &chars_of("f19")) {
        Ok(Key::F19)
    } else if same_chars(&name, &chars_of("f20")) {
        Ok(Key::F20)
    } else if same_chars(&name, &chars_of("a")) {
        Ok(Key::A)
    } else if same_chars(&name, &chars_of("b")) {
        Ok(Key::B)
    } else if same_chars(&name, &chars_of("c")) {
        Ok(Key::C)
    } else if same_chars(&name, &chars_of("d")) {
        Ok(Key::D)
    } else if same_chars(&name, &chars_of("e")) {
        Ok(Key::E)
    } else if same_chars(&name, &chars_of("f")) {
        Ok(Key::F)
    } else if same_chars(&name, &chars_of("g")) {
        Ok(Key::G)
    } else if same_chars(&name, &chars_of("h")) {
        Ok(Key::H)
    } else if same_chars(&name, &chars_of("i")) {
        Ok(Key::I)
    } else if same_chars(&name, &chars_of("j")) {
        Ok(Key::J)
    } else if same_chars(&name, &chars_of("k")) {
        Ok(Key::K)
    } else if same_chars(&name, &chars_of("l")) {
        Ok(Key::L)
    } else if same_chars(&name, &chars_of("m")) {
        Ok(Key::M)
    } else if same_chars(&name, &chars_of("n")) {
        Ok(Key::N)
    } else if same_chars(&name, &chars_of("o")) {
        Ok(Key::O)
    } else if same_chars(&name, &chars_of("p")) {
        Ok(Key::P)
    } else if same_chars(&name, &chars_of("q")) {
        Ok(Key::Q)
    } else if same_chars(&name, &chars_of("r")) {
        Ok(Key::R)
    } else if same_chars(&name, &chars_of("s")) {
        Ok(Key::S)
    } else if same_chars(&name, &chars_of("t")) {
        Ok(Key::T)
    } else if same_chars(&name, &chars_of("u")) {
        Ok(Key::U)
    } else if same_chars(&name, &chars_of("v")) {
        Ok(Key::V)
    } else if same_chars(&name, &chars_of("w")) {
        Ok(Key::W)
    } else if same_chars(&name, &chars_of("x")) {
        Ok(Key::X)
    } else if same_chars(&name, &chars_of("y")) {
        Ok(Key::Y)
    } else if same_chars(&name, &chars_of("z")) {
        Ok(Key::Z)
    } else if same_chars(&name, &chars_of("0")) {
        Ok(Key::Num0)
    } else if same_chars(&name, &chars_of("1")) {
        Ok(Key::Num1)
    } else if same_chars(&name, &chars_of("2")) {
        Ok(Key::Num2)
    } else if same_chars(&name, &chars_of("3")) {
        Ok(Key::Num3)
    } else if same_chars(&name, &chars_of("4")) {
        Ok(Key::Num4)
    } else if same_chars(&name, &chars_of("5")) {
        Ok(Key::Num5)
    } else if same_chars(&name, &chars_of("6")) {
        Ok(Key::Num6)
    } else if same_chars(&name, &chars_of("7")) {
        Ok(Key::Num7)
    } else if same_chars(&name, &chars_of("8")) {
        Ok(Key::Num8)
    } else if same_chars(&name, &chars_of("9")) {
        Ok(Key::Num9)
    } else {
        Err(Error::Config(concat("Unknown key: ", written)))
    }
}

impl Default for HotkeyConfig {
    fn default() -> (config: Self)
        ensures
            texts(config.modifiers@) == seq!["Cmd"@, "Shift"@],
            config.key@ == "Space"@,
    {
        let mut modifiers: Vec<String> = Vec::new();
        modifiers.push("Cmd".to_owned());
        modifiers.push("Shift".to_owned());
        assert(texts(modifiers@) =~= seq!["Cmd"@, "Shift"@]);
        HotkeyConfig { modifiers, key: "Space".to_owned() }
    }
}

impl HotkeyConfig {
    /// Reads a hotkey written as names joined by `+`, such as
    /// "Cmd+Shift+Space": the last name is the key, the ones before it
    /// are the modifiers. Every text can be read so.
    pub fn from_string(s: &str) -> (result: Result<Self, Error>)
        ensures
            result matches Ok(config) && config.key@ == split_on(s@, '+').last() && texts(
                config.modifiers@,
            ) == split_on(s@, '+').drop_last(),
    {
        let chars = chars_of(s);
        let parts = split_chars(&chars, '+');
        let mut modifiers: Vec<String> = Vec::new();
        let last: usize = parts.len() - 1;
        let mut i: usize = 0;
        while i < last
            invariant
                i <= last,
                last + 1 == parts@.len(),
                modifiers@.len() == i,
                forall|k: int| 0 <= k < i ==> (#[trigger] modifiers@[k])@ == parts@[k]@,
            decreases parts@.len() - i,
        {
            modifiers.push(string_of(&parts[i]));
            i = i + 1;
        }
        let key = string_of(&parts[last]);
        assert(texts(modifiers@) =~= views(parts@).drop_last());
        assert(views(parts@).last() == parts@[parts@.len() - 1]@);
        Ok(HotkeyConfig { modifiers, key })
    }

    /// The key a name stands for, whatever its case.
    pub fn parse_key(&self, key_str: &str) -> (result: Result<Key, Error>)
        ensures
            match key_named(lowercase(key_str@)) {
                Some(key) => result == Ok::<Key, Error>(key),
                None => {
                    &&& result matches Err(e)
                    &&& e.spec_kind() == ErrorKind::Config
                    &&& e.spec_message() == "Unknown key: "@ + key_str@
                },
            },
    {
        let lowered = to_lower(key_str);
        key_from_name(lowered.as_str(), key_str)
    }

    /// The hotkey the names stand for, whatever their case. Modifier
    /// names that stand for none are passed over; a key name that stands
    /// for none is an error.
    pub fn to_hotkey(&self) -> (result: Result<Hotkey, Error>)
        ensures
            match key_named(lowercase(self.key@)) {
                Some(key) => result == Ok::<Hotkey, Error>(
                    Hotkey {
                        modifiers: modifiers_named(lowercased(texts(self.modifiers@))),
                        key,
                    },
                ),
                None => {
                    &&& result matches Err(e)
                    &&& e.spec_kind() == ErrorKind::Config
                    &&& e.spec_message() == "Unknown key: "@ + self.key@
                },
            },
    {
        let mut held = Modifiers { cmd: false, shift: false, opt: false, ctrl: false };
        let mut i: usize = 0;
        while i < self.modifiers.len()
            invariant
                i <= self.modifiers@.len(),
                held == modifiers_named(lowercased(texts(self.modifiers@)).take(i as int)),
            decreases self.modifiers@.len() - i,
        {
            let lowered = to_lower(self.modifiers[i].as_str());
            let modifier = modifier_from_name(lowered.as_str());
            proof {
                let names = lowercased(texts(self.modifiers@));
                assert(names.take(i + 1).drop_last() =~= names.take(i as int));
                assert(names.take(i + 1).last() == lowercase(self.modifiers@[i as int]@));
            }
            match modifier {
                Some(Modifier::Cmd) => {
                    held.cmd = true;
                },
                Some(Modifier::Shift) => {
                    held.shift = true;
                },
                Some(Modifier::Opt) => {
                    held.opt = true;
                },
                Some(Modifier::Ctrl) => {
                    held.ctrl = true;
                },
                None => {},
            }
            i = i + 1;
        }
        proof {
            let names = lowercased(texts(self.modifiers@));
            assert(names.take(names.len() as int) =~= names);
        }
        match self.parse_key(self.key.as_str()) {
            Ok(key) => Ok(Hotkey { modifiers: held, key }),
            Err(e) => Err(e),
        }
    }
}

} // verus!
