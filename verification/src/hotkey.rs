//! The hotkey grammar and matching engine: parsing a shortcut string into a
//! canonical `{modifiers, key}` pair, serializing it back, and testing it
//! against a set of currently held keys.
//!
//! Grammar: tokens are the `'+'`-separated segments of the input. A single
//! token is read directly as a main key. With several tokens, each is
//! trimmed (an empty one is an error) and matched case-insensitively against
//! the modifier alias table or, failing that, the key table; once a main key
//! has been read, any further token is an error, and an input without a main
//! key is an error too.

use vstd::prelude::*;

use crate::keys::{
    is_modifier_key, key_index, key_name, key_of_token, spec_is_modifier_key, spec_key_index,
    spec_key_name, spec_key_of, KeyCode,
};
use crate::text::{
    chars_eq_str, chars_vec, spec_split_plus, spec_trim, spec_upper, split_plus, string_of,
    to_upper, trim,
};

verus! {

/// A set of modifier flags. `meta` is a legacy alias: construction through
/// `HotKey::new` folds it into `superkey`, and matching ignores it.
#[derive(Debug, Clone, Copy, PartialEq, Eq, Structural, Hash)]
pub struct Modifiers {
    pub shift: bool,
    pub control: bool,
    pub alt: bool,
    pub superkey: bool,
    pub meta: bool,
}

impl Modifiers {
    pub open spec fn spec_empty() -> Modifiers {
        Modifiers { shift: false, control: false, alt: false, superkey: false, meta: false }
    }

    pub fn empty() -> (r: Modifiers)
        ensures
            r == Modifiers::spec_empty(),
    {
        Modifiers { shift: false, control: false, alt: false, superkey: false, meta: false }
    }

    /// The union of two flag sets.
    pub open spec fn spec_or(self, o: Modifiers) -> Modifiers {
        Modifiers {
            shift: self.shift || o.shift,
            control: self.control || o.control,
            alt: self.alt || o.alt,
            superkey: self.superkey || o.superkey,
            meta: self.meta || o.meta,
        }
    }

    pub fn or(self, o: Modifiers) -> (r: Modifiers)
        ensures
            r == self.spec_or(o),
    {
        Modifiers {
            shift: self.shift || o.shift,
            control: self.control || o.control,
            alt: self.alt || o.alt,
            superkey: self.superkey || o.superkey,
            meta: self.meta || o.meta,
        }
    }

    /// The comparable projection used by matching: only the base four flags
    /// (Shift, Control, Alt, Super) count; `meta` is masked away.
    pub open spec fn spec_base(self) -> Modifiers {
        Modifiers {
            shift: self.shift,
            control: self.control,
            alt: self.alt,
            superkey: self.superkey,
            meta: false,
        }
    }

    pub fn base(self) -> (r: Modifiers)
        ensures
            r == self.spec_base(),
    {
        Modifiers {
            shift: self.shift,
            control: self.control,
            alt: self.alt,
            superkey: self.superkey,
            meta: false,
        }
    }

    /// Construction-time normalization: `meta` is folded into `superkey`.
    pub open spec fn spec_normalized(self) -> Modifiers {
        Modifiers {
            shift: self.shift,
            control: self.control,
            alt: self.alt,
            superkey: self.superkey || self.meta,
            meta: false,
        }
    }

    pub fn normalized(self) -> (r: Modifiers)
        ensures
            r == self.spec_normalized(),
    {
        Modifiers {
            shift: self.shift,
            control: self.control,
            alt: self.alt,
            superkey: self.superkey || self.meta,
            meta: false,
        }
    }

    /// The flags as a bit mask: Shift 1, Control 2, Alt 4, Super 8, Meta 16.
    pub open spec fn spec_bits(self) -> u32 {
        (if self.shift {
            1u32
        } else {
            0u32
        }) | (if self.control {
            2u32
        } else {
            0u32
        }) | (if self.alt {
            4u32
        } else {
            0u32
        }) | (if self.superkey {
            8u32
        } else {
            0u32
        }) | (if self.meta {
            16u32
        } else {
            0u32
        })
    }

    pub fn bits(self) -> (r: u32)
        ensures
            r == self.spec_bits(),
    {
        (if self.shift {
            1u32
        } else {
            0u32
        }) | (if self.control {
            2u32
        } else {
            0u32
        }) | (if self.alt {
            4u32
        } else {
            0u32
        }) | (if self.superkey {
            8u32
        } else {
            0u32
        }) | (if self.meta {
            16u32
        } else {
            0u32
        })
    }
}

/// Why a hotkey string was rejected.
#[derive(Debug, Clone, PartialEq, Eq)]
pub enum HotKeyParseError {
    /// A token that had to be a main key names no known key.
    UnsupportedKey(String),
    /// A `'+'`-delimited segment was blank after trimming.
    EmptyToken(String),
    /// Several main keys, a main key before a modifier, or no main key.
    InvalidFormat(String),
}

/// The same taxonomy over mathematical strings, for contracts.
pub enum ParseFailure {
    UnsupportedKey(Seq<char>),
    EmptyToken(Seq<char>),
    InvalidFormat(Seq<char>),
}

/// How an executable parse result realizes a specification-level one.
pub open spec fn parse_result_is(
    r: Result<HotKey, HotKeyParseError>,
    s: Result<HotKey, ParseFailure>,
) -> bool {
    match (r, s) {
        (Ok(h), Ok(hs)) => h == hs,
        (Err(HotKeyParseError::UnsupportedKey(t)), Err(ParseFailure::UnsupportedKey(ts))) => t@
            == ts,
        (Err(HotKeyParseError::EmptyToken(t)), Err(ParseFailure::EmptyToken(ts))) => t@ == ts,
        (Err(HotKeyParseError::InvalidFormat(t)), Err(ParseFailure::InvalidFormat(ts))) => t@ == ts,
        _ => false,
    }
}

/// A keyboard shortcut: a set of modifiers plus exactly one main key.
/// Immutable once constructed; two hotkeys are equal iff their normalized
/// modifier sets and key symbols are equal.
#[derive(Debug, Clone, Copy, PartialEq, Eq, Structural, Hash)]
pub struct HotKey {
    /// The hotkey modifiers, already normalized (no `meta`).
    pub mods: Modifiers,
    /// The hotkey main key.
    pub key: KeyCode,
    /// A stable number identifying the combination.
    pub id: u32,
}

impl HotKey {
    /// What `new` builds from a raw modifier set and a key.
    pub open spec fn spec_new(mods: Modifiers, key: KeyCode) -> HotKey {
        let m = mods.spec_normalized();
        HotKey { mods: m, key, id: (m.spec_bits() << 16u32) | spec_key_index(key) }
    }

    /// Every hotkey that construction can produce satisfies this.
    pub open spec fn wf(self) -> bool {
        self == HotKey::spec_new(self.mods, self.key)
    }

    /// A new hotkey; `meta` in the given modifiers is folded into Super.
    pub fn new(mods: Option<Modifiers>, key: KeyCode) -> (r: HotKey)
        ensures
            r == HotKey::spec_new(
                match mods {
                    Some(m) => m,
                    None => Modifiers::spec_empty(),
                },
                key,
            ),
            r.wf(),
    {
        let m = match mods {
            Some(m) => m,
            None => Modifiers::empty(),
        }.normalized();
        let id = (m.bits() << 16u32) | key_index(key);
        proof {
            assert(m.spec_normalized() == m);
        }
        HotKey { mods: m, key, id }
    }

    /// The id: the modifier bit mask shifted left by 16, or-ed with the
    /// key's number.
    pub fn id(&self) -> (r: u32)
        ensures
            r == self.id,
    {
        self.id
    }

    /// Whether a live modifier state and main key hit this hotkey. Only the
    /// base four modifier flags take part in the comparison.
    pub open spec fn spec_matches(self, modifiers: Modifiers, key: KeyCode) -> bool {
        self.mods == modifiers.spec_base() && self.key == key
    }

    pub fn matches(&self, modifiers: Modifiers, key: KeyCode) -> (r: bool)
        ensures
            r == self.spec_matches(modifiers, key),
    {
        self.mods == modifiers.base() && self.key == key
    }

    /// The canonical spelling: modifiers in the fixed order Shift, Control,
    /// Alt, Super, each followed by `'+'`, then the lower-cased key name.
    pub open spec fn spec_format(self) -> Seq<char> {
        (if self.mods.shift {
            "shift+"@
        } else {
            Seq::<char>::empty()
        }) + (if self.mods.control {
            "control+"@
        } else {
            Seq::<char>::empty()
        }) + (if self.mods.alt {
            "alt+"@
        } else {
            Seq::<char>::empty()
        }) + (if self.mods.superkey {
            "super+"@
        } else {
            Seq::<char>::empty()
        }) + spec_key_name(self.key)
    }

    /// Serializes the hotkey; the inverse projection of parsing.
    pub fn into_string(self) -> (r: String)
        ensures
            r@ == self.spec_format(),
    {
        let mut out = String::new();
        if self.mods.shift {
            out.append("shift+");
        }
        if self.mods.control {
            out.append("control+");
        }
        if self.mods.alt {
            out.append("alt+");
        }
        if self.mods.superkey {
            out.append("super+");
        }
        out.append(key_name(self.key));
        proof {
            assert(out@ =~= self.spec_format());
        }
        out
    }

    /// Folding a set of held keys: each modifier key raises its flag; each
    /// other key becomes the main-key candidate, the last one seen winning.
    pub open spec fn spec_fold_keys(codes: Seq<KeyCode>) -> (Modifiers, Option<KeyCode>)
        decreases codes.len(),
    {
        if codes.len() == 0 {
            (Modifiers::spec_empty(), None::<KeyCode>)
        } else {
            let (m, k) = HotKey::spec_fold_keys(codes.drop_last());
            let c = codes.last();
            if spec_is_modifier_key(c) {
                (m.spec_or(spec_modifier_key_flag(c)), k)
            } else {
                (m, Some(c))
            }
        }
    }

    /// Whether the held keys hit this hotkey: false when no main key is
    /// held, else a masked comparison of the folded state.
    pub open spec fn spec_check(self, codes: Seq<KeyCode>) -> bool {
        match HotKey::spec_fold_keys(codes).1 {
            None => false,
            Some(k) => self.spec_matches(HotKey::spec_fold_keys(codes).0, k),
        }
    }

    pub fn check(&self, codes: &Vec<KeyCode>) -> (r: bool)
        ensures
            r == self.spec_check(codes@),
    {
        let mut mods = Modifiers::empty();
        let mut key: Option<KeyCode> = None;
        let mut i: usize = 0;
        while i < codes.len()
            invariant
                i <= codes.len(),
                (mods, key) == HotKey::spec_fold_keys(codes@.take(i as int)),
            decreases codes.len() - i,
        {
            proof {
                assert(codes@.take(i + 1).drop_last() =~= codes@.take(i as int));
            }
            let c = codes[i];
            if is_modifier_key(c) {
                mods = mods.or(modifier_key_flag(c));
            } else {
                key = Some(c);
            }
            i += 1;
        }
        proof {
            assert(codes@.take(codes@.len() as int) =~= codes@);
        }
        match key {
            None => false,
            Some(k) => self.matches(mods, k),
        }
    }
}

/// The modifier flag a physical modifier key contributes: the Meta keys
/// count as Super, as the platform reports them.
pub open spec fn spec_modifier_key_flag(k: KeyCode) -> Modifiers {
    match k {
        KeyCode::ShiftLeft | KeyCode::ShiftRight => Modifiers {
            shift: true,
            control: false,
            alt: false,
            superkey: false,
            meta: false,
        },
        KeyCode::ControlLeft | KeyCode::ControlRight => Modifiers {
            shift: false,
            control: true,
            alt: false,
            superkey: false,
            meta: false,
        },
        KeyCode::AltLeft | KeyCode::AltRight => Modifiers {
            shift: false,
            control: false,
            alt: true,
            superkey: false,
            meta: false,
        },
        KeyCode::MetaLeft | KeyCode::MetaRight => Modifiers {
            shift: false,
            control: false,
            alt: false,
            superkey: true,
            meta: false,
        },
        _ => Modifiers::spec_empty(),
    }
}

pub fn modifier_key_flag(k: KeyCode) -> (r: Modifiers)
    ensures
        r == spec_modifier_key_flag(k),
{
    let none = Modifiers::empty();
    match k {
        KeyCode::ShiftLeft | KeyCode::ShiftRight => Modifiers { shift: true, ..none },
        KeyCode::ControlLeft | KeyCode::ControlRight => Modifiers { control: true, ..none },
        KeyCode::AltLeft | KeyCode::AltRight => Modifiers { alt: true, ..none },
        KeyCode::MetaLeft | KeyCode::MetaRight => Modifiers { superkey: true, ..none },
        _ => none,
    }
}

/// The single modifier flag an upper-cased token names, if any. The
/// `CmdOrCtrl` aliases resolve to Super where `cmd_or_ctrl_super` holds
/// (macOS canonicalization) and to Control otherwise.
pub open spec fn spec_modifier_of(u: Seq<char>, cmd_or_ctrl_super: bool) -> Option<Modifiers> {
    let none = Modifiers::spec_empty();
    if u == "OPTION"@ || u == "ALT"@ {
        Some(Modifiers { alt: true, ..none })
    } else if u == "CONTROL"@ || u == "CTRL"@ {
        Some(Modifiers { control: true, ..none })
    } else if u == "COMMAND"@ || u == "CMD"@ || u == "SUPER"@ {
        Some(Modifiers { superkey: true, ..none })
    } else if u == "SHIFT"@ {
        Some(Modifiers { shift: true, ..none })
    } else if u == "COMMANDORCONTROL"@ || u == "COMMANDORCTRL"@ || u == "CMDORCTRL"@ || u
        == "CMDORCONTROL"@ {
        if cmd_or_ctrl_super {
            Some(Modifiers { superkey: true, ..none })
        } else {
            Some(Modifiers { control: true, ..none })
        }
    } else if u == "META"@ {
        Some(Modifiers { meta: true, ..none })
    } else {
        None
    }
}

pub fn modifier_of_token(u: &Vec<char>, cmd_or_ctrl_super: bool) -> (r: Option<Modifiers>)
    ensures
        r == spec_modifier_of(u@, cmd_or_ctrl_super),
{
    let none = Modifiers::empty();
    if chars_eq_str(u, "OPTION") || chars_eq_str(u, "ALT") {
        Some(Modifiers { alt: true, ..none })
    } else if chars_eq_str(u, "CONTROL") || chars_eq_str(u, "CTRL") {
        Some(Modifiers { control: true, ..none })
    } else if chars_eq_str(u, "COMMAND") || chars_eq_str(u, "CMD") || chars_eq_str(u, "SUPER") {
        Some(Modifiers { superkey: true, ..none })
    } else if chars_eq_str(u, "SHIFT") {
        Some(Modifiers { shift: true, ..none })
    } else if chars_eq_str(u, "COMMANDORCONTROL") || chars_eq_str(u, "COMMANDORCTRL")
        || chars_eq_str(u, "CMDORCTRL") || chars_eq_str(u, "CMDORCONTROL") {
        if cmd_or_ctrl_super {
            Some(Modifiers { superkey: true, ..none })
        } else {
            Some(Modifiers { control: true, ..none })
        }
    } else if chars_eq_str(u, "META") {
        Some(Modifiers { meta: true, ..none })
    } else {
        None
    }
}

/// What parsing the remaining tokens yields, given the modifiers and the
/// main key read so far. Mirrors the grammar's ordering rule: after a main
/// key any further token is `InvalidFormat`.
pub open spec fn spec_parse_tokens(
    orig: Seq<char>,
    toks: Seq<Seq<char>>,
    i: int,
    mods: Modifiers,
    key: Option<KeyCode>,
    cmd_or_ctrl_super: bool,
) -> Result<HotKey, ParseFailure>
    decreases toks.len() - i,
{
    if i < 0 || i >= toks.len() {
        match key {
            Some(k) => Ok(HotKey::spec_new(mods, k)),
            None => Err(ParseFailure::InvalidFormat(orig)),
        }
    } else {
        let t = spec_trim(toks[i]);
        if t.len() == 0 {
            Err(ParseFailure::EmptyToken(orig))
        } else if key is Some {
            Err(ParseFailure::InvalidFormat(orig))
        } else {
            let u = spec_upper(t);
            match spec_modifier_of(u, cmd_or_ctrl_super) {
                Some(m) => spec_parse_tokens(orig, toks, i + 1, mods.spec_or(m), key, cmd_or_ctrl_super),
                None => match spec_key_of(u) {
                    Some(k) => spec_parse_tokens(orig, toks, i + 1, mods, Some(k), cmd_or_ctrl_super),
                    None => Err(ParseFailure::UnsupportedKey(t)),
                },
            }
        }
    }
}

/// What parsing a whole hotkey string yields. A single token is read
/// directly as a main key; several tokens walk the grammar above.
pub open spec fn spec_parse(s: Seq<char>, cmd_or_ctrl_super: bool) -> Result<HotKey, ParseFailure> {
    let toks = spec_split_plus(s);
    if toks.len() == 1 {
        match spec_key_of(spec_upper(toks[0])) {
            Some(k) => Ok(HotKey::spec_new(Modifiers::spec_empty(), k)),
            None => Err(ParseFailure::UnsupportedKey(toks[0])),
        }
    } else {
        spec_parse_tokens(s, toks, 0, Modifiers::spec_empty(), None, cmd_or_ctrl_super)
    }
}

/// Parses a hotkey string. `cmd_or_ctrl_super` selects the platform
/// canonicalization of the `CmdOrCtrl` aliases.
pub fn parse_hotkey(hotkey: &str, cmd_or_ctrl_super: bool) -> (r: Result<HotKey, HotKeyParseError>)
    ensures
        parse_result_is(r, spec_parse(hotkey@, cmd_or_ctrl_super)),
{
    let cv = chars_vec(hotkey);
    let toks = split_plus(&cv);
    proof {
        assert(toks.deep_view() == spec_split_plus(hotkey@));
    }
    if toks.len() == 1 {
        proof {
            assert(toks@[0]@ == spec_split_plus(hotkey@)[0]);
        }
        let u = to_upper(&toks[0]);
        match key_of_token(&u) {
            Some(k) => Ok(HotKey::new(Some(Modifiers::empty()), k)),
            None => Err(HotKeyParseError::UnsupportedKey(string_of(&toks[0]))),
        }
    } else {
        let ghost toksv = toks.deep_view();
        let ghost cs = cmd_or_ctrl_super;
        let mut mods = Modifiers::empty();
        let mut key: Option<KeyCode> = None;
        let mut i: usize = 0;
        while i < toks.len()
            invariant
                i <= toks.len(),
                toksv == toks.deep_view(),
                toksv == spec_split_plus(hotkey@),
                toksv.len() != 1,
                spec_parse(hotkey@, cs) == spec_parse_tokens(hotkey@, toksv, i as int, mods, key, cs),
                cs == cmd_or_ctrl_super,
            decreases toks.len() - i,
        {
            proof {
                assert(toks@[i as int]@ == toksv[i as int]);
            }
            let t = trim(&toks[i]);
            if t.len() == 0 {
                return Err(HotKeyParseError::EmptyToken(hotkey.to_owned()));
            }
            if key.is_some() {
                return Err(HotKeyParseError::InvalidFormat(hotkey.to_owned()));
            }
            let u = to_upper(&t);
            if let Some(m) = modifier_of_token(&u, cmd_or_ctrl_super) {
                mods = mods.or(m);
            } else if let Some(k) = key_of_token(&u) {
                key = Some(k);
            } else {
                return Err(HotKeyParseError::UnsupportedKey(string_of(&t)));
            }
            i += 1;
        }
        match key {
            Some(k) => Ok(HotKey::new(Some(mods), k)),
            None => Err(HotKeyParseError::InvalidFormat(hotkey.to_owned())),
        }
    }
}

/// The string form, with the `CmdOrCtrl` aliases read as Control (the
/// canonicalization of every platform but macOS).
impl core::str::FromStr for HotKey {
    type Err = HotKeyParseError;

    fn from_str(hotkey_string: &str) -> Result<Self, Self::Err> {
        parse_hotkey(hotkey_string, false)
    }
}

} // verus!
