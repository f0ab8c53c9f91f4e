//! Laws of the hotkey grammar: the serialized form of every hotkey parses
//! back to the same hotkey, and matching masks everything outside the base
//! four modifier flags.
//!
//! The facts about the key table are ground: they are checked name by name,
//! in slices so that each proof stays small.

use vstd::prelude::*;

use crate::hotkey::{spec_modifier_of, HotKey, Modifiers, ParseFailure};
use crate::hotkey::{spec_parse, spec_parse_tokens};
use crate::keys::{spec_is_modifier_key, spec_key_name, spec_key_of, KeyCode};
use crate::text::{
    lemma_split_no_plus, lemma_split_prefix, lemma_trim_plain, plain_token, spec_split_plus,
    spec_trim, spec_upper,
};

verus! {

/// The facts `lemma_key_token` gives about one key.
pub open spec fn key_token_facts(k: KeyCode) -> bool {
    &&& plain_token(spec_key_name(k))
    &&& spec_modifier_of(spec_upper(spec_key_name(k)), true) is None
    &&& spec_modifier_of(spec_upper(spec_key_name(k)), false) is None
    &&& (!spec_is_modifier_key(k) ==> spec_key_of(spec_upper(spec_key_name(k))) == Some(k))
}

spec fn key_group_a(k: KeyCode) -> bool {
    match k {
        KeyCode::Backquote | KeyCode::Backslash | KeyCode::BracketLeft | KeyCode::BracketRight | KeyCode::Pause | KeyCode::Comma | KeyCode::Digit0 | KeyCode::Digit1 | KeyCode::Digit2 | KeyCode::Digit3 | KeyCode::Digit4 | KeyCode::Digit5 | KeyCode::Digit6 | KeyCode::Digit7 | KeyCode::Digit8 | KeyCode::Digit9 | KeyCode::Equal | KeyCode::KeyA | KeyCode::KeyB | KeyCode::KeyC => true,
        _ => false,
    }
}

#[verifier::rlimit(100)]
proof fn lemma_key_token_a(k: KeyCode)
    requires
        key_group_a(k),
    ensures
        key_token_facts(k),
{
    reveal_strlit("BACKQUOTE");
    reveal_strlit("`");
    reveal_strlit("BACKSLASH");
    reveal_strlit("\\");
    reveal_strlit("BRACKETLEFT");
    reveal_strlit("[");
    reveal_strlit("BRACKETRIGHT");
    reveal_strlit("]");
    reveal_strlit("PAUSE");
    reveal_strlit("PAUSEBREAK");
    reveal_strlit("COMMA");
    reveal_strlit(",");
    reveal_strlit("DIGIT0");
    reveal_strlit("0");
    reveal_strlit("DIGIT1");
    reveal_strlit("1");
    reveal_strlit("DIGIT2");
    reveal_strlit("2");
    reveal_strlit("DIGIT3");
    reveal_strlit("3");
    reveal_strlit("DIGIT4");
    reveal_strlit("4");
    reveal_strlit("DIGIT5");
    reveal_strlit("5");
    reveal_strlit("DIGIT6");
    reveal_strlit("6");
    reveal_strlit("DIGIT7");
    reveal_strlit("7");
    reveal_strlit("DIGIT8");
    reveal_strlit("8");
    reveal_strlit("DIGIT9");
    reveal_strlit("9");
    reveal_strlit("EQUAL");
    reveal_strlit("=");
    reveal_strlit("KEYA");
    reveal_strlit("A");
    reveal_strlit("KEYB");
    reveal_strlit("B");
    reveal_strlit("KEYC");
    reveal_strlit("C");
    reveal_strlit("backquote");
    reveal_strlit("backslash");
    reveal_strlit("bracketleft");
    reveal_strlit("bracketright");
    reveal_strlit("pause");
    reveal_strlit("comma");
    reveal_strlit("digit0");
    reveal_strlit("digit1");
    reveal_strlit("digit2");
    reveal_strlit("digit3");
    reveal_strlit("digit4");
    reveal_strlit("digit5");
    reveal_strlit("digit6");
    reveal_strlit("digit7");
    reveal_strlit("digit8");
    reveal_strlit("digit9");
    reveal_strlit("equal");
    reveal_strlit("keya");
    reveal_strlit("keyb");
    reveal_strlit("keyc");
    reveal_strlit("OPTION");
    reveal_strlit("ALT");
    reveal_strlit("CONTROL");
    reveal_strlit("CTRL");
    reveal_strlit("COMMAND");
    reveal_strlit("CMD");
    reveal_strlit("SUPER");
    reveal_strlit("SHIFT");
    reveal_strlit("COMMANDORCONTROL");
    reveal_strlit("COMMANDORCTRL");
    reveal_strlit("CMDORCTRL");
    reveal_strlit("CMDORCONTROL");
    reveal_strlit("META");
    assert("BACKQUOTE"@ =~= seq!['B', 'A', 'C', 'K', 'Q', 'U', 'O', 'T', 'E']);
    assert("`"@ =~= seq!['`']);
    assert("BACKSLASH"@ =~= seq!['B', 'A', 'C', 'K', 'S', 'L', 'A', 'S', 'H']);
    assert("\\"@ =~= seq!['\\']);
    assert("BRACKETLEFT"@ =~= seq!['B', 'R', 'A', 'C', 'K', 'E', 'T', 'L', 'E', 'F', 'T']);
    assert("["@ =~= seq!['[']);
    assert("BRACKETRIGHT"@ =~= seq!['B', 'R', 'A', 'C', 'K', 'E', 'T', 'R', 'I', 'G', 'H', 'T']);
    assert("]"@ =~= seq![']']);
    assert("PAUSE"@ =~= seq!['P', 'A', 'U', 'S', 'E']);
    assert("PAUSEBREAK"@ =~= seq!['P', 'A', 'U', 'S', 'E', 'B', 'R', 'E', 'A', 'K']);
    assert("COMMA"@ =~= seq!['C', 'O', 'M', 'M', 'A']);
    assert(","@ =~= seq![',']);
    assert("DIGIT0"@ =~= seq!['D', 'I', 'G', 'I', 'T', '0']);
    assert("0"@ =~= seq!['0']);
    assert("DIGIT1"@ =~= seq!['D', 'I', 'G', 'I', 'T', '1']);
    assert("1"@ =~= seq!['1']);
    assert("DIGIT2"@ =~= seq!['D', 'I', 'G', 'I', 'T', '2']);
    assert("2"@ =~= seq!['2']);
    assert("DIGIT3"@ =~= seq!['D', 'I', 'G', 'I', 'T', '3']);
    assert("3"@ =~= seq!['3']);
    assert("DIGIT4"@ =~= seq!['D', 'I', 'G', 'I', 'T', '4']);
    assert("4"@ =~= seq!['4']);
    assert("DIGIT5"@ =~= seq!['D', 'I', 'G', 'I', 'T', '5']);
    assert("5"@ =~= seq!['5']);
    assert("DIGIT6"@ =~= seq!['D', 'I', 'G', 'I', 'T', '6']);
    assert("6"@ =~= seq!['6']);
    assert("DIGIT7"@ =~= seq!['D', 'I', 'G', 'I', 'T', '7']);
    assert("7"@ =~= seq!['7']);
    assert("DIGIT8"@ =~= seq!['D', 'I', 'G', 'I', 'T', '8']);
    assert("8"@ =~= seq!['8']);
    assert("DIGIT9"@ =~= seq!['D', 'I', 'G', 'I', 'T', '9']);
    assert("9"@ =~= seq!['9']);
    assert("EQUAL"@ =~= seq!['E', 'Q', 'U', 'A', 'L']);
    assert("="@ =~= seq!['=']);
    assert("KEYA"@ =~= seq!['K', 'E', 'Y', 'A']);
    assert("A"@ =~= seq!['A']);
    assert("KEYB"@ =~= seq!['K', 'E', 'Y', 'B']);
    assert("B"@ =~= seq!['B']);
    assert("KEYC"@ =~= seq!['K', 'E', 'Y', 'C']);
    assert("C"@ =~= seq!['C']);
    assert("OPTION"@ =~= seq!['O', 'P', 'T', 'I', 'O', 'N']);
    assert("ALT"@ =~= seq!['A', 'L', 'T']);
    assert("CONTROL"@ =~= seq!['C', 'O', 'N', 'T', 'R', 'O', 'L']);
    assert("CTRL"@ =~= seq!['C', 'T', 'R', 'L']);
    assert("COMMAND"@ =~= seq!['C', 'O', 'M', 'M', 'A', 'N', 'D']);
    assert("CMD"@ =~= seq!['C', 'M', 'D']);
    assert("SUPER"@ =~= seq!['S', 'U', 'P', 'E', 'R']);
    assert("SHIFT"@ =~= seq!['S', 'H', 'I', 'F', 'T']);
    assert("COMMANDORCONTROL"@ =~= seq!['C', 'O', 'M', 'M', 'A', 'N', 'D', 'O', 'R', 'C', 'O', 'N', 'T', 'R', 'O', 'L']);
    assert("COMMANDORCTRL"@ =~= seq!['C', 'O', 'M', 'M', 'A', 'N', 'D', 'O', 'R', 'C', 'T', 'R', 'L']);
    assert("CMDORCTRL"@ =~= seq!['C', 'M', 'D', 'O', 'R', 'C', 'T', 'R', 'L']);
    assert("CMDORCONTROL"@ =~= seq!['C', 'M', 'D', 'O', 'R', 'C', 'O', 'N', 'T', 'R', 'O', 'L']);
    assert("META"@ =~= seq!['M', 'E', 'T', 'A']);
    assert(spec_upper(spec_key_name(KeyCode::Backquote)) =~= "BACKQUOTE"@);
    assert(spec_upper(spec_key_name(KeyCode::Backslash)) =~= "BACKSLASH"@);
    assert(spec_upper(spec_key_name(KeyCode::BracketLeft)) =~= "BRACKETLEFT"@);
    assert(spec_upper(spec_key_name(KeyCode::BracketRight)) =~= "BRACKETRIGHT"@);
    assert(spec_upper(spec_key_name(KeyCode::Pause)) =~= "PAUSE"@);
    assert(spec_upper(spec_key_name(KeyCode::Comma)) =~= "COMMA"@);
    assert(spec_upper(spec_key_name(KeyCode::Digit0)) =~= "DIGIT0"@);
    assert(spec_upper(spec_key_name(KeyCode::Digit1)) =~= "DIGIT1"@);
    assert(spec_upper(spec_key_name(KeyCode::Digit2)) =~= "DIGIT2"@);
    assert(spec_upper(spec_key_name(KeyCode::Digit3)) =~= "DIGIT3"@);
    assert(spec_upper(spec_key_name(KeyCode::Digit4)) =~= "DIGIT4"@);
    assert(spec_upper(spec_key_name(KeyCode::Digit5)) =~= "DIGIT5"@);
    assert(spec_upper(spec_key_name(KeyCode::Digit6)) =~= "DIGIT6"@);
    assert(spec_upper(spec_key_name(KeyCode::Digit7)) =~= "DIGIT7"@);
    assert(spec_upper(spec_key_name(KeyCode::Digit8)) =~= "DIGIT8"@);
    assert(spec_upper(spec_key_name(KeyCode::Digit9)) =~= "DIGIT9"@);
    assert(spec_upper(spec_key_name(KeyCode::Equal)) =~= "EQUAL"@);
    assert(spec_upper(spec_key_name(KeyCode::KeyA)) =~= "KEYA"@);
    assert(spec_upper(spec_key_name(KeyCode::KeyB)) =~= "KEYB"@);
    assert(spec_upper(spec_key_name(KeyCode::KeyC)) =~= "KEYC"@);
}

spec fn key_group_b(k: KeyCode) -> bool {
    match k {
        KeyCode::KeyD | KeyCode::KeyE | KeyCode::KeyF | KeyCode::KeyG | KeyCode::KeyH | KeyCode::KeyI | KeyCode::KeyJ | KeyCode::KeyK | KeyCode::KeyL | KeyCode::KeyM | KeyCode::KeyN | KeyCode::KeyO | KeyCode::KeyP | KeyCode::KeyQ | KeyCode::KeyR | KeyCode::KeyS | KeyCode::KeyT | KeyCode::KeyU | KeyCode::KeyV | KeyCode::KeyW => true,
        _ => false,
    }
}

#[verifier::rlimit(100)]
proof fn lemma_key_token_b(k: KeyCode)
    requires
        key_group_b(k),
    ensures
        key_token_facts(k),
{
    reveal_strlit("BACKQUOTE");
    reveal_strlit("`");
    reveal_strlit("BACKSLASH");
    reveal_strlit("\\");
    reveal_strlit("BRACKETLEFT");
    reveal_strlit("[");
    reveal_strlit("BRACKETRIGHT");
    reveal_strlit("]");
    reveal_strlit("PAUSE");
    reveal_strlit("PAUSEBREAK");
    reveal_strlit("COMMA");
    reveal_strlit(",");
    reveal_strlit("DIGIT0");
    reveal_strlit("0");
    reveal_strlit("DIGIT1");
    reveal_strlit("1");
    reveal_strlit("DIGIT2");
    reveal_strlit("2");
    reveal_strlit("DIGIT3");
    reveal_strlit("3");
    reveal_strlit("DIGIT4");
    reveal_strlit("4");
    reveal_strlit("DIGIT5");
    reveal_strlit("5");
    reveal_strlit("DIGIT6");
    reveal_strlit("6");
    reveal_strlit("DIGIT7");
    reveal_strlit("7");
    reveal_strlit("DIGIT8");
    reveal_strlit("8");
    reveal_strlit("DIGIT9");
    reveal_strlit("9");
    reveal_strlit("EQUAL");
    reveal_strlit("=");
    reveal_strlit("KEYA");
    reveal_strlit("A");
    reveal_strlit("KEYB");
    reveal_strlit("B");
    reveal_strlit("KEYC");
    reveal_strlit("C");
    reveal_strlit("KEYD");
    reveal_strlit("D");
    reveal_strlit("KEYE");
    reveal_strlit("E");
    reveal_strlit("KEYF");
    reveal_strlit("F");
    reveal_strlit("KEYG");
    reveal_strlit("G");
    reveal_strlit("KEYH");
    reveal_strlit("H");
    reveal_strlit("KEYI");
    reveal_strlit("I");
    reveal_strlit("KEYJ");
    reveal_strlit("J");
    reveal_strlit("KEYK");
    reveal_strlit("K");
    reveal_strlit("KEYL");
    reveal_strlit("L");
    reveal_strlit("KEYM");
    reveal_strlit("M");
    reveal_strlit("KEYN");
    reveal_strlit("N");
    reveal_strlit("KEYO");
    reveal_strlit("O");
    reveal_strlit("KEYP");
    reveal_strlit("P");
    reveal_strlit("KEYQ");
    reveal_strlit("Q");
    reveal_strlit("KEYR");
    reveal_strlit("R");
    reveal_strlit("KEYS");
    reveal_strlit("S");
    reveal_strlit("KEYT");
    reveal_strlit("T");
    reveal_strlit("KEYU");
    reveal_strlit("U");
    reveal_strlit("KEYV");
    reveal_strlit("V");
    reveal_strlit("KEYW");
    reveal_strlit("W");
    reveal_strlit("keyd");
    reveal_strlit("keye");
    reveal_strlit("keyf");
    reveal_strlit("keyg");
    reveal_strlit("keyh");
    reveal_strlit("keyi");
    reveal_strlit("keyj");
    reveal_strlit("keyk");
    reveal_strlit("keyl");
    reveal_strlit("keym");
    reveal_strlit("keyn");
    reveal_strlit("keyo");
    reveal_strlit("keyp");
    reveal_strlit("keyq");
    reveal_strlit("keyr");
    reveal_strlit("keys");
    reveal_strlit("keyt");
    reveal_strlit("keyu");
    reveal_strlit("keyv");
    reveal_strlit("keyw");
    reveal_strlit("OPTION");
    reveal_strlit("ALT");
    reveal_strlit("CONTROL");
    reveal_strlit("CTRL");
    reveal_strlit("COMMAND");
    reveal_strlit("CMD");
    reveal_strlit("SUPER");
    reveal_strlit("SHIFT");
    reveal_strlit("COMMANDORCONTROL");
    reveal_strlit("COMMANDORCTRL");
    reveal_strlit("CMDORCTRL");
    reveal_strlit("CMDORCONTROL");
    reveal_strlit("META");
    assert("BACKQUOTE"@ =~= seq!['B', 'A', 'C', 'K', 'Q', 'U', 'O', 'T', 'E']);
    assert("`"@ =~= seq!['`']);
    assert("BACKSLASH"@ =~= seq!['B', 'A', 'C', 'K', 'S', 'L', 'A', 'S', 'H']);
    assert("\\"@ =~= seq!['\\']);
    assert("BRACKETLEFT"@ =~= seq!['B', 'R', 'A', 'C', 'K', 'E', 'T', 'L', 'E', 'F', 'T']);
    assert("["@ =~= seq!['[']);
    assert("BRACKETRIGHT"@ =~= seq!['B', 'R', 'A', 'C', 'K', 'E', 'T', 'R', 'I', 'G', 'H', 'T']);
    assert("]"@ =~= seq![']']);
    assert("PAUSE"@ =~= seq!['P', 'A', 'U', 'S', 'E']);
    assert("PAUSEBREAK"@ =~= seq!['P', 'A', 'U', 'S', 'E', 'B', 'R', 'E', 'A', 'K']);
    assert("COMMA"@ =~= seq!['C', 'O', 'M', 'M', 'A']);
    assert(","@ =~= seq![',']);
    assert("DIGIT0"@ =~= seq!['D', 'I', 'G', 'I', 'T', '0']);
    assert("0"@ =~= seq!['0']);
    assert("DIGIT1"@ =~= seq!['D', 'I', 'G', 'I', 'T', '1']);
    assert("1"@ =~= seq!['1']);
    assert("DIGIT2"@ =~= seq!['D', 'I', 'G', 'I', 'T', '2']);
    assert("2"@ =~= seq!['2']);
    assert("DIGIT3"@ =~= seq!['D', 'I', 'G', 'I', 'T', '3']);
    assert("3"@ =~= seq!['3']);
    assert("DIGIT4"@ =~= seq!['D', 'I', 'G', 'I', 'T', '4']);
    assert("4"@ =~= seq!['4']);
    assert("DIGIT5"@ =~= seq!['D', 'I', 'G', 'I', 'T', '5']);
    assert("5"@ =~= seq!['5']);
    assert("DIGIT6"@ =~= seq!['D', 'I', 'G', 'I', 'T', '6']);
    assert("6"@ =~= seq!['6']);
    assert("DIGIT7"@ =~= seq!['D', 'I', 'G', 'I', 'T', '7']);
    assert("7"@ =~= seq!['7']);
    assert("DIGIT8"@ =~= seq!['D', 'I', 'G', 'I', 'T', '8']);
    assert("8"@ =~= seq!['8']);
    assert("DIGIT9"@ =~= seq!['D', 'I', 'G', 'I', 'T', '9']);
    assert("9"@ =~= seq!['9']);
    assert("EQUAL"@ =~= seq!['E', 'Q', 'U', 'A', 'L']);
    assert("="@ =~= seq!['=']);
    assert("KEYA"@ =~= seq!['K', 'E', 'Y', 'A']);
    assert("A"@ =~= seq!['A']);
    assert("KEYB"@ =~= seq!['K', 'E', 'Y', 'B']);
    assert("B"@ =~= seq!['B']);
    assert("KEYC"@ =~= seq!['K', 'E', 'Y', 'C']);
    assert("C"@ =~= seq!['C']);
    assert("KEYD"@ =~= seq!['K', 'E', 'Y', 'D']);
    assert("D"@ =~= seq!['D']);
    assert("KEYE"@ =~= seq!['K', 'E', 'Y', 'E']);
    assert("E"@ =~= seq!['E']);
    assert("KEYF"@ =~= seq!['K', 'E', 'Y', 'F']);
    assert("F"@ =~= seq!['F']);
    assert("KEYG"@ =~= seq!['K', 'E', 'Y', 'G']);
    assert("G"@ =~= seq!['G']);
    assert("KEYH"@ =~= seq!['K', 'E', 'Y', 'H']);
    assert("H"@ =~= seq!['H']);
    assert("KEYI"@ =~= seq!['K', 'E', 'Y', 'I']);
    assert("I"@ =~= seq!['I']);
    assert("KEYJ"@ =~= seq!['K', 'E', 'Y', 'J']);
    assert("J"@ =~= seq!['J']);
    assert("KEYK"@ =~= seq!['K', 'E', 'Y', 'K']);
    assert("K"@ =~= seq!['K']);
    assert("KEYL"@ =~= seq!['K', 'E', 'Y', 'L']);
    assert("L"@ =~= seq!['L']);
    assert("KEYM"@ =~= seq!['K', 'E', 'Y', 'M']);
    assert("M"@ =~= seq!['M']);
    assert("KEYN"@ =~= seq!['K', 'E', 'Y', 'N']);
    assert("N"@ =~= seq!['N']);
    assert("KEYO"@ =~= seq!['K', 'E', 'Y', 'O']);
    assert("O"@ =~= seq!['O']);
    assert("KEYP"@ =~= seq!['K', 'E', 'Y', 'P']);
    assert("P"@ =~= seq!['P']);
    assert("KEYQ"@ =~= seq!['K', 'E', 'Y', 'Q']);
    assert("Q"@ =~= seq!['Q']);
    assert("KEYR"@ =~= seq!['K', 'E', 'Y', 'R']);
    assert("R"@ =~= seq!['R']);
    assert("KEYS"@ =~= seq!['K', 'E', 'Y', 'S']);
    assert("S"@ =~= seq!['S']);
    assert("KEYT"@ =~= seq!['K', 'E', 'Y', 'T']);
    assert("T"@ =~= seq!['T']);
    assert("KEYU"@ =~= seq!['K', 'E', 'Y', 'U']);
    assert("U"@ =~= seq!['U']);
    assert("KEYV"@ =~= seq!['K', 'E', 'Y', 'V']);
    assert("V"@ =~= seq!['V']);
    assert("KEYW"@ =~= seq!['K', 'E', 'Y', 'W']);
    assert("W"@ =~= seq!['W']);
    assert("OPTION"@ =~= seq!['O', 'P', 'T', 'I', 'O', 'N']);
    assert("ALT"@ =~= seq!['A', 'L', 'T']);
    assert("CONTROL"@ =~= seq!['C', 'O', 'N', 'T', 'R', 'O', 'L']);
    assert("CTRL"@ =~= seq!['C', 'T', 'R', 'L']);
    assert("COMMAND"@ =~= seq!['C', 'O', 'M', 'M', 'A', 'N', 'D']);
    assert("CMD"@ =~= seq!['C', 'M', 'D']);
    assert("SUPER"@ =~= seq!['S', 'U', 'P', 'E', 'R']);
    assert("SHIFT"@ =~= seq!['S', 'H', 'I', 'F', 'T']);
    assert("COMMANDORCONTROL"@ =~= seq!['C', 'O', 'M', 'M', 'A', 'N', 'D', 'O', 'R', 'C', 'O', 'N', 'T', 'R', 'O', 'L']);
    assert("COMMANDORCTRL"@ =~= seq!['C', 'O', 'M', 'M', 'A', 'N', 'D', 'O', 'R', 'C', 'T', 'R', 'L']);
    assert("CMDORCTRL"@ =~= seq!['C', 'M', 'D', 'O', 'R', 'C', 'T', 'R', 'L']);
    assert("CMDORCONTROL"@ =~= seq!['C', 'M', 'D', 'O', 'R', 'C', 'O', 'N', 'T', 'R', 'O', 'L']);
    assert("META"@ =~= seq!['M', 'E', 'T', 'A']);
    assert(spec_upper(spec_key_name(KeyCode::KeyD)) =~= "KEYD"@);
    assert(spec_upper(spec_key_name(KeyCode::KeyE)) =~= "KEYE"@);
    assert(spec_upper(spec_key_name(KeyCode::KeyF)) =~= "KEYF"@);
    assert(spec_upper(spec_key_name(KeyCode::KeyG)) =~= "KEYG"@);
    assert(spec_upper(spec_key_name(KeyCode::KeyH)) =~= "KEYH"@);
    assert(spec_upper(spec_key_name(KeyCode::KeyI)) =~= "KEYI"@);
    assert(spec_upper(spec_key_name(KeyCode::KeyJ)) =~= "KEYJ"@);
    assert(spec_upper(spec_key_name(KeyCode::KeyK)) =~= "KEYK"@);
    assert(spec_upper(spec_key_name(KeyCode::KeyL)) =~= "KEYL"@);
    assert(spec_upper(spec_key_name(KeyCode::KeyM)) =~= "KEYM"@);
    assert(spec_upper(spec_key_name(KeyCode::KeyN)) =~= "KEYN"@);
    assert(spec_upper(spec_key_name(KeyCode::KeyO)) =~= "KEYO"@);
    assert(spec_upper(spec_key_name(KeyCode::KeyP)) =~= "KEYP"@);
    assert(spec_upper(spec_key_name(KeyCode::KeyQ)) =~= "KEYQ"@);
    assert(spec_upper(spec_key_name(KeyCode::KeyR)) =~= "KEYR"@);
    assert(spec_upper(spec_key_name(KeyCode::KeyS)) =~= "KEYS"@);
    assert(spec_upper(spec_key_name(KeyCode::KeyT)) =~= "KEYT"@);
    assert(spec_upper(spec_key_name(KeyCode::KeyU)) =~= "KEYU"@);
    assert(spec_upper(spec_key_name(KeyCode::KeyV)) =~= "KEYV"@);
    assert(spec_upper(spec_key_name(KeyCode::KeyW)) =~= "KEYW"@);
}

spec fn key_group_c(k: KeyCode) -> bool {
    match k {
        KeyCode::KeyX | KeyCode::KeyY | KeyCode::KeyZ | KeyCode::Minus | KeyCode::Period | KeyCode::Quote | KeyCode::Semicolon | KeyCode::Slash | KeyCode::Backspace | KeyCode::CapsLock | KeyCode::Enter | KeyCode::Space | KeyCode::Tab | KeyCode::Delete | KeyCode::End | KeyCode::Home | KeyCode::Insert | KeyCode::PageDown | KeyCode::PageUp | KeyCode::PrintScreen => true,
        _ => false,
    }
}

#[verifier::rlimit(100)]
proof fn lemma_key_token_c(k: KeyCode)
    requires
        key_group_c(k),
    ensures
        key_token_facts(k),
{
    reveal_strlit("BACKQUOTE");
    reveal_strlit("`");
    reveal_strlit("BACKSLASH");
    reveal_strlit("\\");
    reveal_strlit("BRACKETLEFT");
    reveal_strlit("[");
    reveal_strlit("BRACKETRIGHT");
    reveal_strlit("]");
    reveal_strlit("PAUSE");
    reveal_strlit("PAUSEBREAK");
    reveal_strlit("COMMA");
    reveal_strlit(",");
    reveal_strlit("DIGIT0");
    reveal_strlit("0");
    reveal_strlit("DIGIT1");
    reveal_strlit("1");
    reveal_strlit("DIGIT2");
    reveal_strlit("2");
    reveal_strlit("DIGIT3");
    reveal_strlit("3");
    reveal_strlit("DIGIT4");
    reveal_strlit("4");
    reveal_strlit("DIGIT5");
    reveal_strlit("5");
    reveal_strlit("DIGIT6");
    reveal_strlit("6");
    reveal_strlit("DIGIT7");
    reveal_strlit("7");
    reveal_strlit("DIGIT8");
    reveal_strlit("8");
    reveal_strlit("DIGIT9");
    reveal_strlit("9");
    reveal_strlit("EQUAL");
    reveal_strlit("=");
    reveal_strlit("KEYA");
    reveal_strlit("A");
    reveal_strlit("KEYB");
    reveal_strlit("B");
    reveal_strlit("KEYC");
    reveal_strlit("C");
    reveal_strlit("KEYD");
    reveal_strlit("D");
    reveal_strlit("KEYE");
    reveal_strlit("E");
    reveal_strlit("KEYF");
    reveal_strlit("F");
    reveal_strlit("KEYG");
    reveal_strlit("G");
    reveal_strlit("KEYH");
    reveal_strlit("H");
    reveal_strlit("KEYI");
    reveal_strlit("I");
    reveal_strlit("KEYJ");
    reveal_strlit("J");
    reveal_strlit("KEYK");
    reveal_strlit("K");
    reveal_strlit("KEYL");
    reveal_strlit("L");
    reveal_strlit("KEYM");
    reveal_strlit("M");
    reveal_strlit("KEYN");
    reveal_strlit("N");
    reveal_strlit("KEYO");
    reveal_strlit("O");
    reveal_strlit("KEYP");
    reveal_strlit("P");
    reveal_strlit("KEYQ");
    reveal_strlit("Q");
    reveal_strlit("KEYR");
    reveal_strlit("R");
    reveal_strlit("KEYS");
    reveal_strlit("S");
    reveal_strlit("KEYT");
    reveal_strlit("T");
    reveal_strlit("KEYU");
    reveal_strlit("U");
    reveal_strlit("KEYV");
    reveal_strlit("V");
    reveal_strlit("KEYW");
    reveal_strlit("W");
    reveal_strlit("KEYX");
    reveal_strlit("X");
    reveal_strlit("KEYY");
    reveal_strlit("Y");
    reveal_strlit("KEYZ");
    reveal_strlit("Z");
    reveal_strlit("MINUS");
    reveal_strlit("-");
    reveal_strlit("PERIOD");
    reveal_strlit(".");
    reveal_strlit("QUOTE");
    reveal_strlit("'");
    reveal_strlit("SEMICOLON");
    reveal_strlit(";");
    reveal_strlit("SLASH");
    reveal_strlit("/");
    reveal_strlit("BACKSPACE");
    reveal_strlit("CAPSLOCK");
    reveal_strlit("ENTER");
    reveal_strlit("SPACE");
    reveal_strlit("TAB");
    reveal_strlit("DELETE");
    reveal_strlit("END");
    reveal_strlit("HOME");
    reveal_strlit("INSERT");
    reveal_strlit("PAGEDOWN");
    reveal_strlit("PAGEUP");
    reveal_strlit("PRINTSCREEN");
    reveal_strlit("keyx");
    reveal_strlit("keyy");
    reveal_strlit("keyz");
    reveal_strlit("minus");
    reveal_strlit("period");
    reveal_strlit("quote");
    reveal_strlit("semicolon");
    reveal_strlit("slash");
    reveal_strlit("backspace");
    reveal_strlit("capslock");
    reveal_strlit("enter");
    reveal_strlit("space");
    reveal_strlit("tab");
    reveal_strlit("delete");
    reveal_strlit("end");
    reveal_strlit("home");
    reveal_strlit("insert");
    reveal_strlit("pagedown");
    reveal_strlit("pageup");
    reveal_strlit("printscreen");
    reveal_strlit("OPTION");
    reveal_strlit("ALT");
    reveal_strlit("CONTROL");
    reveal_strlit("CTRL");
    reveal_strlit("COMMAND");
    reveal_strlit("CMD");
    reveal_strlit("SUPER");
    reveal_strlit("SHIFT");
    reveal_strlit("COMMANDORCONTROL");
    reveal_strlit("COMMANDORCTRL");
    reveal_strlit("CMDORCTRL");
    reveal_strlit("CMDORCONTROL");
    reveal_strlit("META");
    assert("BACKQUOTE"@ =~= seq!['B', 'A', 'C', 'K', 'Q', 'U', 'O', 'T', 'E']);
    assert("`"@ =~= seq!['`']);
    assert("BACKSLASH"@ =~= seq!['B', 'A', 'C', 'K', 'S', 'L', 'A', 'S', 'H']);
    assert("\\"@ =~= seq!['\\']);
    assert("BRACKETLEFT"@ =~= seq!['B', 'R', 'A', 'C', 'K', 'E', 'T', 'L', 'E', 'F', 'T']);
    assert("["@ =~= seq!['[']);
    assert("BRACKETRIGHT"@ =~= seq!['B', 'R', 'A', 'C', 'K', 'E', 'T', 'R', 'I', 'G', 'H', 'T']);
    assert("]"@ =~= seq![']']);
    assert("PAUSE"@ =~= seq!['P', 'A', 'U', 'S', 'E']);
    assert("PAUSEBREAK"@ =~= seq!['P', 'A', 'U', 'S', 'E', 'B', 'R', 'E', 'A', 'K']);
    assert("COMMA"@ =~= seq!['C', 'O', 'M', 'M', 'A']);
    assert(","@ =~= seq![',']);
    assert("DIGIT0"@ =~= seq!['D', 'I', 'G', 'I', 'T', '0']);
    assert("0"@ =~= seq!['0']);
    assert("DIGIT1"@ =~= seq!['D', 'I', 'G', 'I', 'T', '1']);
    assert("1"@ =~= seq!['1']);
    assert("DIGIT2"@ =~= seq!['D', 'I', 'G', 'I', 'T', '2']);
    assert("2"@ =~= seq!['2']);
    assert("DIGIT3"@ =~= seq!['D', 'I', 'G', 'I', 'T', '3']);
    assert("3"@ =~= seq!['3']);
    assert("DIGIT4"@ =~= seq!['D', 'I', 'G', 'I', 'T', '4']);
    assert("4"@ =~= seq!['4']);
    assert("DIGIT5"@ =~= seq!['D', 'I', 'G', 'I', 'T', '5']);
    assert("5"@ =~= seq!['5']);
    assert("DIGIT6"@ =~= seq!['D', 'I', 'G', 'I', 'T', '6']);
    assert("6"@ =~= seq!['6']);
    assert("DIGIT7"@ =~= seq!['D', 'I', 'G', 'I', 'T', '7']);
    assert("7"@ =~= seq!['7']);
    assert("DIGIT8"@ =~= seq!['D', 'I', 'G', 'I', 'T', '8']);
    assert("8"@ =~= seq!['8']);
    assert("DIGIT9"@ =~= seq!['D', 'I', 'G', 'I', 'T', '9']);
    assert("9"@ =~= seq!['9']);
    assert("EQUAL"@ =~= seq!['E', 'Q', 'U', 'A', 'L']);
    assert("="@ =~= seq!['=']);
    assert("KEYA"@ =~= seq!['K', 'E', 'Y', 'A']);
    assert("A"@ =~= seq!['A']);
    assert("KEYB"@ =~= seq!['K', 'E', 'Y', 'B']);
    assert("B"@ =~= seq!['B']);
    assert("KEYC"@ =~= seq!['K', 'E', 'Y', 'C']);
    assert("C"@ =~= seq!['C']);
    assert("KEYD"@ =~= seq!['K', 'E', 'Y', 'D']);
    assert("D"@ =~= seq!['D']);
    assert("KEYE"@ =~= seq!['K', 'E', 'Y', 'E']);
    assert("E"@ =~= seq!['E']);
    assert("KEYF"@ =~= seq!['K', 'E', 'Y', 'F']);
    assert("F"@ =~= seq!['F']);
    assert("KEYG"@ =~= seq!['K', 'E', 'Y', 'G']);
    assert("G"@ =~= seq!['G']);
    assert("KEYH"@ =~= seq!['K', 'E', 'Y', 'H']);
    assert("H"@ =~= seq!['H']);
    assert("KEYI"@ =~= seq!['K', 'E', 'Y', 'I']);
    assert("I"@ =~= seq!['I']);
    assert("KEYJ"@ =~= seq!['K', 'E', 'Y', 'J']);
    assert("J"@ =~= seq!['J']);
    assert("KEYK"@ =~= seq!['K', 'E', 'Y', 'K']);
    assert("K"@ =~= seq!['K']);
    assert("KEYL"@ =~= seq!['K', 'E', 'Y', 'L']);
    assert("L"@ =~= seq!['L']);
    assert("KEYM"@ =~= seq!['K', 'E', 'Y', 'M']);
    assert("M"@ =~= seq!['M']);
    assert("KEYN"@ =~= seq!['K', 'E', 'Y', 'N']);
    assert("N"@ =~= seq!['N']);
    assert("KEYO"@ =~= seq!['K', 'E', 'Y', 'O']);
    assert("O"@ =~= seq!['O']);
    assert("KEYP"@ =~= seq!['K', 'E', 'Y', 'P']);
    assert("P"@ =~= seq!['P']);
    assert("KEYQ"@ =~= seq!['K', 'E', 'Y', 'Q']);
    assert("Q"@ =~= seq!['Q']);
    assert("KEYR"@ =~= seq!['K', 'E', 'Y', 'R']);
    assert("R"@ =~= seq!['R']);
    assert("KEYS"@ =~= seq!['K', 'E', 'Y', 'S']);
    assert("S"@ =~= seq!['S']);
    assert("KEYT"@ =~= seq!['K', 'E', 'Y', 'T']);
    assert("T"@ =~= seq!['T']);
    assert("KEYU"@ =~= seq!['K', 'E', 'Y', 'U']);
    assert("U"@ =~= seq!['U']);
    assert("KEYV"@ =~= seq!['K', 'E', 'Y', 'V']);
    assert("V"@ =~= seq!['V']);
    assert("KEYW"@ =~= seq!['K', 'E', 'Y', 'W']);
    assert("W"@ =~= seq!['W']);
    assert("KEYX"@ =~= seq!['K', 'E', 'Y', 'X']);
    assert("X"@ =~= seq!['X']);
    assert("KEYY"@ =~= seq!['K', 'E', 'Y', 'Y']);
    assert("Y"@ =~= seq!['Y']);
    assert("KEYZ"@ =~= seq!['K', 'E', 'Y', 'Z']);
    assert("Z"@ =~= seq!['Z']);
    assert("MINUS"@ =~= seq!['M', 'I', 'N', 'U', 'S']);
    assert("-"@ =~= seq!['-']);
    assert("PERIOD"@ =~= seq!['P', 'E', 'R', 'I', 'O', 'D']);
    assert("."@ =~= seq!['.']);
    assert("QUOTE"@ =~= seq!['Q', 'U', 'O', 'T', 'E']);
    assert("'"@ =~= seq!['\'']);
    assert("SEMICOLON"@ =~= seq!['S', 'E', 'M', 'I', 'C', 'O', 'L', 'O', 'N']);
    assert(";"@ =~= seq![';']);
    assert("SLASH"@ =~= seq!['S', 'L', 'A', 'S', 'H']);
    assert("/"@ =~= seq!['/']);
    assert("BACKSPACE"@ =~= seq!['B', 'A', 'C', 'K', 'S', 'P', 'A', 'C', 'E']);
    assert("CAPSLOCK"@ =~= seq!['C', 'A', 'P', 'S', 'L', 'O', 'C', 'K']);
    assert("ENTER"@ =~= seq!['E', 'N', 'T', 'E', 'R']);
    assert("SPACE"@ =~= seq!['S', 'P', 'A', 'C', 'E']);
    assert("TAB"@ =~= seq!['T', 'A', 'B']);
    assert("DELETE"@ =~= seq!['D', 'E', 'L', 'E', 'T', 'E']);
    assert("END"@ =~= seq!['E', 'N', 'D']);
    assert("HOME"@ =~= seq!['H', 'O', 'M', 'E']);
    assert("INSERT"@ =~= seq!['I', 'N', 'S', 'E', 'R', 'T']);
    assert("PAGEDOWN"@ =~= seq!['P', 'A', 'G', 'E', 'D', 'O', 'W', 'N']);
    assert("PAGEUP"@ =~= seq!['P', 'A', 'G', 'E', 'U', 'P']);
    assert("PRINTSCREEN"@ =~= seq!['P', 'R', 'I', 'N', 'T', 'S', 'C', 'R', 'E', 'E', 'N']);
    assert("OPTION"@ =~= seq!['O', 'P', 'T', 'I', 'O', 'N']);
    assert("ALT"@ =~= seq!['A', 'L', 'T']);
    assert("CONTROL"@ =~= seq!['C', 'O', 'N', 'T', 'R', 'O', 'L']);
    assert("CTRL"@ =~= seq!['C', 'T', 'R', 'L']);
    assert("COMMAND"@ =~= seq!['C', 'O', 'M', 'M', 'A', 'N', 'D']);
    assert("CMD"@ =~= seq!['C', 'M', 'D']);
    assert("SUPER"@ =~= seq!['S', 'U', 'P', 'E', 'R']);
    assert("SHIFT"@ =~= seq!['S', 'H', 'I', 'F', 'T']);
    assert("COMMANDORCONTROL"@ =~= seq!['C', 'O', 'M', 'M', 'A', 'N', 'D', 'O', 'R', 'C', 'O', 'N', 'T', 'R', 'O', 'L']);
    assert("COMMANDORCTRL"@ =~= seq!['C', 'O', 'M', 'M', 'A', 'N', 'D', 'O', 'R', 'C', 'T', 'R', 'L']);
    assert("CMDORCTRL"@ =~= seq!['C', 'M', 'D', 'O', 'R', 'C', 'T', 'R', 'L']);
    assert("CMDORCONTROL"@ =~= seq!['C', 'M', 'D', 'O', 'R', 'C', 'O', 'N', 'T', 'R', 'O', 'L']);
    assert("META"@ =~= seq!['M', 'E', 'T', 'A']);
    assert(spec_upper(spec_key_name(KeyCode::KeyX)) =~= "KEYX"@);
    assert(spec_upper(spec_key_name(KeyCode::KeyY)) =~= "KEYY"@);
    assert(spec_upper(spec_key_name(KeyCode::KeyZ)) =~= "KEYZ"@);
    assert(spec_upper(spec_key_name(KeyCode::Minus)) =~= "MINUS"@);
    assert(spec_upper(spec_key_name(KeyCode::Period)) =~= "PERIOD"@);
    assert(spec_upper(spec_key_name(KeyCode::Quote)) =~= "QUOTE"@);
    assert(spec_upper(spec_key_name(KeyCode::Semicolon)) =~= "SEMICOLON"@);
    assert(spec_upper(spec_key_name(KeyCode::Slash)) =~= "SLASH"@);
    assert(spec_upper(spec_key_name(KeyCode::Backspace)) =~= "BACKSPACE"@);
    assert(spec_upper(spec_key_name(KeyCode::CapsLock)) =~= "CAPSLOCK"@);
    assert(spec_upper(spec_key_name(KeyCode::Enter)) =~= "ENTER"@);
    assert(spec_upper(spec_key_name(KeyCode::Space)) =~= "SPACE"@);
    assert(spec_upper(spec_key_name(KeyCode::Tab)) =~= "TAB"@);
    assert(spec_upper(spec_key_name(KeyCode::Delete)) =~= "DELETE"@);
    assert(spec_upper(spec_key_name(KeyCode::End)) =~= "END"@);
    assert(spec_upper(spec_key_name(KeyCode::Home)) =~= "HOME"@);
    assert(spec_upper(spec_key_name(KeyCode::Insert)) =~= "INSERT"@);
    assert(spec_upper(spec_key_name(KeyCode::PageDown)) =~= "PAGEDOWN"@);
    assert(spec_upper(spec_key_name(KeyCode::PageUp)) =~= "PAGEUP"@);
    assert(spec_upper(spec_key_name(KeyCode::PrintScreen)) =~= "PRINTSCREEN"@);
}

spec fn key_group_d(k: KeyCode) -> bool {
    match k {
        KeyCode::ScrollLock | KeyCode::ArrowDown | KeyCode::ArrowLeft | KeyCode::ArrowRight | KeyCode::ArrowUp | KeyCode::NumLock | KeyCode::Numpad0 | KeyCode::Numpad1 | KeyCode::Numpad2 | KeyCode::Numpad3 | KeyCode::Numpad4 | KeyCode::Numpad5 | KeyCode::Numpad6 | KeyCode::Numpad7 | KeyCode::Numpad8 | KeyCode::Numpad9 | KeyCode::NumpadAdd | KeyCode::NumpadDecimal | KeyCode::NumpadDivide | KeyCode::NumpadEnter => true,
        _ => false,
    }
}

#[verifier::rlimit(100)]
proof fn lemma_key_token_d(k: KeyCode)
    requires
        key_group_d(k),
    ensures
        key_token_facts(k),
{
    reveal_strlit("BACKQUOTE");
    reveal_strlit("`");
    reveal_strlit("BACKSLASH");
    reveal_strlit("\\");
    reveal_strlit("BRACKETLEFT");
    reveal_strlit("[");
    reveal_strlit("BRACKETRIGHT");
    reveal_strlit("]");
    reveal_strlit("PAUSE");
    reveal_strlit("PAUSEBREAK");
    reveal_strlit("COMMA");
    reveal_strlit(",");
    reveal_strlit("DIGIT0");
    reveal_strlit("0");
    reveal_strlit("DIGIT1");
    reveal_strlit("1");
    reveal_strlit("DIGIT2");
    reveal_strlit("2");
    reveal_strlit("DIGIT3");
    reveal_strlit("3");
    reveal_strlit("DIGIT4");
    reveal_strlit("4");
    reveal_strlit("DIGIT5");
    reveal_strlit("5");
    reveal_strlit("DIGIT6");
    reveal_strlit("6");
    reveal_strlit("DIGIT7");
    reveal_strlit("7");
    reveal_strlit("DIGIT8");
    reveal_strlit("8");
    reveal_strlit("DIGIT9");
    reveal_strlit("9");
    reveal_strlit("EQUAL");
    reveal_strlit("=");
    reveal_strlit("KEYA");
    reveal_strlit("A");
    reveal_strlit("KEYB");
    reveal_strlit("B");
    reveal_strlit("KEYC");
    reveal_strlit("C");
    reveal_strlit("KEYD");
    reveal_strlit("D");
    reveal_strlit("KEYE");
    reveal_strlit("E");
    reveal_strlit("KEYF");
    reveal_strlit("F");
    reveal_strlit("KEYG");
    reveal_strlit("G");
    reveal_strlit("KEYH");
    reveal_strlit("H");
    reveal_strlit("KEYI");
    reveal_strlit("I");
    reveal_strlit("KEYJ");
    reveal_strlit("J");
    reveal_strlit("KEYK");
    reveal_strlit("K");
    reveal_strlit("KEYL");
    reveal_strlit("L");
    reveal_strlit("KEYM");
    reveal_strlit("M");
    reveal_strlit("KEYN");
    reveal_strlit("N");
    reveal_strlit("KEYO");
    reveal_strlit("O");
    reveal_strlit("KEYP");
    reveal_strlit("P");
    reveal_strlit("KEYQ");
    reveal_strlit("Q");
    reveal_strlit("KEYR");
    reveal_strlit("R");
    reveal_strlit("KEYS");
    reveal_strlit("S");
    reveal_strlit("KEYT");
    reveal_strlit("T");
    reveal_strlit("KEYU");
    reveal_strlit("U");
    reveal_strlit("KEYV");
    reveal_strlit("V");
    reveal_strlit("KEYW");
    reveal_strlit("W");
    reveal_strlit("KEYX");
    reveal_strlit("X");
    reveal_strlit("KEYY");
    reveal_strlit("Y");
    reveal_strlit("KEYZ");
    reveal_strlit("Z");
    reveal_strlit("MINUS");
    reveal_strlit("-");
    reveal_strlit("PERIOD");
    reveal_strlit(".");
    reveal_strlit("QUOTE");
    reveal_strlit("'");
    reveal_strlit("SEMICOLON");
    reveal_strlit(";");
    reveal_strlit("SLASH");
    reveal_strlit("/");
    reveal_strlit("BACKSPACE");
    reveal_strlit("CAPSLOCK");
    reveal_strlit("ENTER");
    reveal_strlit("SPACE");
    reveal_strlit("TAB");
    reveal_strlit("DELETE");
    reveal_strlit("END");
    reveal_strlit("HOME");
    reveal_strlit("INSERT");
    reveal_strlit("PAGEDOWN");
    reveal_strlit("PAGEUP");
    reveal_strlit("PRINTSCREEN");
    reveal_strlit("SCROLLLOCK");
    reveal_strlit("ARROWDOWN");
    reveal_strlit("DOWN");
    reveal_strlit("ARROWLEFT");
    reveal_strlit("LEFT");
    reveal_strlit("ARROWRIGHT");
    reveal_strlit("RIGHT");
    reveal_strlit("ARROWUP");
    reveal_strlit("UP");
    reveal_strlit("NUMLOCK");
    reveal_strlit("NUMPAD0");
    reveal_strlit("NUM0");
    reveal_strlit("NUMPAD1");
    reveal_strlit("NUM1");
    reveal_strlit("NUMPAD2");
    reveal_strlit("NUM2");
    reveal_strlit("NUMPAD3");
    reveal_strlit("NUM3");
    reveal_strlit("NUMPAD4");
    reveal_strlit("NUM4");
    reveal_strlit("NUMPAD5");
    reveal_strlit("NUM5");
    reveal_strlit("NUMPAD6");
    reveal_strlit("NUM6");
    reveal_strlit("NUMPAD7");
    reveal_strlit("NUM7");
    reveal_strlit("NUMPAD8");
    reveal_strlit("NUM8");
    reveal_strlit("NUMPAD9");
    reveal_strlit("NUM9");
    reveal_strlit("NUMPADADD");
    reveal_strlit("NUMADD");
    reveal_strlit("NUMPADPLUS");
    reveal_strlit("NUMPLUS");
    reveal_strlit("NUMPADDECIMAL");
    reveal_strlit("NUMDECIMAL");
    reveal_strlit("NUMPADDIVIDE");
    reveal_strlit("NUMDIVIDE");
    reveal_strlit("NUMPADENTER");
    reveal_strlit("NUMENTER");
    reveal_strlit("scrolllock");
    reveal_strlit("arrowdown");
    reveal_strlit("arrowleft");
    reveal_strlit("arrowright");
    reveal_strlit("arrowup");
    reveal_strlit("numlock");
    reveal_strlit("numpad0");
    reveal_strlit("numpad1");
    reveal_strlit("numpad2");
    reveal_strlit("numpad3");
    reveal_strlit("numpad4");
    reveal_strlit("numpad5");
    reveal_strlit("numpad6");
    reveal_strlit("numpad7");
    reveal_strlit("numpad8");
    reveal_strlit("numpad9");
    reveal_strlit("numpadadd");
    reveal_strlit("numpaddecimal");
    reveal_strlit("numpaddivide");
    reveal_strlit("numpadenter");
    reveal_strlit("OPTION");
    reveal_strlit("ALT");
    reveal_strlit("CONTROL");
    reveal_strlit("CTRL");
    reveal_strlit("COMMAND");
    reveal_strlit("CMD");
    reveal_strlit("SUPER");
    reveal_strlit("SHIFT");
    reveal_strlit("COMMANDORCONTROL");
    reveal_strlit("COMMANDORCTRL");
    reveal_strlit("CMDORCTRL");
    reveal_strlit("CMDORCONTROL");
    reveal_strlit("META");
    assert("BACKQUOTE"@ =~= seq!['B', 'A', 'C', 'K', 'Q', 'U', 'O', 'T', 'E']);
    assert("`"@ =~= seq!['`']);
    assert("BACKSLASH"@ =~= seq!['B', 'A', 'C', 'K', 'S', 'L', 'A', 'S', 'H']);
    assert("\\"@ =~= seq!['\\']);
    assert("BRACKETLEFT"@ =~= seq!['B', 'R', 'A', 'C', 'K', 'E', 'T', 'L', 'E', 'F', 'T']);
    assert("["@ =~= seq!['[']);
    assert("BRACKETRIGHT"@ =~= seq!['B', 'R', 'A', 'C', 'K', 'E', 'T', 'R', 'I', 'G', 'H', 'T']);
    assert("]"@ =~= seq![']']);
    assert("PAUSE"@ =~= seq!['P', 'A', 'U', 'S', 'E']);
    assert("PAUSEBREAK"@ =~= seq!['P', 'A', 'U', 'S', 'E', 'B', 'R', 'E', 'A', 'K']);
    assert("COMMA"@ =~= seq!['C', 'O', 'M', 'M', 'A']);
    assert(","@ =~= seq![',']);
    assert("DIGIT0"@ =~= seq!['D', 'I', 'G', 'I', 'T', '0']);
    assert("0"@ =~= seq!['0']);
    assert("DIGIT1"@ =~= seq!['D', 'I', 'G', 'I', 'T', '1']);
    assert("1"@ =~= seq!['1']);
    assert("DIGIT2"@ =~= seq!['D', 'I', 'G', 'I', 'T', '2']);
    assert("2"@ =~= seq!['2']);
    assert("DIGIT3"@ =~= seq!['D', 'I', 'G', 'I', 'T', '3']);
    assert("3"@ =~= seq!['3']);
    assert("DIGIT4"@ =~= seq!['D', 'I', 'G', 'I', 'T', '4']);
    assert("4"@ =~= seq!['4']);
    assert("DIGIT5"@ =~= seq!['D', 'I', 'G', 'I', 'T', '5']);
    assert("5"@ =~= seq!['5']);
    assert("DIGIT6"@ =~= seq!['D', 'I', 'G', 'I', 'T', '6']);
    assert("6"@ =~= seq!['6']);
    assert("DIGIT7"@ =~= seq!['D', 'I', 'G', 'I', 'T', '7']);
    assert("7"@ =~= seq!['7']);
    assert("DIGIT8"@ =~= seq!['D', 'I', 'G', 'I', 'T', '8']);
    assert("8"@ =~= seq!['8']);
    assert("DIGIT9"@ =~= seq!['D', 'I', 'G', 'I', 'T', '9']);
    assert("9"@ =~= seq!['9']);
    assert("EQUAL"@ =~= seq!['E', 'Q', 'U', 'A', 'L']);
    assert("="@ =~= seq!['=']);
    assert("KEYA"@ =~= seq!['K', 'E', 'Y', 'A']);
    assert("A"@ =~= seq!['A']);
    assert("KEYB"@ =~= seq!['K', 'E', 'Y', 'B']);
    assert("B"@ =~= seq!['B']);
    assert("KEYC"@ =~= seq!['K', 'E', 'Y', 'C']);
    assert("C"@ =~= seq!['C']);
    assert("KEYD"@ =~= seq!['K', 'E', 'Y', 'D']);
    assert("D"@ =~= seq!['D']);
    assert("KEYE"@ =~= seq!['K', 'E', 'Y', 'E']);
    assert("E"@ =~= seq!['E']);
    assert("KEYF"@ =~= seq!['K', 'E', 'Y', 'F']);
    assert("F"@ =~= seq!['F']);
    assert("KEYG"@ =~= seq!['K', 'E', 'Y', 'G']);
    assert("G"@ =~= seq!['G']);
    assert("KEYH"@ =~= seq!['K', 'E', 'Y', 'H']);
    assert("H"@ =~= seq!['H']);
    assert("KEYI"@ =~= seq!['K', 'E', 'Y', 'I']);
    assert("I"@ =~= seq!['I']);
    assert("KEYJ"@ =~= seq!['K', 'E', 'Y', 'J']);
    assert("J"@ =~= seq!['J']);
    assert("KEYK"@ =~= seq!['K', 'E', 'Y', 'K']);
    assert("K"@ =~= seq!['K']);
    assert("KEYL"@ =~= seq!['K', 'E', 'Y', 'L']);
    assert("L"@ =~= seq!['L']);
    assert("KEYM"@ =~= seq!['K', 'E', 'Y', 'M']);
    assert("M"@ =~= seq!['M']);
    assert("KEYN"@ =~= seq!['K', 'E', 'Y', 'N']);
    assert("N"@ =~= seq!['N']);
    assert("KEYO"@ =~= seq!['K', 'E', 'Y', 'O']);
    assert("O"@ =~= seq!['O']);
    assert("KEYP"@ =~= seq!['K', 'E', 'Y', 'P']);
    assert("P"@ =~= seq!['P']);
    assert("KEYQ"@ =~= seq!['K', 'E', 'Y', 'Q']);
    assert("Q"@ =~= seq!['Q']);
    assert("KEYR"@ =~= seq!['K', 'E', 'Y', 'R']);
    assert("R"@ =~= seq!['R']);
    assert("KEYS"@ =~= seq!['K', 'E', 'Y', 'S']);
    assert("S"@ =~= seq!['S']);
    assert("KEYT"@ =~= seq!['K', 'E', 'Y', 'T']);
    assert("T"@ =~= seq!['T']);
    assert("KEYU"@ =~= seq!['K', 'E', 'Y', 'U']);
    assert("U"@ =~= seq!['U']);
    assert("KEYV"@ =~= seq!['K', 'E', 'Y', 'V']);
    assert("V"@ =~= seq!['V']);
    assert("KEYW"@ =~= seq!['K', 'E', 'Y', 'W']);
    assert("W"@ =~= seq!['W']);
    assert("KEYX"@ =~= seq!['K', 'E', 'Y', 'X']);
    assert("X"@ =~= seq!['X']);
    assert("KEYY"@ =~= seq!['K', 'E', 'Y', 'Y']);
    assert("Y"@ =~= seq!['Y']);
    assert("KEYZ"@ =~= seq!['K', 'E', 'Y', 'Z']);
    assert("Z"@ =~= seq!['Z']);
    assert("MINUS"@ =~= seq!['M', 'I', 'N', 'U', 'S']);
    assert("-"@ =~= seq!['-']);
    assert("PERIOD"@ =~= seq!['P', 'E', 'R', 'I', 'O', 'D']);
    assert("."@ =~= seq!['.']);
    assert("QUOTE"@ =~= seq!['Q', 'U', 'O', 'T', 'E']);
    assert("'"@ =~= seq!['\'']);
    assert("SEMICOLON"@ =~= seq!['S', 'E', 'M', 'I', 'C', 'O', 'L', 'O', 'N']);
    assert(";"@ =~= seq![';']);
    assert("SLASH"@ =~= seq!['S', 'L', 'A', 'S', 'H']);
    assert("/"@ =~= seq!['/']);
    assert("BACKSPACE"@ =~= seq!['B', 'A', 'C', 'K', 'S', 'P', 'A', 'C', 'E']);
    assert("CAPSLOCK"@ =~= seq!['C', 'A', 'P', 'S', 'L', 'O', 'C', 'K']);
    assert("ENTER"@ =~= seq!['E', 'N', 'T', 'E', 'R']);
    assert("SPACE"@ =~= seq!['S', 'P', 'A', 'C', 'E']);
    assert("TAB"@ =~= seq!['T', 'A', 'B']);
    assert("DELETE"@ =~= seq!['D', 'E', 'L', 'E', 'T', 'E']);
    assert("END"@ =~= seq!['E', 'N', 'D']);
    assert("HOME"@ =~= seq!['H', 'O', 'M', 'E']);
    assert("INSERT"@ =~= seq!['I', 'N', 'S', 'E', 'R', 'T']);
    assert("PAGEDOWN"@ =~= seq!['P', 'A', 'G', 'E', 'D', 'O', 'W', 'N']);
    assert("PAGEUP"@ =~= seq!['P', 'A', 'G', 'E', 'U', 'P']);
    assert("PRINTSCREEN"@ =~= seq!['P', 'R', 'I', 'N', 'T', 'S', 'C', 'R', 'E', 'E', 'N']);
    assert("SCROLLLOCK"@ =~= seq!['S', 'C', 'R', 'O', 'L', 'L', 'L', 'O', 'C', 'K']);
    assert("ARROWDOWN"@ =~= seq!['A', 'R', 'R', 'O', 'W', 'D', 'O', 'W', 'N']);
    assert("DOWN"@ =~= seq!['D', 'O', 'W', 'N']);
    assert("ARROWLEFT"@ =~= seq!['A', 'R', 'R', 'O', 'W', 'L', 'E', 'F', 'T']);
    assert("LEFT"@ =~= seq!['L', 'E', 'F', 'T']);
    assert("ARROWRIGHT"@ =~= seq!['A', 'R', 'R', 'O', 'W', 'R', 'I', 'G', 'H', 'T']);
    assert("RIGHT"@ =~= seq!['R', 'I', 'G', 'H', 'T']);
    assert("ARROWUP"@ =~= seq!['A', 'R', 'R', 'O', 'W', 'U', 'P']);
    assert("UP"@ =~= seq!['U', 'P']);
    assert("NUMLOCK"@ =~= seq!['N', 'U', 'M', 'L', 'O', 'C', 'K']);
    assert("NUMPAD0"@ =~= seq!['N', 'U', 'M', 'P', 'A', 'D', '0']);
    assert("NUM0"@ =~= seq!['N', 'U', 'M', '0']);
    assert("NUMPAD1"@ =~= seq!['N', 'U', 'M', 'P', 'A', 'D', '1']);
    assert("NUM1"@ =~= seq!['N', 'U', 'M', '1']);
    assert("NUMPAD2"@ =~= seq!['N', 'U', 'M', 'P', 'A', 'D', '2']);
    assert("NUM2"@ =~= seq!['N', 'U', 'M', '2']);
    assert("NUMPAD3"@ =~= seq!['N', 'U', 'M', 'P', 'A', 'D', '3']);
    assert("NUM3"@ =~= seq!['N', 'U', 'M', '3']);
    assert("NUMPAD4"@ =~= seq!['N', 'U', 'M', 'P', 'A', 'D', '4']);
    assert("NUM4"@ =~= seq!['N', 'U', 'M', '4']);
    assert("NUMPAD5"@ =~= seq!['N', 'U', 'M', 'P', 'A', 'D', '5']);
    assert("NUM5"@ =~= seq!['N', 'U', 'M', '5']);
    assert("NUMPAD6"@ =~= seq!['N', 'U', 'M', 'P', 'A', 'D', '6']);
    assert("NUM6"@ =~= seq!['N', 'U', 'M', '6']);
    assert("NUMPAD7"@ =~= seq!['N', 'U', 'M', 'P', 'A', 'D', '7']);
    assert("NUM7"@ =~= seq!['N', 'U', 'M', '7']);
    assert("NUMPAD8"@ =~= seq!['N', 'U', 'M', 'P', 'A', 'D', '8']);
    assert("NUM8"@ =~= seq!['N', 'U', 'M', '8']);
    assert("NUMPAD9"@ =~= seq!['N', 'U', 'M', 'P', 'A', 'D', '9']);
    assert("NUM9"@ =~= seq!['N', 'U', 'M', '9']);
    assert("NUMPADADD"@ =~= seq!['N', 'U', 'M', 'P', 'A', 'D', 'A', 'D', 'D']);
    assert("NUMADD"@ =~= seq!['N', 'U', 'M', 'A', 'D', 'D']);
    assert("NUMPADPLUS"@ =~= seq!['N', 'U', 'M', 'P', 'A', 'D', 'P', 'L', 'U', 'S']);
    assert("NUMPLUS"@ =~= seq!['N', 'U', 'M', 'P', 'L', 'U', 'S']);
    assert("NUMPADDECIMAL"@ =~= seq!['N', 'U', 'M', 'P', 'A', 'D', 'D', 'E', 'C', 'I', 'M', 'A', 'L']);
    assert("NUMDECIMAL"@ =~= seq!['N', 'U', 'M', 'D', 'E', 'C', 'I', 'M', 'A', 'L']);
    assert("NUMPADDIVIDE"@ =~= seq!['N', 'U', 'M', 'P', 'A', 'D', 'D', 'I', 'V', 'I', 'D', 'E']);
    assert("NUMDIVIDE"@ =~= seq!['N', 'U', 'M', 'D', 'I', 'V', 'I', 'D', 'E']);
    assert("NUMPADENTER"@ =~= seq!['N', 'U', 'M', 'P', 'A', 'D', 'E', 'N', 'T', 'E', 'R']);
    assert("NUMENTER"@ =~= seq!['N', 'U', 'M', 'E', 'N', 'T', 'E', 'R']);
    assert("OPTION"@ =~= seq!['O', 'P', 'T', 'I', 'O', 'N']);
    assert("ALT"@ =~= seq!['A', 'L', 'T']);
    assert("CONTROL"@ =~= seq!['C', 'O', 'N', 'T', 'R', 'O', 'L']);
    assert("CTRL"@ =~= seq!['C', 'T', 'R', 'L']);
    assert("COMMAND"@ =~= seq!['C', 'O', 'M', 'M', 'A', 'N', 'D']);
    assert("CMD"@ =~= seq!['C', 'M', 'D']);
    assert("SUPER"@ =~= seq!['S', 'U', 'P', 'E', 'R']);
    assert("SHIFT"@ =~= seq!['S', 'H', 'I', 'F', 'T']);
    assert("COMMANDORCONTROL"@ =~= seq!['C', 'O', 'M', 'M', 'A', 'N', 'D', 'O', 'R', 'C', 'O', 'N', 'T', 'R', 'O', 'L']);
    assert("COMMANDORCTRL"@ =~= seq!['C', 'O', 'M', 'M', 'A', 'N', 'D', 'O', 'R', 'C', 'T', 'R', 'L']);
    assert("CMDORCTRL"@ =~= seq!['C', 'M', 'D', 'O', 'R', 'C', 'T', 'R', 'L']);
    assert("CMDORCONTROL"@ =~= seq!['C', 'M', 'D', 'O', 'R', 'C', 'O', 'N', 'T', 'R', 'O', 'L']);
    assert("META"@ =~= seq!['M', 'E', 'T', 'A']);
    assert(spec_upper(spec_key_name(KeyCode::ScrollLock)) =~= "SCROLLLOCK"@);
    assert(spec_upper(spec_key_name(KeyCode::ArrowDown)) =~= "ARROWDOWN"@);
    assert(spec_upper(spec_key_name(KeyCode::ArrowLeft)) =~= "ARROWLEFT"@);
    assert(spec_upper(spec_key_name(KeyCode::ArrowRight)) =~= "ARROWRIGHT"@);
    assert(spec_upper(spec_key_name(KeyCode::ArrowUp)) =~= "ARROWUP"@);
    assert(spec_upper(spec_key_name(KeyCode::NumLock)) =~= "NUMLOCK"@);
    assert(spec_upper(spec_key_name(KeyCode::Numpad0)) =~= "NUMPAD0"@);
    assert(spec_upper(spec_key_name(KeyCode::Numpad1)) =~= "NUMPAD1"@);
    assert(spec_upper(spec_key_name(KeyCode::Numpad2)) =~= "NUMPAD2"@);
    assert(spec_upper(spec_key_name(KeyCode::Numpad3)) =~= "NUMPAD3"@);
    assert(spec_upper(spec_key_name(KeyCode::Numpad4)) =~= "NUMPAD4"@);
    assert(spec_upper(spec_key_name(KeyCode::Numpad5)) =~= "NUMPAD5"@);
    assert(spec_upper(spec_key_name(KeyCode::Numpad6)) =~= "NUMPAD6"@);
    assert(spec_upper(spec_key_name(KeyCode::Numpad7)) =~= "NUMPAD7"@);
    assert(spec_upper(spec_key_name(KeyCode::Numpad8)) =~= "NUMPAD8"@);
    assert(spec_upper(spec_key_name(KeyCode::Numpad9)) =~= "NUMPAD9"@);
    assert(spec_upper(spec_key_name(KeyCode::NumpadAdd)) =~= "NUMPADADD"@);
    assert(spec_upper(spec_key_name(KeyCode::NumpadDecimal)) =~= "NUMPADDECIMAL"@);
    assert(spec_upper(spec_key_name(KeyCode::NumpadDivide)) =~= "NUMPADDIVIDE"@);
    assert(spec_upper(spec_key_name(KeyCode::NumpadEnter)) =~= "NUMPADENTER"@);
}

spec fn key_group_e(k: KeyCode) -> bool {
    match k {
        KeyCode::NumpadEqual | KeyCode::NumpadMultiply | KeyCode::NumpadSubtract | KeyCode::Escape | KeyCode::F1 | KeyCode::F2 | KeyCode::F3 | KeyCode::F4 | KeyCode::F5 | KeyCode::F6 | KeyCode::F7 | KeyCode::F8 | KeyCode::F9 | KeyCode::F10 | KeyCode::F11 | KeyCode::F12 | KeyCode::AudioVolumeDown | KeyCode::AudioVolumeUp | KeyCode::AudioVolumeMute | KeyCode::MediaPlay => true,
        _ => false,
    }
}

#[verifier::rlimit(100)]
proof fn lemma_key_token_e(k: KeyCode)
    requires
        key_group_e(k),
    ensures
        key_token_facts(k),
{
    reveal_strlit("BACKQUOTE");
    reveal_strlit("`");
    reveal_strlit("BACKSLASH");
    reveal_strlit("\\");
    reveal_strlit("BRACKETLEFT");
    reveal_strlit("[");
    reveal_strlit("BRACKETRIGHT");
    reveal_strlit("]");
    reveal_strlit("PAUSE");
    reveal_strlit("PAUSEBREAK");
    reveal_strlit("COMMA");
    reveal_strlit(",");
    reveal_strlit("DIGIT0");
    reveal_strlit("0");
    reveal_strlit("DIGIT1");
    reveal_strlit("1");
    reveal_strlit("DIGIT2");
    reveal_strlit("2");
    reveal_strlit("DIGIT3");
    reveal_strlit("3");
    reveal_strlit("DIGIT4");
    reveal_strlit("4");
    reveal_strlit("DIGIT5");
    reveal_strlit("5");
    reveal_strlit("DIGIT6");
    reveal_strlit("6");
    reveal_strlit("DIGIT7");
    reveal_strlit("7");
    reveal_strlit("DIGIT8");
    reveal_strlit("8");
    reveal_strlit("DIGIT9");
    reveal_strlit("9");
    reveal_strlit("EQUAL");
    reveal_strlit("=");
    reveal_strlit("KEYA");
    reveal_strlit("A");
    reveal_strlit("KEYB");
    reveal_strlit("B");
    reveal_strlit("KEYC");
    reveal_strlit("C");
    reveal_strlit("KEYD");
    reveal_strlit("D");
    reveal_strlit("KEYE");
    reveal_strlit("E");
    reveal_strlit("KEYF");
    reveal_strlit("F");
    reveal_strlit("KEYG");
    reveal_strlit("G");
    reveal_strlit("KEYH");
    reveal_strlit("H");
    reveal_strlit("KEYI");
    reveal_strlit("I");
    reveal_strlit("KEYJ");
    reveal_strlit("J");
    reveal_strlit("KEYK");
    reveal_strlit("K");
    reveal_strlit("KEYL");
    reveal_strlit("L");
    reveal_strlit("KEYM");
    reveal_strlit("M");
    reveal_strlit("KEYN");
    reveal_strlit("N");
    reveal_strlit("KEYO");
    reveal_strlit("O");
    reveal_strlit("KEYP");
    reveal_strlit("P");
    reveal_strlit("KEYQ");
    reveal_strlit("Q");
    reveal_strlit("KEYR");
    reveal_strlit("R");
    reveal_strlit("KEYS");
    reveal_strlit("S");
    reveal_strlit("KEYT");
    reveal_strlit("T");
    reveal_strlit("KEYU");
    reveal_strlit("U");
    reveal_strlit("KEYV");
    reveal_strlit("V");
    reveal_strlit("KEYW");
    reveal_strlit("W");
    reveal_strlit("KEYX");
    reveal_strlit("X");
    reveal_strlit("KEYY");
    reveal_strlit("Y");
    reveal_strlit("KEYZ");
    reveal_strlit("Z");
    reveal_strlit("MINUS");
    reveal_strlit("-");
    reveal_strlit("PERIOD");
    reveal_strlit(".");
    reveal_strlit("QUOTE");
    reveal_strlit("'");
    reveal_strlit("SEMICOLON");
    reveal_strlit(";");
    reveal_strlit("SLASH");
    reveal_strlit("/");
    reveal_strlit("BACKSPACE");
    reveal_strlit("CAPSLOCK");
    reveal_strlit("ENTER");
    reveal_strlit("SPACE");
    reveal_strlit("TAB");
    reveal_strlit("DELETE");
    reveal_strlit("END");
    reveal_strlit("HOME");
    reveal_strlit("INSERT");
    reveal_strlit("PAGEDOWN");
    reveal_strlit("PAGEUP");
    reveal_strlit("PRINTSCREEN");
    reveal_strlit("SCROLLLOCK");
    reveal_strlit("ARROWDOWN");
    reveal_strlit("DOWN");
    reveal_strlit("ARROWLEFT");
    reveal_strlit("LEFT");
    reveal_strlit("ARROWRIGHT");
    reveal_strlit("RIGHT");
    reveal_strlit("ARROWUP");
    reveal_strlit("UP");
    reveal_strlit("NUMLOCK");
    reveal_strlit("NUMPAD0");
    reveal_strlit("NUM0");
    reveal_strlit("NUMPAD1");
    reveal_strlit("NUM1");
    reveal_strlit("NUMPAD2");
    reveal_strlit("NUM2");
    reveal_strlit("NUMPAD3");
    reveal_strlit("NUM3");
    reveal_strlit("NUMPAD4");
    reveal_strlit("NUM4");
    reveal_strlit("NUMPAD5");
    reveal_strlit("NUM5");
    reveal_strlit("NUMPAD6");
    reveal_strlit("NUM6");
    reveal_strlit("NUMPAD7");
    reveal_strlit("NUM7");
    reveal_strlit("NUMPAD8");
    reveal_strlit("NUM8");
    reveal_strlit("NUMPAD9");
    reveal_strlit("NUM9");
    reveal_strlit("NUMPADADD");
    reveal_strlit("NUMADD");
    reveal_strlit("NUMPADPLUS");
    reveal_strlit("NUMPLUS");
    reveal_strlit("NUMPADDECIMAL");
    reveal_strlit("NUMDECIMAL");
    reveal_strlit("NUMPADDIVIDE");
    reveal_strlit("NUMDIVIDE");
    reveal_strlit("NUMPADENTER");
    reveal_strlit("NUMENTER");
    reveal_strlit("NUMPADEQUAL");
    reveal_strlit("NUMEQUAL");
    reveal_strlit("NUMPADMULTIPLY");
    reveal_strlit("NUMMULTIPLY");
    reveal_strlit("NUMPADSUBTRACT");
    reveal_strlit("NUMSUBTRACT");
    reveal_strlit("ESCAPE");
    reveal_strlit("ESC");
    reveal_strlit("F1");
    reveal_strlit("F2");
    reveal_strlit("F3");
    reveal_strlit("F4");
    reveal_strlit("F5");
    reveal_strlit("F6");
    reveal_strlit("F7");
    reveal_strlit("F8");
    reveal_strlit("F9");
    reveal_strlit("F10");
    reveal_strlit("F11");
    reveal_strlit("F12");
    reveal_strlit("AUDIOVOLUMEDOWN");
    reveal_strlit("VOLUMEDOWN");
    reveal_strlit("AUDIOVOLUMEUP");
    reveal_strlit("VOLUMEUP");
    reveal_strlit("AUDIOVOLUMEMUTE");
    reveal_strlit("VOLUMEMUTE");
    reveal_strlit("MEDIAPLAY");
    reveal_strlit("numpadequal");
    reveal_strlit("numpadmultiply");
    reveal_strlit("numpadsubtract");
    reveal_strlit("escape");
    reveal_strlit("f1");
    reveal_strlit("f2");
    reveal_strlit("f3");
    reveal_strlit("f4");
    reveal_strlit("f5");
    reveal_strlit("f6");
    reveal_strlit("f7");
    reveal_strlit("f8");
    reveal_strlit("f9");
    reveal_strlit("f10");
    reveal_strlit("f11");
    reveal_strlit("f12");
    reveal_strlit("audiovolumedown");
    reveal_strlit("audiovolumeup");
    reveal_strlit("audiovolumemute");
    reveal_strlit("mediaplay");
    reveal_strlit("OPTION");
    reveal_strlit("ALT");
    reveal_strlit("CONTROL");
    reveal_strlit("CTRL");
    reveal_strlit("COMMAND");
    reveal_strlit("CMD");
    reveal_strlit("SUPER");
    reveal_strlit("SHIFT");
    reveal_strlit("COMMANDORCONTROL");
    reveal_strlit("COMMANDORCTRL");
    reveal_strlit("CMDORCTRL");
    reveal_strlit("CMDORCONTROL");
    reveal_strlit("META");
    assert("BACKQUOTE"@ =~= seq!['B', 'A', 'C', 'K', 'Q', 'U', 'O', 'T', 'E']);
    assert("`"@ =~= seq!['`']);
    assert("BACKSLASH"@ =~= seq!['B', 'A', 'C', 'K', 'S', 'L', 'A', 'S', 'H']);
    assert("\\"@ =~= seq!['\\']);
    assert("BRACKETLEFT"@ =~= seq!['B', 'R', 'A', 'C', 'K', 'E', 'T', 'L', 'E', 'F', 'T']);
    assert("["@ =~= seq!['[']);
    assert("BRACKETRIGHT"@ =~= seq!['B', 'R', 'A', 'C', 'K', 'E', 'T', 'R', 'I', 'G', 'H', 'T']);
    assert("]"@ =~= seq![']']);
    assert("PAUSE"@ =~= seq!['P', 'A', 'U', 'S', 'E']);
    assert("PAUSEBREAK"@ =~= seq!['P', 'A', 'U', 'S', 'E', 'B', 'R', 'E', 'A', 'K']);
    assert("COMMA"@ =~= seq!['C', 'O', 'M', 'M', 'A']);
    assert(","@ =~= seq![',']);
    assert("DIGIT0"@ =~= seq!['D', 'I', 'G', 'I', 'T', '0']);
    assert("0"@ =~= seq!['0']);
    assert("DIGIT1"@ =~= seq!['D', 'I', 'G', 'I', 'T', '1']);
    assert("1"@ =~= seq!['1']);
    assert("DIGIT2"@ =~= seq!['D', 'I', 'G', 'I', 'T', '2']);
    assert("2"@ =~= seq!['2']);
    assert("DIGIT3"@ =~= seq!['D', 'I', 'G', 'I', 'T', '3']);
    assert("3"@ =~= seq!['3']);
    assert("DIGIT4"@ =~= seq!['D', 'I', 'G', 'I', 'T', '4']);
    assert("4"@ =~= seq!['4']);
    assert("DIGIT5"@ =~= seq!['D', 'I', 'G', 'I', 'T', '5']);
    assert("5"@ =~= seq!['5']);
    assert("DIGIT6"@ =~= seq!['D', 'I', 'G', 'I', 'T', '6']);
    assert("6"@ =~= seq!['6']);
    assert("DIGIT7"@ =~= seq!['D', 'I', 'G', 'I', 'T', '7']);
    assert("7"@ =~= seq!['7']);
    assert("DIGIT8"@ =~= seq!['D', 'I', 'G', 'I', 'T', '8']);
    assert("8"@ =~= seq!['8']);
    assert("DIGIT9"@ =~= seq!['D', 'I', 'G', 'I', 'T', '9']);
    assert("9"@ =~= seq!['9']);
    assert("EQUAL"@ =~= seq!['E', 'Q', 'U', 'A', 'L']);
    assert("="@ =~= seq!['=']);
    assert("KEYA"@ =~= seq!['K', 'E', 'Y', 'A']);
    assert("A"@ =~= seq!['A']);
    assert("KEYB"@ =~= seq!['K', 'E', 'Y', 'B']);
    assert("B"@ =~= seq!['B']);
    assert("KEYC"@ =~= seq!['K', 'E', 'Y', 'C']);
    assert("C"@ =~= seq!['C']);
    assert("KEYD"@ =~= seq!['K', 'E', 'Y', 'D']);
    assert("D"@ =~= seq!['D']);
    assert("KEYE"@ =~= seq!['K', 'E', 'Y', 'E']);
    assert("E"@ =~= seq!['E']);
    assert("KEYF"@ =~= seq!['K', 'E', 'Y', 'F']);
    assert("F"@ =~= seq!['F']);
    assert("KEYG"@ =~= seq!['K', 'E', 'Y', 'G']);
    assert("G"@ =~= seq!['G']);
    assert("KEYH"@ =~= seq!['K', 'E', 'Y', 'H']);
    assert("H"@ =~= seq!['H']);
    assert("KEYI"@ =~= seq!['K', 'E', 'Y', 'I']);
    assert("I"@ =~= seq!['I']);
    assert("KEYJ"@ =~= seq!['K', 'E', 'Y', 'J']);
    assert("J"@ =~= seq!['J']);
    assert("KEYK"@ =~= seq!['K', 'E', 'Y', 'K']);
    assert("K"@ =~= seq!['K']);
    assert("KEYL"@ =~= seq!['K', 'E', 'Y', 'L']);
    assert("L"@ =~= seq!['L']);
    assert("KEYM"@ =~= seq!['K', 'E', 'Y', 'M']);
    assert("M"@ =~= seq!['M']);
    assert("KEYN"@ =~= seq!['K', 'E', 'Y', 'N']);
    assert("N"@ =~= seq!['N']);
    assert("KEYO"@ =~= seq!['K', 'E', 'Y', 'O']);
    assert("O"@ =~= seq!['O']);
    assert("KEYP"@ =~= seq!['K', 'E', 'Y', 'P']);
    assert("P"@ =~= seq!['P']);
    assert("KEYQ"@ =~= seq!['K', 'E', 'Y', 'Q']);
    assert("Q"@ =~= seq!['Q']);
    assert("KEYR"@ =~= seq!['K', 'E', 'Y', 'R']);
    assert("R"@ =~= seq!['R']);
    assert("KEYS"@ =~= seq!['K', 'E', 'Y', 'S']);
    assert("S"@ =~= seq!['S']);
    assert("KEYT"@ =~= seq!['K', 'E', 'Y', 'T']);
    assert("T"@ =~= seq!['T']);
    assert("KEYU"@ =~= seq!['K', 'E', 'Y', 'U']);
    assert("U"@ =~= seq!['U']);
    assert("KEYV"@ =~= seq!['K', 'E', 'Y', 'V']);
    assert("V"@ =~= seq!['V']);
    assert("KEYW"@ =~= seq!['K', 'E', 'Y', 'W']);
    assert("W"@ =~= seq!['W']);
    assert("KEYX"@ =~= seq!['K', 'E', 'Y', 'X']);
    assert("X"@ =~= seq!['X']);
    assert("KEYY"@ =~= seq!['K', 'E', 'Y', 'Y']);
    assert("Y"@ =~= seq!['Y']);
    assert("KEYZ"@ =~= seq!['K', 'E', 'Y', 'Z']);
    assert("Z"@ =~= seq!['Z']);
    assert("MINUS"@ =~= seq!['M', 'I', 'N', 'U', 'S']);
    assert("-"@ =~= seq!['-']);
    assert("PERIOD"@ =~= seq!['P', 'E', 'R', 'I', 'O', 'D']);
    assert("."@ =~= seq!['.']);
    assert("QUOTE"@ =~= seq!['Q', 'U', 'O', 'T', 'E']);
    assert("'"@ =~= seq!['\'']);
    assert("SEMICOLON"@ =~= seq!['S', 'E', 'M', 'I', 'C', 'O', 'L', 'O', 'N']);
    assert(";"@ =~= seq![';']);
    assert("SLASH"@ =~= seq!['S', 'L', 'A', 'S', 'H']);
    assert("/"@ =~= seq!['/']);
    assert("BACKSPACE"@ =~= seq!['B', 'A', 'C', 'K', 'S', 'P', 'A', 'C', 'E']);
    assert("CAPSLOCK"@ =~= seq!['C', 'A', 'P', 'S', 'L', 'O', 'C', 'K']);
    assert("ENTER"@ =~= seq!['E', 'N', 'T', 'E', 'R']);
    assert("SPACE"@ =~= seq!['S', 'P', 'A', 'C', 'E']);
    assert("TAB"@ =~= seq!['T', 'A', 'B']);
    assert("DELETE"@ =~= seq!['D', 'E', 'L', 'E', 'T', 'E']);
    assert("END"@ =~= seq!['E', 'N', 'D']);
    assert("HOME"@ =~= seq!['H', 'O', 'M', 'E']);
    assert("INSERT"@ =~= seq!['I', 'N', 'S', 'E', 'R', 'T']);
    assert("PAGEDOWN"@ =~= seq!['P', 'A', 'G', 'E', 'D', 'O', 'W', 'N']);
    assert("PAGEUP"@ =~= seq!['P', 'A', 'G', 'E', 'U', 'P']);
    assert("PRINTSCREEN"@ =~= seq!['P', 'R', 'I', 'N', 'T', 'S', 'C', 'R', 'E', 'E', 'N']);
    assert("SCROLLLOCK"@ =~= seq!['S', 'C', 'R', 'O', 'L', 'L', 'L', 'O', 'C', 'K']);
    assert("ARROWDOWN"@ =~= seq!['A', 'R', 'R', 'O', 'W', 'D', 'O', 'W', 'N']);
    assert("DOWN"@ =~= seq!['D', 'O', 'W', 'N']);
    assert("ARROWLEFT"@ =~= seq!['A', 'R', 'R', 'O', 'W', 'L', 'E', 'F', 'T']);
    assert("LEFT"@ =~= seq!['L', 'E', 'F', 'T']);
    assert("ARROWRIGHT"@ =~= seq!['A', 'R', 'R', 'O', 'W', 'R', 'I', 'G', 'H', 'T']);
    assert("RIGHT"@ =~= seq!['R', 'I', 'G', 'H', 'T']);
    assert("ARROWUP"@ =~= seq!['A', 'R', 'R', 'O', 'W', 'U', 'P']);
    assert("UP"@ =~= seq!['U', 'P']);
    assert("NUMLOCK"@ =~= seq!['N', 'U', 'M', 'L', 'O', 'C', 'K']);
    assert("NUMPAD0"@ =~= seq!['N', 'U', 'M', 'P', 'A', 'D', '0']);
    assert("NUM0"@ =~= seq!['N', 'U', 'M', '0']);
    assert("NUMPAD1"@ =~= seq!['N', 'U', 'M', 'P', 'A', 'D', '1']);
    assert("NUM1"@ =~= seq!['N', 'U', 'M', '1']);
    assert("NUMPAD2"@ =~= seq!['N', 'U', 'M', 'P', 'A', 'D', '2']);
    assert("NUM2"@ =~= seq!['N', 'U', 'M', '2']);
    assert("NUMPAD3"@ =~= seq!['N', 'U', 'M', 'P', 'A', 'D', '3']);
    assert("NUM3"@ =~= seq!['N', 'U', 'M', '3']);
    assert("NUMPAD4"@ =~= seq!['N', 'U', 'M', 'P', 'A', 'D', '4']);
    assert("NUM4"@ =~= seq!['N', 'U', 'M', '4']);
    assert("NUMPAD5"@ =~= seq!['N', 'U', 'M', 'P', 'A', 'D', '5']);
    assert("NUM5"@ =~= seq!['N', 'U', 'M', '5']);
    assert("NUMPAD6"@ =~= seq!['N', 'U', 'M', 'P', 'A', 'D', '6']);
    assert("NUM6"@ =~= seq!['N', 'U', 'M', '6']);
    assert("NUMPAD7"@ =~= seq!['N', 'U', 'M', 'P', 'A', 'D', '7']);
    assert("NUM7"@ =~= seq!['N', 'U', 'M', '7']);
    assert("NUMPAD8"@ =~= seq!['N', 'U', 'M', 'P', 'A', 'D', '8']);
    assert("NUM8"@ =~= seq!['N', 'U', 'M', '8']);
    assert("NUMPAD9"@ =~= seq!['N', 'U', 'M', 'P', 'A', 'D', '9']);
    assert("NUM9"@ =~= seq!['N', 'U', 'M', '9']);
    assert("NUMPADADD"@ =~= seq!['N', 'U', 'M', 'P', 'A', 'D', 'A', 'D', 'D']);
    assert("NUMADD"@ =~= seq!['N', 'U', 'M', 'A', 'D', 'D']);
    assert("NUMPADPLUS"@ =~= seq!['N', 'U', 'M', 'P', 'A', 'D', 'P', 'L', 'U', 'S']);
    assert("NUMPLUS"@ =~= seq!['N', 'U', 'M', 'P', 'L', 'U', 'S']);
    assert("NUMPADDECIMAL"@ =~= seq!['N', 'U', 'M', 'P', 'A', 'D', 'D', 'E', 'C', 'I', 'M', 'A', 'L']);
    assert("NUMDECIMAL"@ =~= seq!['N', 'U', 'M', 'D', 'E', 'C', 'I', 'M', 'A', 'L']);
    assert("NUMPADDIVIDE"@ =~= seq!['N', 'U', 'M', 'P', 'A', 'D', 'D', 'I', 'V', 'I', 'D', 'E']);
    assert("NUMDIVIDE"@ =~= seq!['N', 'U', 'M', 'D', 'I', 'V', 'I', 'D', 'E']);
    assert("NUMPADENTER"@ =~= seq!['N', 'U', 'M', 'P', 'A', 'D', 'E', 'N', 'T', 'E', 'R']);
    assert("NUMENTER"@ =~= seq!['N', 'U', 'M', 'E', 'N', 'T', 'E', 'R']);
    assert("NUMPADEQUAL"@ =~= seq!['N', 'U', 'M', 'P', 'A', 'D', 'E', 'Q', 'U', 'A', 'L']);
    assert("NUMEQUAL"@ =~= seq!['N', 'U', 'M', 'E', 'Q', 'U', 'A', 'L']);
    assert("NUMPADMULTIPLY"@ =~= seq!['N', 'U', 'M', 'P', 'A', 'D', 'M', 'U', 'L', 'T', 'I', 'P', 'L', 'Y']);
    assert("NUMMULTIPLY"@ =~= seq!['N', 'U', 'M', 'M', 'U', 'L', 'T', 'I', 'P', 'L', 'Y']);
    assert("NUMPADSUBTRACT"@ =~= seq!['N', 'U', 'M', 'P', 'A', 'D', 'S', 'U', 'B', 'T', 'R', 'A', 'C', 'T']);
    assert("NUMSUBTRACT"@ =~= seq!['N', 'U', 'M', 'S', 'U', 'B', 'T', 'R', 'A', 'C', 'T']);
    assert("ESCAPE"@ =~= seq!['E', 'S', 'C', 'A', 'P', 'E']);
    assert("ESC"@ =~= seq!['E', 'S', 'C']);
    assert("F1"@ =~= seq!['F', '1']);
    assert("F2"@ =~= seq!['F', '2']);
    assert("F3"@ =~= seq!['F', '3']);
    assert("F4"@ =~= seq!['F', '4']);
    assert("F5"@ =~= seq!['F', '5']);
    assert("F6"@ =~= seq!['F', '6']);
    assert("F7"@ =~= seq!['F', '7']);
    assert("F8"@ =~= seq!['F', '8']);
    assert("F9"@ =~= seq!['F', '9']);
    assert("F10"@ =~= seq!['F', '1', '0']);
    assert("F11"@ =~= seq!['F', '1', '1']);
    assert("F12"@ =~= seq!['F', '1', '2']);
    assert("AUDIOVOLUMEDOWN"@ =~= seq!['A', 'U', 'D', 'I', 'O', 'V', 'O', 'L', 'U', 'M', 'E', 'D', 'O', 'W', 'N']);
    assert("VOLUMEDOWN"@ =~= seq!['V', 'O', 'L', 'U', 'M', 'E', 'D', 'O', 'W', 'N']);
    assert("AUDIOVOLUMEUP"@ =~= seq!['A', 'U', 'D', 'I', 'O', 'V', 'O', 'L', 'U', 'M', 'E', 'U', 'P']);
    assert("VOLUMEUP"@ =~= seq!['V', 'O', 'L', 'U', 'M', 'E', 'U', 'P']);
    assert("AUDIOVOLUMEMUTE"@ =~= seq!['A', 'U', 'D', 'I', 'O', 'V', 'O', 'L', 'U', 'M', 'E', 'M', 'U', 'T', 'E']);
    assert("VOLUMEMUTE"@ =~= seq!['V', 'O', 'L', 'U', 'M', 'E', 'M', 'U', 'T', 'E']);
    assert("MEDIAPLAY"@ =~= seq!['M', 'E', 'D', 'I', 'A', 'P', 'L', 'A', 'Y']);
    assert("OPTION"@ =~= seq!['O', 'P', 'T', 'I', 'O', 'N']);
    assert("ALT"@ =~= seq!['A', 'L', 'T']);
    assert("CONTROL"@ =~= seq!['C', 'O', 'N', 'T', 'R', 'O', 'L']);
    assert("CTRL"@ =~= seq!['C', 'T', 'R', 'L']);
    assert("COMMAND"@ =~= seq!['C', 'O', 'M', 'M', 'A', 'N', 'D']);
    assert("CMD"@ =~= seq!['C', 'M', 'D']);
    assert("SUPER"@ =~= seq!['S', 'U', 'P', 'E', 'R']);
    assert("SHIFT"@ =~= seq!['S', 'H', 'I', 'F', 'T']);
    assert("COMMANDORCONTROL"@ =~= seq!['C', 'O', 'M', 'M', 'A', 'N', 'D', 'O', 'R', 'C', 'O', 'N', 'T', 'R', 'O', 'L']);
    assert("COMMANDORCTRL"@ =~= seq!['C', 'O', 'M', 'M', 'A', 'N', 'D', 'O', 'R', 'C', 'T', 'R', 'L']);
    assert("CMDORCTRL"@ =~= seq!['C', 'M', 'D', 'O', 'R', 'C', 'T', 'R', 'L']);
    assert("CMDORCONTROL"@ =~= seq!['C', 'M', 'D', 'O', 'R', 'C', 'O', 'N', 'T', 'R', 'O', 'L']);
    assert("META"@ =~= seq!['M', 'E', 'T', 'A']);
    assert(spec_upper(spec_key_name(KeyCode::NumpadEqual)) =~= "NUMPADEQUAL"@);
    assert(spec_upper(spec_key_name(KeyCode::NumpadMultiply)) =~= "NUMPADMULTIPLY"@);
    assert(spec_upper(spec_key_name(KeyCode::NumpadSubtract)) =~= "NUMPADSUBTRACT"@);
    assert(spec_upper(spec_key_name(KeyCode::Escape)) =~= "ESCAPE"@);
    assert(spec_upper(spec_key_name(KeyCode::F1)) =~= "F1"@);
    assert(spec_upper(spec_key_name(KeyCode::F2)) =~= "F2"@);
    assert(spec_upper(spec_key_name(KeyCode::F3)) =~= "F3"@);
    assert(spec_upper(spec_key_name(KeyCode::F4)) =~= "F4"@);
    assert(spec_upper(spec_key_name(KeyCode::F5)) =~= "F5"@);
    assert(spec_upper(spec_key_name(KeyCode::F6)) =~= "F6"@);
    assert(spec_upper(spec_key_name(KeyCode::F7)) =~= "F7"@);
    assert(spec_upper(spec_key_name(KeyCode::F8)) =~= "F8"@);
    assert(spec_upper(spec_key_name(KeyCode::F9)) =~= "F9"@);
    assert(spec_upper(spec_key_name(KeyCode::F10)) =~= "F10"@);
    assert(spec_upper(spec_key_name(KeyCode::F11)) =~= "F11"@);
    assert(spec_upper(spec_key_name(KeyCode::F12)) =~= "F12"@);
    assert(spec_upper(spec_key_name(KeyCode::AudioVolumeDown)) =~= "AUDIOVOLUMEDOWN"@);
    assert(spec_upper(spec_key_name(KeyCode::AudioVolumeUp)) =~= "AUDIOVOLUMEUP"@);
    assert(spec_upper(spec_key_name(KeyCode::AudioVolumeMute)) =~= "AUDIOVOLUMEMUTE"@);
    assert(spec_upper(spec_key_name(KeyCode::MediaPlay)) =~= "MEDIAPLAY"@);
}

spec fn key_group_f(k: KeyCode) -> bool {
    match k {
        KeyCode::MediaPause | KeyCode::MediaPlayPause | KeyCode::MediaStop | KeyCode::MediaTrackNext | KeyCode::MediaTrackPrevious | KeyCode::F13 | KeyCode::F14 | KeyCode::F15 | KeyCode::F16 | KeyCode::F17 | KeyCode::F18 | KeyCode::F19 | KeyCode::F20 | KeyCode::F21 | KeyCode::F22 | KeyCode::F23 | KeyCode::F24 => true,
        _ => false,
    }
}

#[verifier::rlimit(100)]
proof fn lemma_key_token_f(k: KeyCode)
    requires
        key_group_f(k),
    ensures
        key_token_facts(k),
{
    reveal_strlit("BACKQUOTE");
    reveal_strlit("`");
    reveal_strlit("BACKSLASH");
    reveal_strlit("\\");
    reveal_strlit("BRACKETLEFT");
    reveal_strlit("[");
    reveal_strlit("BRACKETRIGHT");
    reveal_strlit("]");
    reveal_strlit("PAUSE");
    reveal_strlit("PAUSEBREAK");
    reveal_strlit("COMMA");
    reveal_strlit(",");
    reveal_strlit("DIGIT0");
    reveal_strlit("0");
    reveal_strlit("DIGIT1");
    reveal_strlit("1");
    reveal_strlit("DIGIT2");
    reveal_strlit("2");
    reveal_strlit("DIGIT3");
    reveal_strlit("3");
    reveal_strlit("DIGIT4");
    reveal_strlit("4");
    reveal_strlit("DIGIT5");
    reveal_strlit("5");
    reveal_strlit("DIGIT6");
    reveal_strlit("6");
    reveal_strlit("DIGIT7");
    reveal_strlit("7");
    reveal_strlit("DIGIT8");
    reveal_strlit("8");
    reveal_strlit("DIGIT9");
    reveal_strlit("9");
    reveal_strlit("EQUAL");
    reveal_strlit("=");
    reveal_strlit("KEYA");
    reveal_strlit("A");
    reveal_strlit("KEYB");
    reveal_strlit("B");
    reveal_strlit("KEYC");
    reveal_strlit("C");
    reveal_strlit("KEYD");
    reveal_strlit("D");
    reveal_strlit("KEYE");
    reveal_strlit("E");
    reveal_strlit("KEYF");
    reveal_strlit("F");
    reveal_strlit("KEYG");
    reveal_strlit("G");
    reveal_strlit("KEYH");
    reveal_strlit("H");
    reveal_strlit("KEYI");
    reveal_strlit("I");
    reveal_strlit("KEYJ");
    reveal_strlit("J");
    reveal_strlit("KEYK");
    reveal_strlit("K");
    reveal_strlit("KEYL");
    reveal_strlit("L");
    reveal_strlit("KEYM");
    reveal_strlit("M");
    reveal_strlit("KEYN");
    reveal_strlit("N");
    reveal_strlit("KEYO");
    reveal_strlit("O");
    reveal_strlit("KEYP");
    reveal_strlit("P");
    reveal_strlit("KEYQ");
    reveal_strlit("Q");
    reveal_strlit("KEYR");
    reveal_strlit("R");
    reveal_strlit("KEYS");
    reveal_strlit("S");
    reveal_strlit("KEYT");
    reveal_strlit("T");
    reveal_strlit("KEYU");
    reveal_strlit("U");
    reveal_strlit("KEYV");
    reveal_strlit("V");
    reveal_strlit("KEYW");
    reveal_strlit("W");
    reveal_strlit("KEYX");
    reveal_strlit("X");
    reveal_strlit("KEYY");
    reveal_strlit("Y");
    reveal_strlit("KEYZ");
    reveal_strlit("Z");
    reveal_strlit("MINUS");
    reveal_strlit("-");
    reveal_strlit("PERIOD");
    reveal_strlit(".");
    reveal_strlit("QUOTE");
    reveal_strlit("'");
    reveal_strlit("SEMICOLON");
    reveal_strlit(";");
    reveal_strlit("SLASH");
    reveal_strlit("/");
    reveal_strlit("BACKSPACE");
    reveal_strlit("CAPSLOCK");
    reveal_strlit("ENTER");
    reveal_strlit("SPACE");
    reveal_strlit("TAB");
    reveal_strlit("DELETE");
    reveal_strlit("END");
    reveal_strlit("HOME");
    reveal_strlit("INSERT");
    reveal_strlit("PAGEDOWN");
    reveal_strlit("PAGEUP");
    reveal_strlit("PRINTSCREEN");
    reveal_strlit("SCROLLLOCK");
    reveal_strlit("ARROWDOWN");
    reveal_strlit("DOWN");
    reveal_strlit("ARROWLEFT");
    reveal_strlit("LEFT");
    reveal_strlit("ARROWRIGHT");
    reveal_strlit("RIGHT");
    reveal_strlit("ARROWUP");
    reveal_strlit("UP");
    reveal_strlit("NUMLOCK");
    reveal_strlit("NUMPAD0");
    reveal_strlit("NUM0");
    reveal_strlit("NUMPAD1");
    reveal_strlit("NUM1");
    reveal_strlit("NUMPAD2");
    reveal_strlit("NUM2");
    reveal_strlit("NUMPAD3");
    reveal_strlit("NUM3");
    reveal_strlit("NUMPAD4");
    reveal_strlit("NUM4");
    reveal_strlit("NUMPAD5");
    reveal_strlit("NUM5");
    reveal_strlit("NUMPAD6");
    reveal_strlit("NUM6");
    reveal_strlit("NUMPAD7");
    reveal_strlit("NUM7");
    reveal_strlit("NUMPAD8");
    reveal_strlit("NUM8");
    reveal_strlit("NUMPAD9");
    reveal_strlit("NUM9");
    reveal_strlit("NUMPADADD");
    reveal_strlit("NUMADD");
    reveal_strlit("NUMPADPLUS");
    reveal_strlit("NUMPLUS");
    reveal_strlit("NUMPADDECIMAL");
    reveal_strlit("NUMDECIMAL");
    reveal_strlit("NUMPADDIVIDE");
    reveal_strlit("NUMDIVIDE");
    reveal_strlit("NUMPADENTER");
    reveal_strlit("NUMENTER");
    reveal_strlit("NUMPADEQUAL");
    reveal_strlit("NUMEQUAL");
    reveal_strlit("NUMPADMULTIPLY");
    reveal_strlit("NUMMULTIPLY");
    reveal_strlit("NUMPADSUBTRACT");
    reveal_strlit("NUMSUBTRACT");
    reveal_strlit("ESCAPE");
    reveal_strlit("ESC");
    reveal_strlit("F1");
    reveal_strlit("F2");
    reveal_strlit("F3");
    reveal_strlit("F4");
    reveal_strlit("F5");
    reveal_strlit("F6");
    reveal_strlit("F7");
    reveal_strlit("F8");
    reveal_strlit("F9");
    reveal_strlit("F10");
    reveal_strlit("F11");
    reveal_strlit("F12");
    reveal_strlit("AUDIOVOLUMEDOWN");
    reveal_strlit("VOLUMEDOWN");
    reveal_strlit("AUDIOVOLUMEUP");
    reveal_strlit("VOLUMEUP");
    reveal_strlit("AUDIOVOLUMEMUTE");
    reveal_strlit("VOLUMEMUTE");
    reveal_strlit("MEDIAPLAY");
    reveal_strlit("MEDIAPAUSE");
    reveal_strlit("MEDIAPLAYPAUSE");
    reveal_strlit("MEDIASTOP");
    reveal_strlit("MEDIATRACKNEXT");
    reveal_strlit("MEDIATRACKPREV");
    reveal_strlit("MEDIATRACKPREVIOUS");
    reveal_strlit("F13");
    reveal_strlit("F14");
    reveal_strlit("F15");
    reveal_strlit("F16");
    reveal_strlit("F17");
    reveal_strlit("F18");
    reveal_strlit("F19");
    reveal_strlit("F20");
    reveal_strlit("F21");
    reveal_strlit("F22");
    reveal_strlit("F23");
    reveal_strlit("F24");
    reveal_strlit("mediapause");
    reveal_strlit("mediaplaypause");
    reveal_strlit("mediastop");
    reveal_strlit("mediatracknext");
    reveal_strlit("mediatrackprevious");
    reveal_strlit("f13");
    reveal_strlit("f14");
    reveal_strlit("f15");
    reveal_strlit("f16");
    reveal_strlit("f17");
    reveal_strlit("f18");
    reveal_strlit("f19");
    reveal_strlit("f20");
    reveal_strlit("f21");
    reveal_strlit("f22");
    reveal_strlit("f23");
    reveal_strlit("f24");
    reveal_strlit("OPTION");
    reveal_strlit("ALT");
    reveal_strlit("CONTROL");
    reveal_strlit("CTRL");
    reveal_strlit("COMMAND");
    reveal_strlit("CMD");
    reveal_strlit("SUPER");
    reveal_strlit("SHIFT");
    reveal_strlit("COMMANDORCONTROL");
    reveal_strlit("COMMANDORCTRL");
    reveal_strlit("CMDORCTRL");
    reveal_strlit("CMDORCONTROL");
    reveal_strlit("META");
    assert("BACKQUOTE"@ =~= seq!['B', 'A', 'C', 'K', 'Q', 'U', 'O', 'T', 'E']);
    assert("`"@ =~= seq!['`']);
    assert("BACKSLASH"@ =~= seq!['B', 'A', 'C', 'K', 'S', 'L', 'A', 'S', 'H']);
    assert("\\"@ =~= seq!['\\']);
    assert("BRACKETLEFT"@ =~= seq!['B', 'R', 'A', 'C', 'K', 'E', 'T', 'L', 'E', 'F', 'T']);
    assert("["@ =~= seq!['[']);
    assert("BRACKETRIGHT"@ =~= seq!['B', 'R', 'A', 'C', 'K', 'E', 'T', 'R', 'I', 'G', 'H', 'T']);
    assert("]"@ =~= seq![']']);
    assert("PAUSE"@ =~= seq!['P', 'A', 'U', 'S', 'E']);
    assert("PAUSEBREAK"@ =~= seq!['P', 'A', 'U', 'S', 'E', 'B', 'R', 'E', 'A', 'K']);
    assert("COMMA"@ =~= seq!['C', 'O', 'M', 'M', 'A']);
    assert(","@ =~= seq![',']);
    assert("DIGIT0"@ =~= seq!['D', 'I', 'G', 'I', 'T', '0']);
    assert("0"@ =~= seq!['0']);
    assert("DIGIT1"@ =~= seq!['D', 'I', 'G', 'I', 'T', '1']);
    assert("1"@ =~= seq!['1']);
    assert("DIGIT2"@ =~= seq!['D', 'I', 'G', 'I', 'T', '2']);
    assert("2"@ =~= seq!['2']);
    assert("DIGIT3"@ =~= seq!['D', 'I', 'G', 'I', 'T', '3']);
    assert("3"@ =~= seq!['3']);
    assert("DIGIT4"@ =~= seq!['D', 'I', 'G', 'I', 'T', '4']);
    assert("4"@ =~= seq!['4']);
    assert("DIGIT5"@ =~= seq!['D', 'I', 'G', 'I', 'T', '5']);
    assert("5"@ =~= seq!['5']);
    assert("DIGIT6"@ =~= seq!['D', 'I', 'G', 'I', 'T', '6']);
    assert("6"@ =~= seq!['6']);
    assert("DIGIT7"@ =~= seq!['D', 'I', 'G', 'I', 'T', '7']);
    assert("7"@ =~= seq!['7']);
    assert("DIGIT8"@ =~= seq!['D', 'I', 'G', 'I', 'T', '8']);
    assert("8"@ =~= seq!['8']);
    assert("DIGIT9"@ =~= seq!['D', 'I', 'G', 'I', 'T', '9']);
    assert("9"@ =~= seq!['9']);
    assert("EQUAL"@ =~= seq!['E', 'Q', 'U', 'A', 'L']);
    assert("="@ =~= seq!['=']);
    assert("KEYA"@ =~= seq!['K', 'E', 'Y', 'A']);
    assert("A"@ =~= seq!['A']);
    assert("KEYB"@ =~= seq!['K', 'E', 'Y', 'B']);
    assert("B"@ =~= seq!['B']);
    assert("KEYC"@ =~= seq!['K', 'E', 'Y', 'C']);
    assert("C"@ =~= seq!['C']);
    assert("KEYD"@ =~= seq!['K', 'E', 'Y', 'D']);
    assert("D"@ =~= seq!['D']);
    assert("KEYE"@ =~= seq!['K', 'E', 'Y', 'E']);
    assert("E"@ =~= seq!['E']);
    assert("KEYF"@ =~= seq!['K', 'E', 'Y', 'F']);
    assert("F"@ =~= seq!['F']);
    assert("KEYG"@ =~= seq!['K', 'E', 'Y', 'G']);
    assert("G"@ =~= seq!['G']);
    assert("KEYH"@ =~= seq!['K', 'E', 'Y', 'H']);
    assert("H"@ =~= seq!['H']);
    assert("KEYI"@ =~= seq!['K', 'E', 'Y', 'I']);
    assert("I"@ =~= seq!['I']);
    assert("KEYJ"@ =~= seq!['K', 'E', 'Y', 'J']);
    assert("J"@ =~= seq!['J']);
    assert("KEYK"@ =~= seq!['K', 'E', 'Y', 'K']);
    assert("K"@ =~= seq!['K']);
    assert("KEYL"@ =~= seq!['K', 'E', 'Y', 'L']);
    assert("L"@ =~= seq!['L']);
    assert("KEYM"@ =~= seq!['K', 'E', 'Y', 'M']);
    assert("M"@ =~= seq!['M']);
    assert("KEYN"@ =~= seq!['K', 'E', 'Y', 'N']);
    assert("N"@ =~= seq!['N']);
    assert("KEYO"@ =~= seq!['K', 'E', 'Y', 'O']);
    assert("O"@ =~= seq!['O']);
    assert("KEYP"@ =~= seq!['K', 'E', 'Y', 'P']);
    assert("P"@ =~= seq!['P']);
    assert("KEYQ"@ =~= seq!['K', 'E', 'Y', 'Q']);
    assert("Q"@ =~= seq!['Q']);
    assert("KEYR"@ =~= seq!['K', 'E', 'Y', 'R']);
    assert("R"@ =~= seq!['R']);
    assert("KEYS"@ =~= seq!['K', 'E', 'Y', 'S']);
    assert("S"@ =~= seq!['S']);
    assert("KEYT"@ =~= seq!['K', 'E', 'Y', 'T']);
    assert("T"@ =~= seq!['T']);
    assert("KEYU"@ =~= seq!['K', 'E', 'Y', 'U']);
    assert("U"@ =~= seq!['U']);
    assert("KEYV"@ =~= seq!['K', 'E', 'Y', 'V']);
    assert("V"@ =~= seq!['V']);
    assert("KEYW"@ =~= seq!['K', 'E', 'Y', 'W']);
    assert("W"@ =~= seq!['W']);
    assert("KEYX"@ =~= seq!['K', 'E', 'Y', 'X']);
    assert("X"@ =~= seq!['X']);
    assert("KEYY"@ =~= seq!['K', 'E', 'Y', 'Y']);
    assert("Y"@ =~= seq!['Y']);
    assert("KEYZ"@ =~= seq!['K', 'E', 'Y', 'Z']);
    assert("Z"@ =~= seq!['Z']);
    assert("MINUS"@ =~= seq!['M', 'I', 'N', 'U', 'S']);
    assert("-"@ =~= seq!['-']);
    assert("PERIOD"@ =~= seq!['P', 'E', 'R', 'I', 'O', 'D']);
    assert("."@ =~= seq!['.']);
    assert("QUOTE"@ =~= seq!['Q', 'U', 'O', 'T', 'E']);
    assert("'"@ =~= seq!['\'']);
    assert("SEMICOLON"@ =~= seq!['S', 'E', 'M', 'I', 'C', 'O', 'L', 'O', 'N']);
    assert(";"@ =~= seq![';']);
    assert("SLASH"@ =~= seq!['S', 'L', 'A', 'S', 'H']);
    assert("/"@ =~= seq!['/']);
    assert("BACKSPACE"@ =~= seq!['B', 'A', 'C', 'K', 'S', 'P', 'A', 'C', 'E']);
    assert("CAPSLOCK"@ =~= seq!['C', 'A', 'P', 'S', 'L', 'O', 'C', 'K']);
    assert("ENTER"@ =~= seq!['E', 'N', 'T', 'E', 'R']);
    assert("SPACE"@ =~= seq!['S', 'P', 'A', 'C', 'E']);
    assert("TAB"@ =~= seq!['T', 'A', 'B']);
    assert("DELETE"@ =~= seq!['D', 'E', 'L', 'E', 'T', 'E']);
    assert("END"@ =~= seq!['E', 'N', 'D']);
    assert("HOME"@ =~= seq!['H', 'O', 'M', 'E']);
    assert("INSERT"@ =~= seq!['I', 'N', 'S', 'E', 'R', 'T']);
    assert("PAGEDOWN"@ =~= seq!['P', 'A', 'G', 'E', 'D', 'O', 'W', 'N']);
    assert("PAGEUP"@ =~= seq!['P', 'A', 'G', 'E', 'U', 'P']);
    assert("PRINTSCREEN"@ =~= seq!['P', 'R', 'I', 'N', 'T', 'S', 'C', 'R', 'E', 'E', 'N']);
    assert("SCROLLLOCK"@ =~= seq!['S', 'C', 'R', 'O', 'L', 'L', 'L', 'O', 'C', 'K']);
    assert("ARROWDOWN"@ =~= seq!['A', 'R', 'R', 'O', 'W', 'D', 'O', 'W', 'N']);
    assert("DOWN"@ =~= seq!['D', 'O', 'W', 'N']);
    assert("ARROWLEFT"@ =~= seq!['A', 'R', 'R', 'O', 'W', 'L', 'E', 'F', 'T']);
    assert("LEFT"@ =~= seq!['L', 'E', 'F', 'T']);
    assert("ARROWRIGHT"@ =~= seq!['A', 'R', 'R', 'O', 'W', 'R', 'I', 'G', 'H', 'T']);
    assert("RIGHT"@ =~= seq!['R', 'I', 'G', 'H', 'T']);
    assert("ARROWUP"@ =~= seq!['A', 'R', 'R', 'O', 'W', 'U', 'P']);
    assert("UP"@ =~= seq!['U', 'P']);
    assert("NUMLOCK"@ =~= seq!['N', 'U', 'M', 'L', 'O', 'C', 'K']);
    assert("NUMPAD0"@ =~= seq!['N', 'U', 'M', 'P', 'A', 'D', '0']);
    assert("NUM0"@ =~= seq!['N', 'U', 'M', '0']);
    assert("NUMPAD1"@ =~= seq!['N', 'U', 'M', 'P', 'A', 'D', '1']);
    assert("NUM1"@ =~= seq!['N', 'U', 'M', '1']);
    assert("NUMPAD2"@ =~= seq!['N', 'U', 'M', 'P', 'A', 'D', '2']);
    assert("NUM2"@ =~= seq!['N', 'U', 'M', '2']);
    assert("NUMPAD3"@ =~= seq!['N', 'U', 'M', 'P', 'A', 'D', '3']);
    assert("NUM3"@ =~= seq!['N', 'U', 'M', '3']);
    assert("NUMPAD4"@ =~= seq!['N', 'U', 'M', 'P', 'A', 'D', '4']);
    assert("NUM4"@ =~= seq!['N', 'U', 'M', '4']);
    assert("NUMPAD5"@ =~= seq!['N', 'U', 'M', 'P', 'A', 'D', '5']);
    assert("NUM5"@ =~= seq!['N', 'U', 'M', '5']);
    assert("NUMPAD6"@ =~= seq!['N', 'U', 'M', 'P', 'A', 'D', '6']);
    assert("NUM6"@ =~= seq!['N', 'U', 'M', '6']);
    assert("NUMPAD7"@ =~= seq!['N', 'U', 'M', 'P', 'A', 'D', '7']);
    assert("NUM7"@ =~= seq!['N', 'U', 'M', '7']);
    assert("NUMPAD8"@ =~= seq!['N', 'U', 'M', 'P', 'A', 'D', '8']);
    assert("NUM8"@ =~= seq!['N', 'U', 'M', '8']);
    assert("NUMPAD9"@ =~= seq!['N', 'U', 'M', 'P', 'A', 'D', '9']);
    assert("NUM9"@ =~= seq!['N', 'U', 'M', '9']);
    assert("NUMPADADD"@ =~= seq!['N', 'U', 'M', 'P', 'A', 'D', 'A', 'D', 'D']);
    assert("NUMADD"@ =~= seq!['N', 'U', 'M', 'A', 'D', 'D']);
    assert("NUMPADPLUS"@ =~= seq!['N', 'U', 'M', 'P', 'A', 'D', 'P', 'L', 'U', 'S']);
    assert("NUMPLUS"@ =~= seq!['N', 'U', 'M', 'P', 'L', 'U', 'S']);
    assert("NUMPADDECIMAL"@ =~= seq!['N', 'U', 'M', 'P', 'A', 'D', 'D', 'E', 'C', 'I', 'M', 'A', 'L']);
    assert("NUMDECIMAL"@ =~= seq!['N', 'U', 'M', 'D', 'E', 'C', 'I', 'M', 'A', 'L']);
    assert("NUMPADDIVIDE"@ =~= seq!['N', 'U', 'M', 'P', 'A', 'D', 'D', 'I', 'V', 'I', 'D', 'E']);
    assert("NUMDIVIDE"@ =~= seq!['N', 'U', 'M', 'D', 'I', 'V', 'I', 'D', 'E']);
    assert("NUMPADENTER"@ =~= seq!['N', 'U', 'M', 'P', 'A', 'D', 'E', 'N', 'T', 'E', 'R']);
    assert("NUMENTER"@ =~= seq!['N', 'U', 'M', 'E', 'N', 'T', 'E', 'R']);
    assert("NUMPADEQUAL"@ =~= seq!['N', 'U', 'M', 'P', 'A', 'D', 'E', 'Q', 'U', 'A', 'L']);
    assert("NUMEQUAL"@ =~= seq!['N', 'U', 'M', 'E', 'Q', 'U', 'A', 'L']);
    assert("NUMPADMULTIPLY"@ =~= seq!['N', 'U', 'M', 'P', 'A', 'D', 'M', 'U', 'L', 'T', 'I', 'P', 'L', 'Y']);
    assert("NUMMULTIPLY"@ =~= seq!['N', 'U', 'M', 'M', 'U', 'L', 'T', 'I', 'P', 'L', 'Y']);
    assert("NUMPADSUBTRACT"@ =~= seq!['N', 'U', 'M', 'P', 'A', 'D', 'S', 'U', 'B', 'T', 'R', 'A', 'C', 'T']);
    assert("NUMSUBTRACT"@ =~= seq!['N', 'U', 'M', 'S', 'U', 'B', 'T', 'R', 'A', 'C', 'T']);
    assert("ESCAPE"@ =~= seq!['E', 'S', 'C', 'A', 'P', 'E']);
    assert("ESC"@ =~= seq!['E', 'S', 'C']);
    assert("F1"@ =~= seq!['F', '1']);
    assert("F2"@ =~= seq!['F', '2']);
    assert("F3"@ =~= seq!['F', '3']);
    assert("F4"@ =~= seq!['F', '4']);
    assert("F5"@ =~= seq!['F', '5']);
    assert("F6"@ =~= seq!['F', '6']);
    assert("F7"@ =~= seq!['F', '7']);
    assert("F8"@ =~= seq!['F', '8']);
    assert("F9"@ =~= seq!['F', '9']);
    assert("F10"@ =~= seq!['F', '1', '0']);
    assert("F11"@ =~= seq!['F', '1', '1']);
    assert("F12"@ =~= seq!['F', '1', '2']);
    assert("AUDIOVOLUMEDOWN"@ =~= seq!['A', 'U', 'D', 'I', 'O', 'V', 'O', 'L', 'U', 'M', 'E', 'D', 'O', 'W', 'N']);
    assert("VOLUMEDOWN"@ =~= seq!['V', 'O', 'L', 'U', 'M', 'E', 'D', 'O', 'W', 'N']);
    assert("AUDIOVOLUMEUP"@ =~= seq!['A', 'U', 'D', 'I', 'O', 'V', 'O', 'L', 'U', 'M', 'E', 'U', 'P']);
    assert("VOLUMEUP"@ =~= seq!['V', 'O', 'L', 'U', 'M', 'E', 'U', 'P']);
    assert("AUDIOVOLUMEMUTE"@ =~= seq!['A', 'U', 'D', 'I', 'O', 'V', 'O', 'L', 'U', 'M', 'E', 'M', 'U', 'T', 'E']);
    assert("VOLUMEMUTE"@ =~= seq!['V', 'O', 'L', 'U', 'M', 'E', 'M', 'U', 'T', 'E']);
    assert("MEDIAPLAY"@ =~= seq!['M', 'E', 'D', 'I', 'A', 'P', 'L', 'A', 'Y']);
    assert("MEDIAPAUSE"@ =~= seq!['M', 'E', 'D', 'I', 'A', 'P', 'A', 'U', 'S', 'E']);
    assert("MEDIAPLAYPAUSE"@ =~= seq!['M', 'E', 'D', 'I', 'A', 'P', 'L', 'A', 'Y', 'P', 'A', 'U', 'S', 'E']);
    assert("MEDIASTOP"@ =~= seq!['M', 'E', 'D', 'I', 'A', 'S', 'T', 'O', 'P']);
    assert("MEDIATRACKNEXT"@ =~= seq!['M', 'E', 'D', 'I', 'A', 'T', 'R', 'A', 'C', 'K', 'N', 'E', 'X', 'T']);
    assert("MEDIATRACKPREV"@ =~= seq!['M', 'E', 'D', 'I', 'A', 'T', 'R', 'A', 'C', 'K', 'P', 'R', 'E', 'V']);
    assert("MEDIATRACKPREVIOUS"@ =~= seq!['M', 'E', 'D', 'I', 'A', 'T', 'R', 'A', 'C', 'K', 'P', 'R', 'E', 'V', 'I', 'O', 'U', 'S']);
    assert("F13"@ =~= seq!['F', '1', '3']);
    assert("F14"@ =~= seq!['F', '1', '4']);
    assert("F15"@ =~= seq!['F', '1', '5']);
    assert("F16"@ =~= seq!['F', '1', '6']);
    assert("F17"@ =~= seq!['F', '1', '7']);
    assert("F18"@ =~= seq!['F', '1', '8']);
    assert("F19"@ =~= seq!['F', '1', '9']);
    assert("F20"@ =~= seq!['F', '2', '0']);
    assert("F21"@ =~= seq!['F', '2', '1']);
    assert("F22"@ =~= seq!['F', '2', '2']);
    assert("F23"@ =~= seq!['F', '2', '3']);
    assert("F24"@ =~= seq!['F', '2', '4']);
    assert("OPTION"@ =~= seq!['O', 'P', 'T', 'I', 'O', 'N']);
    assert("ALT"@ =~= seq!['A', 'L', 'T']);
    assert("CONTROL"@ =~= seq!['C', 'O', 'N', 'T', 'R', 'O', 'L']);
    assert("CTRL"@ =~= seq!['C', 'T', 'R', 'L']);
    assert("COMMAND"@ =~= seq!['C', 'O', 'M', 'M', 'A', 'N', 'D']);
    assert("CMD"@ =~= seq!['C', 'M', 'D']);
    assert("SUPER"@ =~= seq!['S', 'U', 'P', 'E', 'R']);
    assert("SHIFT"@ =~= seq!['S', 'H', 'I', 'F', 'T']);
    assert("COMMANDORCONTROL"@ =~= seq!['C', 'O', 'M', 'M', 'A', 'N', 'D', 'O', 'R', 'C', 'O', 'N', 'T', 'R', 'O', 'L']);
    assert("COMMANDORCTRL"@ =~= seq!['C', 'O', 'M', 'M', 'A', 'N', 'D', 'O', 'R', 'C', 'T', 'R', 'L']);
    assert("CMDORCTRL"@ =~= seq!['C', 'M', 'D', 'O', 'R', 'C', 'T', 'R', 'L']);
    assert("CMDORCONTROL"@ =~= seq!['C', 'M', 'D', 'O', 'R', 'C', 'O', 'N', 'T', 'R', 'O', 'L']);
    assert("META"@ =~= seq!['M', 'E', 'T', 'A']);
    assert(spec_upper(spec_key_name(KeyCode::MediaPause)) =~= "MEDIAPAUSE"@);
    assert(spec_upper(spec_key_name(KeyCode::MediaPlayPause)) =~= "MEDIAPLAYPAUSE"@);
    assert(spec_upper(spec_key_name(KeyCode::MediaStop)) =~= "MEDIASTOP"@);
    assert(spec_upper(spec_key_name(KeyCode::MediaTrackNext)) =~= "MEDIATRACKNEXT"@);
    assert(spec_upper(spec_key_name(KeyCode::MediaTrackPrevious)) =~= "MEDIATRACKPREVIOUS"@);
    assert(spec_upper(spec_key_name(KeyCode::F13)) =~= "F13"@);
    assert(spec_upper(spec_key_name(KeyCode::F14)) =~= "F14"@);
    assert(spec_upper(spec_key_name(KeyCode::F15)) =~= "F15"@);
    assert(spec_upper(spec_key_name(KeyCode::F16)) =~= "F16"@);
    assert(spec_upper(spec_key_name(KeyCode::F17)) =~= "F17"@);
    assert(spec_upper(spec_key_name(KeyCode::F18)) =~= "F18"@);
    assert(spec_upper(spec_key_name(KeyCode::F19)) =~= "F19"@);
    assert(spec_upper(spec_key_name(KeyCode::F20)) =~= "F20"@);
    assert(spec_upper(spec_key_name(KeyCode::F21)) =~= "F21"@);
    assert(spec_upper(spec_key_name(KeyCode::F22)) =~= "F22"@);
    assert(spec_upper(spec_key_name(KeyCode::F23)) =~= "F23"@);
    assert(spec_upper(spec_key_name(KeyCode::F24)) =~= "F24"@);
}

spec fn key_group_held(k: KeyCode) -> bool {
    spec_is_modifier_key(k)
}

#[verifier::rlimit(100)]
proof fn lemma_key_token_held(k: KeyCode)
    requires
        key_group_held(k),
    ensures
        key_token_facts(k),
{
    reveal_strlit("shiftleft");
    reveal_strlit("SHIFTLEFT");
    reveal_strlit("shiftright");
    reveal_strlit("SHIFTRIGHT");
    reveal_strlit("controlleft");
    reveal_strlit("CONTROLLEFT");
    reveal_strlit("controlright");
    reveal_strlit("CONTROLRIGHT");
    reveal_strlit("altleft");
    reveal_strlit("ALTLEFT");
    reveal_strlit("altright");
    reveal_strlit("ALTRIGHT");
    reveal_strlit("metaleft");
    reveal_strlit("METALEFT");
    reveal_strlit("metaright");
    reveal_strlit("METARIGHT");
    reveal_strlit("OPTION");
    reveal_strlit("ALT");
    reveal_strlit("CONTROL");
    reveal_strlit("CTRL");
    reveal_strlit("COMMAND");
    reveal_strlit("CMD");
    reveal_strlit("SUPER");
    reveal_strlit("SHIFT");
    reveal_strlit("COMMANDORCONTROL");
    reveal_strlit("COMMANDORCTRL");
    reveal_strlit("CMDORCTRL");
    reveal_strlit("CMDORCONTROL");
    reveal_strlit("META");
    assert("OPTION"@ =~= seq!['O', 'P', 'T', 'I', 'O', 'N']);
    assert("ALT"@ =~= seq!['A', 'L', 'T']);
    assert("CONTROL"@ =~= seq!['C', 'O', 'N', 'T', 'R', 'O', 'L']);
    assert("CTRL"@ =~= seq!['C', 'T', 'R', 'L']);
    assert("COMMAND"@ =~= seq!['C', 'O', 'M', 'M', 'A', 'N', 'D']);
    assert("CMD"@ =~= seq!['C', 'M', 'D']);
    assert("SUPER"@ =~= seq!['S', 'U', 'P', 'E', 'R']);
    assert("SHIFT"@ =~= seq!['S', 'H', 'I', 'F', 'T']);
    assert("COMMANDORCONTROL"@ =~= seq!['C', 'O', 'M', 'M', 'A', 'N', 'D', 'O', 'R', 'C', 'O', 'N', 'T', 'R', 'O', 'L']);
    assert("COMMANDORCTRL"@ =~= seq!['C', 'O', 'M', 'M', 'A', 'N', 'D', 'O', 'R', 'C', 'T', 'R', 'L']);
    assert("CMDORCTRL"@ =~= seq!['C', 'M', 'D', 'O', 'R', 'C', 'T', 'R', 'L']);
    assert("CMDORCONTROL"@ =~= seq!['C', 'M', 'D', 'O', 'R', 'C', 'O', 'N', 'T', 'R', 'O', 'L']);
    assert("META"@ =~= seq!['M', 'E', 'T', 'A']);
    assert(spec_upper(spec_key_name(KeyCode::ShiftLeft)) =~= "SHIFTLEFT"@);
    assert(spec_upper(spec_key_name(KeyCode::ShiftRight)) =~= "SHIFTRIGHT"@);
    assert(spec_upper(spec_key_name(KeyCode::ControlLeft)) =~= "CONTROLLEFT"@);
    assert(spec_upper(spec_key_name(KeyCode::ControlRight)) =~= "CONTROLRIGHT"@);
    assert(spec_upper(spec_key_name(KeyCode::AltLeft)) =~= "ALTLEFT"@);
    assert(spec_upper(spec_key_name(KeyCode::AltRight)) =~= "ALTRIGHT"@);
    assert(spec_upper(spec_key_name(KeyCode::MetaLeft)) =~= "METALEFT"@);
    assert(spec_upper(spec_key_name(KeyCode::MetaRight)) =~= "METARIGHT"@);
}

/// Ground facts about every key name: it is a clean token (no `'+'`, no
/// whitespace, not empty), its upper-cased spelling is no modifier alias,
/// and for the keys the grammar can name, looking that spelling up in the
/// key table gives the key back.
pub proof fn lemma_key_token(k: KeyCode)
    ensures
        key_token_facts(k),
{
    match k {
        KeyCode::Backquote | KeyCode::Backslash | KeyCode::BracketLeft | KeyCode::BracketRight | KeyCode::Pause | KeyCode::Comma | KeyCode::Digit0 | KeyCode::Digit1 | KeyCode::Digit2 | KeyCode::Digit3 | KeyCode::Digit4 | KeyCode::Digit5 | KeyCode::Digit6 | KeyCode::Digit7 | KeyCode::Digit8 | KeyCode::Digit9 | KeyCode::Equal | KeyCode::KeyA | KeyCode::KeyB | KeyCode::KeyC => {
            lemma_key_token_a(k);
        },
        KeyCode::KeyD | KeyCode::KeyE | KeyCode::KeyF | KeyCode::KeyG | KeyCode::KeyH | KeyCode::KeyI | KeyCode::KeyJ | KeyCode::KeyK | KeyCode::KeyL | KeyCode::KeyM | KeyCode::KeyN | KeyCode::KeyO | KeyCode::KeyP | KeyCode::KeyQ | KeyCode::KeyR | KeyCode::KeyS | KeyCode::KeyT | KeyCode::KeyU | KeyCode::KeyV | KeyCode::KeyW => {
            lemma_key_token_b(k);
        },
        KeyCode::KeyX | KeyCode::KeyY | KeyCode::KeyZ | KeyCode::Minus | KeyCode::Period | KeyCode::Quote | KeyCode::Semicolon | KeyCode::Slash | KeyCode::Backspace | KeyCode::CapsLock | KeyCode::Enter | KeyCode::Space | KeyCode::Tab | KeyCode::Delete | KeyCode::End | KeyCode::Home | KeyCode::Insert | KeyCode::PageDown | KeyCode::PageUp | KeyCode::PrintScreen => {
            lemma_key_token_c(k);
        },
        KeyCode::ScrollLock | KeyCode::ArrowDown | KeyCode::ArrowLeft | KeyCode::ArrowRight | KeyCode::ArrowUp | KeyCode::NumLock | KeyCode::Numpad0 | KeyCode::Numpad1 | KeyCode::Numpad2 | KeyCode::Numpad3 | KeyCode::Numpad4 | KeyCode::Numpad5 | KeyCode::Numpad6 | KeyCode::Numpad7 | KeyCode::Numpad8 | KeyCode::Numpad9 | KeyCode::NumpadAdd | KeyCode::NumpadDecimal | KeyCode::NumpadDivide | KeyCode::NumpadEnter => {
            lemma_key_token_d(k);
        },
        KeyCode::NumpadEqual | KeyCode::NumpadMultiply | KeyCode::NumpadSubtract | KeyCode::Escape | KeyCode::F1 | KeyCode::F2 | KeyCode::F3 | KeyCode::F4 | KeyCode::F5 | KeyCode::F6 | KeyCode::F7 | KeyCode::F8 | KeyCode::F9 | KeyCode::F10 | KeyCode::F11 | KeyCode::F12 | KeyCode::AudioVolumeDown | KeyCode::AudioVolumeUp | KeyCode::AudioVolumeMute | KeyCode::MediaPlay => {
            lemma_key_token_e(k);
        },
        KeyCode::MediaPause | KeyCode::MediaPlayPause | KeyCode::MediaStop | KeyCode::MediaTrackNext | KeyCode::MediaTrackPrevious | KeyCode::F13 | KeyCode::F14 | KeyCode::F15 | KeyCode::F16 | KeyCode::F17 | KeyCode::F18 | KeyCode::F19 | KeyCode::F20 | KeyCode::F21 | KeyCode::F22 | KeyCode::F23 | KeyCode::F24 => {
            lemma_key_token_f(k);
        },
        KeyCode::ShiftLeft | KeyCode::ShiftRight | KeyCode::ControlLeft | KeyCode::ControlRight | KeyCode::AltLeft | KeyCode::AltRight | KeyCode::MetaLeft | KeyCode::MetaRight => {
            lemma_key_token_held(k);
        },
    }
}

/// The serialized modifier tokens are clean tokens, each one naming
/// exactly its flag in the alias table.
#[verifier::rlimit(100)]
proof fn lemma_mod_tokens(cs: bool)
    ensures
        plain_token("shift"@),
        spec_trim("shift"@) == "shift"@,
        "shift+"@ == "shift"@ + seq!['+'],
        spec_upper("shift"@) == "SHIFT"@,
        spec_modifier_of("SHIFT"@, cs) == Some(Modifiers { shift: true, control: false, alt: false, superkey: false, meta: false }),
        plain_token("control"@),
        spec_trim("control"@) == "control"@,
        "control+"@ == "control"@ + seq!['+'],
        spec_upper("control"@) == "CONTROL"@,
        spec_modifier_of("CONTROL"@, cs) == Some(Modifiers { shift: false, control: true, alt: false, superkey: false, meta: false }),
        plain_token("alt"@),
        spec_trim("alt"@) == "alt"@,
        "alt+"@ == "alt"@ + seq!['+'],
        spec_upper("alt"@) == "ALT"@,
        spec_modifier_of("ALT"@, cs) == Some(Modifiers { shift: false, control: false, alt: true, superkey: false, meta: false }),
        plain_token("super"@),
        spec_trim("super"@) == "super"@,
        "super+"@ == "super"@ + seq!['+'],
        spec_upper("super"@) == "SUPER"@,
        spec_modifier_of("SUPER"@, cs) == Some(Modifiers { shift: false, control: false, alt: false, superkey: true, meta: false }),
{
    reveal_strlit("ALT");
    reveal_strlit("CMD");
    reveal_strlit("CMDORCONTROL");
    reveal_strlit("CMDORCTRL");
    reveal_strlit("COMMAND");
    reveal_strlit("COMMANDORCONTROL");
    reveal_strlit("COMMANDORCTRL");
    reveal_strlit("CONTROL");
    reveal_strlit("CTRL");
    reveal_strlit("META");
    reveal_strlit("OPTION");
    reveal_strlit("SHIFT");
    reveal_strlit("SUPER");
    reveal_strlit("alt");
    reveal_strlit("alt+");
    reveal_strlit("control");
    reveal_strlit("control+");
    reveal_strlit("shift");
    reveal_strlit("shift+");
    reveal_strlit("super");
    reveal_strlit("super+");
    assert("OPTION"@ =~= seq!['O', 'P', 'T', 'I', 'O', 'N']);
    assert("ALT"@ =~= seq!['A', 'L', 'T']);
    assert("CONTROL"@ =~= seq!['C', 'O', 'N', 'T', 'R', 'O', 'L']);
    assert("CTRL"@ =~= seq!['C', 'T', 'R', 'L']);
    assert("COMMAND"@ =~= seq!['C', 'O', 'M', 'M', 'A', 'N', 'D']);
    assert("CMD"@ =~= seq!['C', 'M', 'D']);
    assert("SUPER"@ =~= seq!['S', 'U', 'P', 'E', 'R']);
    assert("SHIFT"@ =~= seq!['S', 'H', 'I', 'F', 'T']);
    assert("COMMANDORCONTROL"@ =~= seq!['C', 'O', 'M', 'M', 'A', 'N', 'D', 'O', 'R', 'C', 'O', 'N', 'T', 'R', 'O', 'L']);
    assert("COMMANDORCTRL"@ =~= seq!['C', 'O', 'M', 'M', 'A', 'N', 'D', 'O', 'R', 'C', 'T', 'R', 'L']);
    assert("CMDORCTRL"@ =~= seq!['C', 'M', 'D', 'O', 'R', 'C', 'T', 'R', 'L']);
    assert("CMDORCONTROL"@ =~= seq!['C', 'M', 'D', 'O', 'R', 'C', 'O', 'N', 'T', 'R', 'O', 'L']);
    assert("META"@ =~= seq!['M', 'E', 'T', 'A']);
    assert(spec_upper("shift"@) =~= "SHIFT"@);
    assert("shift+"@ =~= "shift"@ + seq!['+']);
    lemma_trim_plain("shift"@);
    assert(spec_upper("control"@) =~= "CONTROL"@);
    assert("control+"@ =~= "control"@ + seq!['+']);
    lemma_trim_plain("control"@);
    assert(spec_upper("alt"@) =~= "ALT"@);
    assert("alt+"@ =~= "alt"@ + seq!['+']);
    lemma_trim_plain("alt"@);
    assert(spec_upper("super"@) =~= "SUPER"@);
    assert("super+"@ =~= "super"@ + seq!['+']);
    lemma_trim_plain("super"@);
}

/// Round trip: parsing the canonical spelling of a well-formed hotkey
/// gives the hotkey back, under either platform canonicalization of the
/// `CmdOrCtrl` aliases. The physical modifier keys have no name in the
/// grammar's key table, so a hotkey whose main key is one of them has no
/// parseable spelling and stands outside this law.
#[verifier::rlimit(100)]
pub proof fn lemma_parse_format_roundtrip(h: HotKey, cmd_or_ctrl_super: bool)
    requires
        h.wf(),
        !spec_is_modifier_key(h.key),
    ensures
        spec_parse(h.spec_format(), cmd_or_ctrl_super) == Ok::<HotKey, ParseFailure>(h),
{
    reveal_with_fuel(spec_parse_tokens, 8);
    let cs = cmd_or_ctrl_super;
    let name = spec_key_name(h.key);
    let s = h.spec_format();
    lemma_key_token(h.key);
    lemma_trim_plain(name);
    lemma_split_no_plus(name);
    lemma_mod_tokens(cs);
    assert(h.mods.meta == false);
    if h.mods.shift {
        if h.mods.control {
            if h.mods.alt {
                if h.mods.superkey {
                    assert(s =~= "shift"@ + seq!['+'] + ("control"@ + seq!['+'] + ("alt"@ + seq!['+'] + ("super"@ + seq!['+'] + name))));
                    lemma_split_prefix("shift"@, "control"@ + seq!['+'] + ("alt"@ + seq!['+'] + ("super"@ + seq!['+'] + name)));
                    lemma_split_prefix("control"@, "alt"@ + seq!['+'] + ("super"@ + seq!['+'] + name));
                    lemma_split_prefix("alt"@, "super"@ + seq!['+'] + name);
                    lemma_split_prefix("super"@, name);
                    assert(spec_split_plus(s) =~~= seq!["shift"@, "control"@, "alt"@, "super"@, name]);
                    assert(spec_split_plus(s).len() == 5);
                    assert(spec_parse_tokens(s, spec_split_plus(s), 0, Modifiers::spec_empty(), None, cs) == Ok::<HotKey, ParseFailure>(HotKey::spec_new(Modifiers { shift: true, control: true, alt: true, superkey: true, meta: false }, h.key)));
                    assert(h.mods == Modifiers { shift: true, control: true, alt: true, superkey: true, meta: false });
                    assert(spec_parse(s, cs) == Ok::<HotKey, ParseFailure>(HotKey::spec_new(h.mods, h.key)));
                } else {
                    assert(s =~= "shift"@ + seq!['+'] + ("control"@ + seq!['+'] + ("alt"@ + seq!['+'] + name)));
                    lemma_split_prefix("shift"@, "control"@ + seq!['+'] + ("alt"@ + seq!['+'] + name));
                    lemma_split_prefix("control"@, "alt"@ + seq!['+'] + name);
                    lemma_split_prefix("alt"@, name);
                    assert(spec_split_plus(s) =~~= seq!["shift"@, "control"@, "alt"@, name]);
                    assert(spec_split_plus(s).len() == 4);
                    assert(spec_parse_tokens(s, spec_split_plus(s), 0, Modifiers::spec_empty(), None, cs) == Ok::<HotKey, ParseFailure>(HotKey::spec_new(Modifiers { shift: true, control: true, alt: true, superkey: false, meta: false }, h.key)));
                    assert(h.mods == Modifiers { shift: true, control: true, alt: true, superkey: false, meta: false });
                    assert(spec_parse(s, cs) == Ok::<HotKey, ParseFailure>(HotKey::spec_new(h.mods, h.key)));
                }
            } else {
                if h.mods.superkey {
                    assert(s =~= "shift"@ + seq!['+'] + ("control"@ + seq!['+'] + ("super"@ + seq!['+'] + name)));
                    lemma_split_prefix("shift"@, "control"@ + seq!['+'] + ("super"@ + seq!['+'] + name));
                    lemma_split_prefix("control"@, "super"@ + seq!['+'] + name);
                    lemma_split_prefix("super"@, name);
                    assert(spec_split_plus(s) =~~= seq!["shift"@, "control"@, "super"@, name]);
                    assert(spec_split_plus(s).len() == 4);
                    assert(spec_parse_tokens(s, spec_split_plus(s), 0, Modifiers::spec_empty(), None, cs) == Ok::<HotKey, ParseFailure>(HotKey::spec_new(Modifiers { shift: true, control: true, alt: false, superkey: true, meta: false }, h.key)));
                    assert(h.mods == Modifiers { shift: true, control: true, alt: false, superkey: true, meta: false });
                    assert(spec_parse(s, cs) == Ok::<HotKey, ParseFailure>(HotKey::spec_new(h.mods, h.key)));
                } else {
                    assert(s =~= "shift"@ + seq!['+'] + ("control"@ + seq!['+'] + name));
                    lemma_split_prefix("shift"@, "control"@ + seq!['+'] + name);
                    lemma_split_prefix("control"@, name);
                    assert(spec_split_plus(s) =~~= seq!["shift"@, "control"@, name]);
                    assert(spec_split_plus(s).len() == 3);
                    assert(spec_parse_tokens(s, spec_split_plus(s), 0, Modifiers::spec_empty(), None, cs) == Ok::<HotKey, ParseFailure>(HotKey::spec_new(Modifiers { shift: true, control: true, alt: false, superkey: false, meta: false }, h.key)));
                    assert(h.mods == Modifiers { shift: true, control: true, alt: false, superkey: false, meta: false });
                    assert(spec_parse(s, cs) == Ok::<HotKey, ParseFailure>(HotKey::spec_new(h.mods, h.key)));
                }
            }
        } else {
            if h.mods.alt {
                if h.mods.superkey {
                    assert(s =~= "shift"@ + seq!['+'] + ("alt"@ + seq!['+'] + ("super"@ + seq!['+'] + name)));
                    lemma_split_prefix("shift"@, "alt"@ + seq!['+'] + ("super"@ + seq!['+'] + name));
                    lemma_split_prefix("alt"@, "super"@ + seq!['+'] + name);
                    lemma_split_prefix("super"@, name);
                    assert(spec_split_plus(s) =~~= seq!["shift"@, "alt"@, "super"@, name]);
                    assert(spec_split_plus(s).len() == 4);
                    assert(spec_parse_tokens(s, spec_split_plus(s), 0, Modifiers::spec_empty(), None, cs) == Ok::<HotKey, ParseFailure>(HotKey::spec_new(Modifiers { shift: true, control: false, alt: true, superkey: true, meta: false }, h.key)));
                    assert(h.mods == Modifiers { shift: true, control: false, alt: true, superkey: true, meta: false });
                    assert(spec_parse(s, cs) == Ok::<HotKey, ParseFailure>(HotKey::spec_new(h.mods, h.key)));
                } else {
                    assert(s =~= "shift"@ + seq!['+'] + ("alt"@ + seq!['+'] + name));
                    lemma_split_prefix("shift"@, "alt"@ + seq!['+'] + name);
                    lemma_split_prefix("alt"@, name);
                    assert(spec_split_plus(s) =~~= seq!["shift"@, "alt"@, name]);
                    assert(spec_split_plus(s).len() == 3);
                    assert(spec_parse_tokens(s, spec_split_plus(s), 0, Modifiers::spec_empty(), None, cs) == Ok::<HotKey, ParseFailure>(HotKey::spec_new(Modifiers { shift: true, control: false, alt: true, superkey: false, meta: false }, h.key)));
                    assert(h.mods == Modifiers { shift: true, control: false, alt: true, superkey: false, meta: false });
                    assert(spec_parse(s, cs) == Ok::<HotKey, ParseFailure>(HotKey::spec_new(h.mods, h.key)));
                }
            } else {
                if h.mods.superkey {
                    assert(s =~= "shift"@ + seq!['+'] + ("super"@ + seq!['+'] + name));
                    lemma_split_prefix("shift"@, "super"@ + seq!['+'] + name);
                    lemma_split_prefix("super"@, name);
                    assert(spec_split_plus(s) =~~= seq!["shift"@, "super"@, name]);
                    assert(spec_split_plus(s).len() == 3);
                    assert(spec_parse_tokens(s, spec_split_plus(s), 0, Modifiers::spec_empty(), None, cs) == Ok::<HotKey, ParseFailure>(HotKey::spec_new(Modifiers { shift: true, control: false, alt: false, superkey: true, meta: false }, h.key)));
                    assert(h.mods == Modifiers { shift: true, control: false, alt: false, superkey: true, meta: false });
                    assert(spec_parse(s, cs) == Ok::<HotKey, ParseFailure>(HotKey::spec_new(h.mods, h.key)));
                } else {
                    assert(s =~= "shift"@ + seq!['+'] + name);
                    lemma_split_prefix("shift"@, name);
                    assert(spec_split_plus(s) =~~= seq!["shift"@, name]);
                    assert(spec_split_plus(s).len() == 2);
                    assert(spec_parse_tokens(s, spec_split_plus(s), 0, Modifiers::spec_empty(), None, cs) == Ok::<HotKey, ParseFailure>(HotKey::spec_new(Modifiers { shift: true, control: false, alt: false, superkey: false, meta: false }, h.key)));
                    assert(h.mods == Modifiers { shift: true, control: false, alt: false, superkey: false, meta: false });
                    assert(spec_parse(s, cs) == Ok::<HotKey, ParseFailure>(HotKey::spec_new(h.mods, h.key)));
                }
            }
        }
    } else {
        if h.mods.control {
            if h.mods.alt {
                if h.mods.superkey {
                    assert(s =~= "control"@ + seq!['+'] + ("alt"@ + seq!['+'] + ("super"@ + seq!['+'] + name)));
                    lemma_split_prefix("control"@, "alt"@ + seq!['+'] + ("super"@ + seq!['+'] + name));
                    lemma_split_prefix("alt"@, "super"@ + seq!['+'] + name);
                    lemma_split_prefix("super"@, name);
                    assert(spec_split_plus(s) =~~= seq!["control"@, "alt"@, "super"@, name]);
                    assert(spec_split_plus(s).len() == 4);
                    assert(spec_parse_tokens(s, spec_split_plus(s), 0, Modifiers::spec_empty(), None, cs) == Ok::<HotKey, ParseFailure>(HotKey::spec_new(Modifiers { shift: false, control: true, alt: true, superkey: true, meta: false }, h.key)));
                    assert(h.mods == Modifiers { shift: false, control: true, alt: true, superkey: true, meta: false });
                    assert(spec_parse(s, cs) == Ok::<HotKey, ParseFailure>(HotKey::spec_new(h.mods, h.key)));
                } else {
                    assert(s =~= "control"@ + seq!['+'] + ("alt"@ + seq!['+'] + name));
                    lemma_split_prefix("control"@, "alt"@ + seq!['+'] + name);
                    lemma_split_prefix("alt"@, name);
                    assert(spec_split_plus(s) =~~= seq!["control"@, "alt"@, name]);
                    assert(spec_split_plus(s).len() == 3);
                    assert(spec_parse_tokens(s, spec_split_plus(s), 0, Modifiers::spec_empty(), None, cs) == Ok::<HotKey, ParseFailure>(HotKey::spec_new(Modifiers { shift: false, control: true, alt: true, superkey: false, meta: false }, h.key)));
                    assert(h.mods == Modifiers { shift: false, control: true, alt: true, superkey: false, meta: false });
                    assert(spec_parse(s, cs) == Ok::<HotKey, ParseFailure>(HotKey::spec_new(h.mods, h.key)));
                }
            } else {
                if h.mods.superkey {
                    assert(s =~= "control"@ + seq!['+'] + ("super"@ + seq!['+'] + name));
                    lemma_split_prefix("control"@, "super"@ + seq!['+'] + name);
                    lemma_split_prefix("super"@, name);
                    assert(spec_split_plus(s) =~~= seq!["control"@, "super"@, name]);
                    assert(spec_split_plus(s).len() == 3);
                    assert(spec_parse_tokens(s, spec_split_plus(s), 0, Modifiers::spec_empty(), None, cs) == Ok::<HotKey, ParseFailure>(HotKey::spec_new(Modifiers { shift: false, control: true, alt: false, superkey: true, meta: false }, h.key)));
                    assert(h.mods == Modifiers { shift: false, control: true, alt: false, superkey: true, meta: false });
                    assert(spec_parse(s, cs) == Ok::<HotKey, ParseFailure>(HotKey::spec_new(h.mods, h.key)));
                } else {
                    assert(s =~= "control"@ + seq!['+'] + name);
                    lemma_split_prefix("control"@, name);
                    assert(spec_split_plus(s) =~~= seq!["control"@, name]);
                    assert(spec_split_plus(s).len() == 2);
                    assert(spec_parse_tokens(s, spec_split_plus(s), 0, Modifiers::spec_empty(), None, cs) == Ok::<HotKey, ParseFailure>(HotKey::spec_new(Modifiers { shift: false, control: true, alt: false, superkey: false, meta: false }, h.key)));
                    assert(h.mods == Modifiers { shift: false, control: true, alt: false, superkey: false, meta: false });
                    assert(spec_parse(s, cs) == Ok::<HotKey, ParseFailure>(HotKey::spec_new(h.mods, h.key)));
                }
            }
        } else {
            if h.mods.alt {
                if h.mods.superkey {
                    assert(s =~= "alt"@ + seq!['+'] + ("super"@ + seq!['+'] + name));
                    lemma_split_prefix("alt"@, "super"@ + seq!['+'] + name);
                    lemma_split_prefix("super"@, name);
                    assert(spec_split_plus(s) =~~= seq!["alt"@, "super"@, name]);
                    assert(spec_split_plus(s).len() == 3);
                    assert(spec_parse_tokens(s, spec_split_plus(s), 0, Modifiers::spec_empty(), None, cs) == Ok::<HotKey, ParseFailure>(HotKey::spec_new(Modifiers { shift: false, control: false, alt: true, superkey: true, meta: false }, h.key)));
                    assert(h.mods == Modifiers { shift: false, control: false, alt: true, superkey: true, meta: false });
                    assert(spec_parse(s, cs) == Ok::<HotKey, ParseFailure>(HotKey::spec_new(h.mods, h.key)));
                } else {
                    assert(s =~= "alt"@ + seq!['+'] + name);
                    lemma_split_prefix("alt"@, name);
                    assert(spec_split_plus(s) =~~= seq!["alt"@, name]);
                    assert(spec_split_plus(s).len() == 2);
                    assert(spec_parse_tokens(s, spec_split_plus(s), 0, Modifiers::spec_empty(), None, cs) == Ok::<HotKey, ParseFailure>(HotKey::spec_new(Modifiers { shift: false, control: false, alt: true, superkey: false, meta: false }, h.key)));
                    assert(h.mods == Modifiers { shift: false, control: false, alt: true, superkey: false, meta: false });
                    assert(spec_parse(s, cs) == Ok::<HotKey, ParseFailure>(HotKey::spec_new(h.mods, h.key)));
                }
            } else {
                if h.mods.superkey {
                    assert(s =~= "super"@ + seq!['+'] + name);
                    lemma_split_prefix("super"@, name);
                    assert(spec_split_plus(s) =~~= seq!["super"@, name]);
                    assert(spec_split_plus(s).len() == 2);
                    assert(spec_parse_tokens(s, spec_split_plus(s), 0, Modifiers::spec_empty(), None, cs) == Ok::<HotKey, ParseFailure>(HotKey::spec_new(Modifiers { shift: false, control: false, alt: false, superkey: true, meta: false }, h.key)));
                    assert(h.mods == Modifiers { shift: false, control: false, alt: false, superkey: true, meta: false });
                    assert(spec_parse(s, cs) == Ok::<HotKey, ParseFailure>(HotKey::spec_new(h.mods, h.key)));
                } else {
                    assert(s =~= name);
                    assert(spec_split_plus(s).len() == 1 && spec_split_plus(s)[0] == name);
                    assert(spec_parse(s, cs) == Ok::<HotKey, ParseFailure>(HotKey::spec_new(Modifiers::spec_empty(), h.key)));
                    assert(h.mods == Modifiers::spec_empty());
                }
            }
        }
    }
}

/// Match masking: only the base four modifier flags take part in
/// matching; two modifier states with the same base projection (whatever
/// their `meta` flags) give the same verdict against every hotkey.
pub proof fn lemma_matches_masks(h: HotKey, m1: Modifiers, m2: Modifiers, k: KeyCode)
    requires
        m1.spec_base() == m2.spec_base(),
    ensures
        h.spec_matches(m1, k) == h.spec_matches(m2, k),
{
}

} // verus!
