//! Key names: mapping to driver key codes, the allow-list of acceptable
//! keys, and planning of key-combination dispatch.

use vstd::prelude::*;

verus! {

use crate::config::ProtocolKind;
use crate::errors::ActionError;
use crate::text::eq_ignore_ascii_case;
use crate::text::eq_ignore_case;

/// Driver key code for a user-friendly key name, compared
/// case-insensitively; names outside the table stand for themselves.
pub open spec fn key_code(s: Seq<char>) -> Seq<char> {
    if eq_ignore_case(s, "backspace"@) {
        "\u{E003}"@
    } else if eq_ignore_case(s, "tab"@) {
        "\u{E004}"@
    } else if eq_ignore_case(s, "return"@) || eq_ignore_case(s, "enter"@) {
        "\u{E007}"@
    } else if eq_ignore_case(s, "shift"@) {
        "\u{E008}"@
    } else if eq_ignore_case(s, "control"@) || eq_ignore_case(s, "ctrl"@) {
        "\u{E009}"@
    } else if eq_ignore_case(s, "alt"@) {
        "\u{E00A}"@
    } else if eq_ignore_case(s, "escape"@) || eq_ignore_case(s, "esc"@) {
        "\u{E00C}"@
    } else if eq_ignore_case(s, "space"@) {
        "\u{E00D}"@
    } else if eq_ignore_case(s, "pageup"@) {
        "\u{E00E}"@
    } else if eq_ignore_case(s, "pagedown"@) {
        "\u{E00F}"@
    } else if eq_ignore_case(s, "end"@) {
        "\u{E010}"@
    } else if eq_ignore_case(s, "home"@) {
        "\u{E011}"@
    } else if eq_ignore_case(s, "left"@) || eq_ignore_case(s, "arrowleft"@) {
        "\u{E012}"@
    } else if eq_ignore_case(s, "up"@) || eq_ignore_case(s, "arrowup"@) {
        "\u{E013}"@
    } else if eq_ignore_case(s, "right"@) || eq_ignore_case(s, "arrowright"@) {
        "\u{E014}"@
    } else if eq_ignore_case(s, "down"@) || eq_ignore_case(s, "arrowdown"@) {
        "\u{E015}"@
    } else if eq_ignore_case(s, "insert"@) {
        "\u{E016}"@
    } else if eq_ignore_case(s, "delete"@) {
        "\u{E017}"@
    } else if eq_ignore_case(s, "f1"@) {
        "\u{E031}"@
    } else if eq_ignore_case(s, "f2"@) {
        "\u{E032}"@
    } else if eq_ignore_case(s, "f3"@) {
        "\u{E033}"@
    } else if eq_ignore_case(s, "f4"@) {
        "\u{E034}"@
    } else if eq_ignore_case(s, "f5"@) {
        "\u{E035}"@
    } else if eq_ignore_case(s, "f6"@) {
        "\u{E036}"@
    } else if eq_ignore_case(s, "f7"@) {
        "\u{E037}"@
    } else if eq_ignore_case(s, "f8"@) {
        "\u{E038}"@
    } else if eq_ignore_case(s, "f9"@) {
        "\u{E039}"@
    } else if eq_ignore_case(s, "f10"@) {
        "\u{E03A}"@
    } else if eq_ignore_case(s, "f11"@) {
        "\u{E03B}"@
    } else if eq_ignore_case(s, "f12"@) {
        "\u{E03C}"@
    } else if eq_ignore_case(s, "command"@) || eq_ignore_case(s, "meta"@) {
        "\u{E03D}"@
    } else {
        s
    }
}

/// Map a user-friendly key name to the polling driver's key code.
pub fn get_key_mapping<'a>(key: &'a str) -> (r: &'a str)
    ensures
        r@ == key_code(key@),
{
    if eq_ignore_ascii_case(key, "backspace") {
        "\u{E003}"
    } else if eq_ignore_ascii_case(key, "tab") {
        "\u{E004}"
    } else if eq_ignore_ascii_case(key, "return") || eq_ignore_ascii_case(key, "enter") {
        "\u{E007}"
    } else if eq_ignore_ascii_case(key, "shift") {
        "\u{E008}"
    } else if eq_ignore_ascii_case(key, "control") || eq_ignore_ascii_case(key, "ctrl") {
        "\u{E009}"
    } else if eq_ignore_ascii_case(key, "alt") {
        "\u{E00A}"
    } else if eq_ignore_ascii_case(key, "escape") || eq_ignore_ascii_case(key, "esc") {
        "\u{E00C}"
    } else if eq_ignore_ascii_case(key, "space") {
        "\u{E00D}"
    } else if eq_ignore_ascii_case(key, "pageup") {
        "\u{E00E}"
    } else if eq_ignore_ascii_case(key, "pagedown") {
        "\u{E00F}"
    } else if eq_ignore_ascii_case(key, "end") {
        "\u{E010}"
    } else if eq_ignore_ascii_case(key, "home") {
        "\u{E011}"
    } else if eq_ignore_ascii_case(key, "left") || eq_ignore_ascii_case(key, "arrowleft") {
        "\u{E012}"
    } else if eq_ignore_ascii_case(key, "up") || eq_ignore_ascii_case(key, "arrowup") {
        "\u{E013}"
    } else if eq_ignore_ascii_case(key, "right") || eq_ignore_ascii_case(key, "arrowright") {
        "\u{E014}"
    } else if eq_ignore_ascii_case(key, "down") || eq_ignore_ascii_case(key, "arrowdown") {
        "\u{E015}"
    } else if eq_ignore_ascii_case(key, "insert") {
        "\u{E016}"
    } else if eq_ignore_ascii_case(key, "delete") {
        "\u{E017}"
    } else if eq_ignore_ascii_case(key, "f1") {
        "\u{E031}"
    } else if eq_ignore_ascii_case(key, "f2") {
        "\u{E032}"
    } else if eq_ignore_ascii_case(key, "f3") {
        "\u{E033}"
    } else if eq_ignore_ascii_case(key, "f4") {
        "\u{E034}"
    } else if eq_ignore_ascii_case(key, "f5") {
        "\u{E035}"
    } else if eq_ignore_ascii_case(key, "f6") {
        "\u{E036}"
    } else if eq_ignore_ascii_case(key, "f7") {
        "\u{E037}"
    } else if eq_ignore_ascii_case(key, "f8") {
        "\u{E038}"
    } else if eq_ignore_ascii_case(key, "f9") {
        "\u{E039}"
    } else if eq_ignore_ascii_case(key, "f10") {
        "\u{E03A}"
    } else if eq_ignore_ascii_case(key, "f11") {
        "\u{E03B}"
    } else if eq_ignore_ascii_case(key, "f12") {
        "\u{E03C}"
    } else if eq_ignore_ascii_case(key, "command") || eq_ignore_ascii_case(key, "meta") {
        "\u{E03D}"
    } else {
        key
    }
}

/// Whether `s` is one of the named keys of the allow-list.
pub open spec fn is_named_key(s: Seq<char>) -> bool {
    eq_ignore_case(s, "backspace"@) || eq_ignore_case(s, "tab"@) || eq_ignore_case(s, "return"@)
        || eq_ignore_case(s, "enter"@) || eq_ignore_case(s, "shift"@) || eq_ignore_case(
        s,
        "control"@,
    ) || eq_ignore_case(s, "ctrl"@) || eq_ignore_case(s, "alt"@) || eq_ignore_case(s, "escape"@)
        || eq_ignore_case(s, "esc"@) || eq_ignore_case(s, "space"@) || eq_ignore_case(s, "pageup"@)
        || eq_ignore_case(s, "pagedown"@) || eq_ignore_case(s, "end"@) || eq_ignore_case(
        s,
        "home"@,
    ) || eq_ignore_case(s, "left"@) || eq_ignore_case(s, "arrowleft"@) || eq_ignore_case(s, "up"@)
        || eq_ignore_case(s, "arrowup"@) || eq_ignore_case(s, "right"@) || eq_ignore_case(
        s,
        "arrowright"@,
    ) || eq_ignore_case(s, "down"@) || eq_ignore_case(s, "arrowdown"@) || eq_ignore_case(
        s,
        "insert"@,
    ) || eq_ignore_case(s, "delete"@) || eq_ignore_case(s, "f1"@) || eq_ignore_case(s, "f2"@)
        || eq_ignore_case(s, "f3"@) || eq_ignore_case(s, "f4"@) || eq_ignore_case(s, "f5"@)
        || eq_ignore_case(s, "f6"@) || eq_ignore_case(s, "f7"@) || eq_ignore_case(s, "f8"@)
        || eq_ignore_case(s, "f9"@) || eq_ignore_case(s, "f10"@) || eq_ignore_case(s, "f11"@)
        || eq_ignore_case(s, "f12"@) || eq_ignore_case(s, "command"@) || eq_ignore_case(s, "meta"@)
}

/// Whether a single character may stand for itself as a key: printable
/// ASCII, excluding the quote characters and the backslash.
pub open spec fn is_safe_single_char(c: char) -> bool {
    0x20 <= c as u32 && c as u32 <= 0x7e && c as u32 != 0x22 && c as u32 != 0x27 && c as u32
        != 0x5c
}

/// The key allow-list: a named key, or a single safe printable character.
pub open spec fn key_allowed(s: Seq<char>) -> bool {
    (s.len() == 1 && is_safe_single_char(s[0])) || is_named_key(s)
}

/// Whether the key name is a named key of the allow-list.
pub fn is_named_key_exec(key: &str) -> (r: bool)
    ensures
        r == is_named_key(key@),
{
    eq_ignore_ascii_case(key, "backspace") || eq_ignore_ascii_case(key, "tab")
        || eq_ignore_ascii_case(key, "return") || eq_ignore_ascii_case(key, "enter")
        || eq_ignore_ascii_case(key, "shift") || eq_ignore_ascii_case(key, "control")
        || eq_ignore_ascii_case(key, "ctrl") || eq_ignore_ascii_case(key, "alt")
        || eq_ignore_ascii_case(key, "escape") || eq_ignore_ascii_case(key, "esc")
        || eq_ignore_ascii_case(key, "space") || eq_ignore_ascii_case(key, "pageup")
        || eq_ignore_ascii_case(key, "pagedown") || eq_ignore_ascii_case(key, "end")
        || eq_ignore_ascii_case(key, "home") || eq_ignore_ascii_case(key, "left")
        || eq_ignore_ascii_case(key, "arrowleft") || eq_ignore_ascii_case(key, "up")
        || eq_ignore_ascii_case(key, "arrowup") || eq_ignore_ascii_case(key, "right")
        || eq_ignore_ascii_case(key, "arrowright") || eq_ignore_ascii_case(key, "down")
        || eq_ignore_ascii_case(key, "arrowdown") || eq_ignore_ascii_case(key, "insert")
        || eq_ignore_ascii_case(key, "delete") || eq_ignore_ascii_case(key, "f1")
        || eq_ignore_ascii_case(key, "f2") || eq_ignore_ascii_case(key, "f3")
        || eq_ignore_ascii_case(key, "f4") || eq_ignore_ascii_case(key, "f5")
        || eq_ignore_ascii_case(key, "f6") || eq_ignore_ascii_case(key, "f7")
        || eq_ignore_ascii_case(key, "f8") || eq_ignore_ascii_case(key, "f9")
        || eq_ignore_ascii_case(key, "f10") || eq_ignore_ascii_case(key, "f11")
        || eq_ignore_ascii_case(key, "f12") || eq_ignore_ascii_case(key, "command")
        || eq_ignore_ascii_case(key, "meta")
}

/// Whether `key` is on the allow-list.
pub fn validate_key(key: &str) -> (r: bool)
    ensures
        r == key_allowed(key@),
{
    if key.unicode_len() == 1 {
        let c = key.get_char(0) as u32;
        if 0x20 <= c && c <= 0x7e && c != 0x22 && c != 0x27 && c != 0x5c {
            return true;
        }
    }
    is_named_key_exec(key)
}

/// Whether `s` names a modifier key.
pub open spec fn is_modifier_name(s: Seq<char>) -> bool {
    eq_ignore_case(s, "control"@) || eq_ignore_case(s, "ctrl"@) || eq_ignore_case(s, "shift"@)
        || eq_ignore_case(s, "alt"@) || eq_ignore_case(s, "meta"@) || eq_ignore_case(
        s,
        "command"@,
    )
}

/// Whether the key names a modifier.
pub fn is_modifier(key: &str) -> (r: bool)
    ensures
        r == is_modifier_name(key@),
{
    eq_ignore_ascii_case(key, "control") || eq_ignore_ascii_case(key, "ctrl")
        || eq_ignore_ascii_case(key, "shift") || eq_ignore_ascii_case(key, "alt")
        || eq_ignore_ascii_case(key, "meta") || eq_ignore_ascii_case(key, "command")
}

/// Dispatch plan for a key combination.
pub enum KeyPlan {
    /// Send one mapped key code through the driver's native key primitive.
    SingleKey { code: String },
    /// Dispatch a synthesized key event with modifier flags for the main key.
    ModifierScript { ctrl: bool, shift: bool, alt: bool, meta: bool, main_key: String },
    /// Only modifiers were given; nothing to dispatch.
    ModifiersOnly,
    /// Dispatch each key natively in order over the event-driven protocol.
    NativeSequence { keys: Vec<String> },
}

/// Whether every key of the combination is on the allow-list.
pub open spec fn all_keys_allowed(ks: Seq<String>) -> bool {
    forall|i: int| 0 <= i < ks.len() ==> key_allowed(ks[i]@)
}

/// Whether the combination holds a control modifier.
pub open spec fn combo_has_ctrl(ks: Seq<String>) -> bool {
    exists|i: int|
        0 <= i < ks.len() && (eq_ignore_case(ks[i]@, "control"@) || eq_ignore_case(
            ks[i]@,
            "ctrl"@,
        ))
}

/// Whether the combination holds a shift modifier.
pub open spec fn combo_has_shift(ks: Seq<String>) -> bool {
    exists|i: int| 0 <= i < ks.len() && eq_ignore_case(ks[i]@, "shift"@)
}

/// Whether the combination holds an alt modifier.
pub open spec fn combo_has_alt(ks: Seq<String>) -> bool {
    exists|i: int| 0 <= i < ks.len() && eq_ignore_case(ks[i]@, "alt"@)
}

/// Whether the combination holds a meta modifier.
pub open spec fn combo_has_meta(ks: Seq<String>) -> bool {
    exists|i: int|
        0 <= i < ks.len() && (eq_ignore_case(ks[i]@, "meta"@) || eq_ignore_case(
            ks[i]@,
            "command"@,
        ))
}

/// Whether position `idx` holds the first non-modifier key.
pub open spec fn first_main_is(ks: Seq<String>, idx: int) -> bool {
    0 <= idx < ks.len() && !is_modifier_name(ks[idx]@) && (forall|j: int|
        0 <= j < idx ==> is_modifier_name(ks[j]@))
}

/// Plan how a key combination is dispatched. The combination is rejected
/// exactly when it is empty or holds a key outside the allow-list. Under
/// the polling protocol a single key is sent through the native key
/// primitive with its mapped code; a multi-key combination becomes one
/// synthesized key event that carries the modifier flags and the first
/// non-modifier key. Under the event-driven protocol every key is
/// dispatched natively in order.
pub fn plan_key_combination(keys: &Vec<String>, protocol: ProtocolKind) -> (r: Result<
    KeyPlan,
    ActionError,
>)
    ensures
        (r is Err) <==> (keys@.len() == 0 || !all_keys_allowed(keys@)),
        r is Err ==> r == Err::<KeyPlan, ActionError>(ActionError::InvalidInput),
        r is Ok && protocol is EventDriven ==> (r.unwrap() matches KeyPlan::NativeSequence {
            keys: ks,
        } && ks@.len() == keys@.len() && (forall|i: int|
            0 <= i < ks@.len() ==> ks@[i]@ == keys@[i]@)),
        r is Ok && protocol is Polling && keys@.len() == 1 ==> (
        r.unwrap() matches KeyPlan::SingleKey { code } && code@ == key_code(keys@[0]@)),
        r is Ok && protocol is Polling && keys@.len() > 1 && (exists|i: int|
            0 <= i < keys@.len() && !is_modifier_name(keys@[i]@)) ==> (
        r.unwrap() matches KeyPlan::ModifierScript { ctrl, shift, alt, meta, main_key }
            && ctrl == combo_has_ctrl(keys@) && shift == combo_has_shift(keys@) && alt
            == combo_has_alt(keys@) && meta == combo_has_meta(keys@) && (exists|idx: int|
            first_main_is(keys@, idx) && main_key@ == keys@[idx]@)),
        r is Ok && protocol is Polling && keys@.len() > 1 && (forall|i: int|
            0 <= i < keys@.len() ==> is_modifier_name(keys@[i]@)) ==> r.unwrap()
            is ModifiersOnly,
{
    let n = keys.len();
    if n == 0 {
        return Err(ActionError::InvalidInput);
    }
    let mut i: usize = 0;
    while i < n
        invariant
            n == keys@.len(),
            0 <= i <= n,
            forall|j: int| 0 <= j < i ==> key_allowed(keys@[j]@),
        decreases n - i,
    {
        if !validate_key(keys[i].as_str()) {
            return Err(ActionError::InvalidInput);
        }
        i += 1;
    }
    match protocol {
        ProtocolKind::EventDriven => {
            let mut out: Vec<String> = Vec::new();
            let mut i: usize = 0;
            while i < n
                invariant
                    n == keys@.len(),
                    0 <= i <= n,
                    out@.len() == i,
                    forall|j: int| 0 <= j < i ==> out@[j]@ == keys@[j]@,
                decreases n - i,
            {
                out.push(keys[i].clone());
                i += 1;
            }
            Ok(KeyPlan::NativeSequence { keys: out })
        },
        ProtocolKind::Polling => {
            if n == 1 {
                let code = get_key_mapping(keys[0].as_str()).to_owned();
                Ok(KeyPlan::SingleKey { code })
            } else {
                let mut ctrl = false;
                let mut shift = false;
                let mut alt = false;
                let mut meta = false;
                let mut i: usize = 0;
                while i < n
                    invariant
                        n == keys@.len(),
                        0 <= i <= n,
                        ctrl == combo_has_ctrl(keys@.take(i as int)),
                        shift == combo_has_shift(keys@.take(i as int)),
                        alt == combo_has_alt(keys@.take(i as int)),
                        meta == combo_has_meta(keys@.take(i as int)),
                    decreases n - i,
                {
                    let k = keys[i].as_str();
                    if eq_ignore_ascii_case(k, "control") || eq_ignore_ascii_case(k, "ctrl") {
                        ctrl = true;
                    }
                    if eq_ignore_ascii_case(k, "shift") {
                        shift = true;
                    }
                    if eq_ignore_ascii_case(k, "alt") {
                        alt = true;
                    }
                    if eq_ignore_ascii_case(k, "meta") || eq_ignore_ascii_case(k, "command") {
                        meta = true;
                    }
                    proof {
                        assert(keys@.take(i + 1).drop_last() =~= keys@.take(i as int));
                        assert(keys@.take(i + 1)[i as int] == keys@[i as int]);
                    }
                    i += 1;
                }
                proof {
                    assert(keys@.take(n as int) =~= keys@);
                }
                let mut main_idx: usize = n;
                let mut i: usize = 0;
                while i < n
                    invariant
                        n == keys@.len(),
                        0 <= i <= n,
                        main_idx == n || first_main_is(keys@, main_idx as int),
                        main_idx == n ==> forall|j: int| 0 <= j < i ==> is_modifier_name(
                            keys@[j]@,
                        ),
                    decreases n - i,
                {
                    if main_idx == n && !is_modifier(keys[i].as_str()) {
                        main_idx = i;
                    }
                    i += 1;
                }
                if main_idx < n {
                    let main_key = keys[main_idx].clone();
                    Ok(
                        KeyPlan::ModifierScript {
                            ctrl,
                            shift,
                            alt,
                            meta,
                            main_key,
                        },
                    )
                } else {
                    Ok(KeyPlan::ModifiersOnly)
                }
            }
        },
    }
}

} // verus!
