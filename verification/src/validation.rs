//! Static keybinding-policy checks: every binding must be a Ctrl+Shift
//! combination without Alt, on a key that does not interfere with terminal
//! applications, and no two bindings may collide.

use vstd::prelude::*;
use vstd::string::StringExecFns;

use crate::config::{Config, KeyboardShortcuts, Shortcut};

verus! {

/// A policy violation found in one configuration component.
#[derive(Debug, Clone, PartialEq)]
pub struct ValidationError {
    /// The component at fault; for these checks always the shortcuts.
    pub component: String,
    /// What is wrong, in the caller-facing words.
    pub message: String,
}

/// What `str::to_lowercase` returns: a function of the characters alone.
pub uninterp spec fn lower_of(s: Seq<char>) -> Seq<char>;

/// Relies on `str::to_lowercase`: the lowercase form of the string.
#[verifier::external_body]
fn to_lowercase(s: &str) -> (r: String)
    ensures
        r@ == lower_of(s@),
{
    s.to_lowercase()
}

/// The keys (already lowercased) that are safe to bind: they do not shadow
/// what terminal applications commonly need.
pub open spec fn safe_key(k: Seq<char>) -> bool {
    ||| k == "t"@
    ||| k == "w"@
    ||| k == "r"@
    ||| k == "e"@
    ||| k == "o"@
    ||| k == "["@
    ||| k == "]"@
    ||| k == "\\"@
    ||| k == "/"@
}

/// Whether a lowercased key is safe to bind.
pub fn is_safe_key(key: &String) -> (r: bool)
    ensures
        r == safe_key(key@),
{
    *key == "t".to_owned() || *key == "w".to_owned() || *key == "r".to_owned() || *key
        == "e".to_owned() || *key == "o".to_owned() || *key == "[".to_owned() || *key
        == "]".to_owned() || *key == "\\".to_owned() || *key == "/".to_owned()
}

/// Why the binding named `name` violates the per-binding policy, if it does:
/// first a missing Ctrl+Shift, then a forbidden Alt, then an unsafe key.
pub open spec fn shortcut_error_msg(name: Seq<char>, s: Shortcut) -> Option<Seq<char>> {
    if !(s.ctrl && s.shift) {
        Some("Shortcut '"@ + name + "' must use Ctrl+Shift combination"@)
    } else if s.alt {
        Some("Shortcut '"@ + name + "' must not use Alt (reserved for terminal)"@)
    } else if !safe_key(lower_of(s.key@)) {
        Some(
            "Shortcut '"@ + name + "' uses key '"@ + s.key@
                + "' which may interfere with terminal applications"@,
        )
    } else {
        None
    }
}

/// Check one binding against the per-binding policy.
pub fn validate_shortcut(name: &str, shortcut: &Shortcut) -> (r: Option<ValidationError>)
    ensures
        match r {
            Some(e) => e.component@ == "shortcuts"@ && shortcut_error_msg(name@, *shortcut)
                == Some(e.message@),
            None => shortcut_error_msg(name@, *shortcut) is None,
        },
{
    if !shortcut.ctrl || !shortcut.shift {
        let mut m = String::new();
        m.append("Shortcut '");
        m.append(name);
        m.append("' must use Ctrl+Shift combination");
        return Some(ValidationError { component: "shortcuts".to_owned(), message: m });
    }
    if shortcut.alt {
        let mut m = String::new();
        m.append("Shortcut '");
        m.append(name);
        m.append("' must not use Alt (reserved for terminal)");
        return Some(ValidationError { component: "shortcuts".to_owned(), message: m });
    }
    let lowered = to_lowercase(shortcut.key.as_str());
    if !is_safe_key(&lowered) {
        let mut m = String::new();
        m.append("Shortcut '");
        m.append(name);
        m.append("' uses key '");
        m.append(shortcut.key.as_str());
        m.append("' which may interfere with terminal applications");
        return Some(ValidationError { component: "shortcuts".to_owned(), message: m });
    }
    None
}

/// The normalized form under which two bindings collide: each modifier in a
/// fixed order, then the lowercased key.
pub open spec fn combo_of(s: Shortcut) -> Seq<char> {
    (if s.ctrl {
        "ctrl+"@
    } else {
        Seq::<char>::empty()
    }) + (if s.shift {
        "shift+"@
    } else {
        Seq::<char>::empty()
    }) + (if s.alt {
        "alt+"@
    } else {
        Seq::<char>::empty()
    }) + (if s.meta {
        "meta+"@
    } else {
        Seq::<char>::empty()
    }) + lower_of(s.key@)
}

fn combo_string(s: &Shortcut) -> (r: String)
    ensures
        r@ == combo_of(*s),
{
    let mut c = String::new();
    if s.ctrl {
        c.append("ctrl+");
    }
    if s.shift {
        c.append("shift+");
    }
    if s.alt {
        c.append("alt+");
    }
    if s.meta {
        c.append("meta+");
    }
    let lowered = to_lowercase(s.key.as_str());
    c.append(lowered.as_str());
    proof {
        assert(c@ =~= combo_of(*s));
    }
    c
}

/// The message reported when a binding collides with an earlier one.
pub open spec fn conflict_msg(name: Seq<char>) -> Seq<char> {
    "Shortcut '"@ + name + "' conflicts with another shortcut"@
}

fn conflict_error(name: &str) -> (e: ValidationError)
    ensures
        e.component@ == "shortcuts"@,
        e.message@ == conflict_msg(name@),
{
    let mut m = String::new();
    m.append("Shortcut '");
    m.append(name);
    m.append("' conflicts with another shortcut");
    ValidationError { component: "shortcuts".to_owned(), message: m }
}

/// One message, or none.
pub open spec fn opt_msg(o: Option<Seq<char>>) -> Seq<Seq<char>> {
    match o {
        Some(m) => seq![m],
        None => Seq::empty(),
    }
}

/// Every message `validate_shortcuts` reports, in order: the per-binding
/// checks, then the collision checks in the same order. The policy covers
/// the tab- and configuration-management bindings; the profile-menu binding
/// is not policed. A binding that itself collided is not a collision target
/// for later ones.
pub open spec fn expected_validation_msgs(ks: KeyboardShortcuts) -> Seq<Seq<char>> {
    let c1 = combo_of(ks.new_tab);
    let c2 = combo_of(ks.close_tab);
    let c3 = combo_of(ks.reload_config);
    let conf2 = c2 == c1;
    let conf3 = c3 == c1 || (!conf2 && c3 == c2);
    opt_msg(shortcut_error_msg("new_tab"@, ks.new_tab)) + opt_msg(
        shortcut_error_msg("close_tab"@, ks.close_tab),
    ) + opt_msg(shortcut_error_msg("reload_config"@, ks.reload_config)) + (if conf2 {
        seq![conflict_msg("close_tab"@)]
    } else {
        Seq::<Seq<char>>::empty()
    }) + (if conf3 {
        seq![conflict_msg("reload_config"@)]
    } else {
        Seq::<Seq<char>>::empty()
    })
}

/// Check the policed bindings: per-binding policy first, then pairwise
/// collisions, as [`expected_validation_msgs`] lays the messages out.
#[verifier::rlimit(50)]
pub fn validate_shortcuts(shortcuts: &KeyboardShortcuts) -> (r: Vec<ValidationError>)
    ensures
        r@.map_values(|e: ValidationError| e.message@) == expected_validation_msgs(*shortcuts),
        forall|i: int| 0 <= i < r@.len() ==> (#[trigger] r@[i]).component@ == "shortcuts"@,
{
    let ghost m1 = opt_msg(shortcut_error_msg("new_tab"@, shortcuts.new_tab));
    let ghost m2 = opt_msg(shortcut_error_msg("close_tab"@, shortcuts.close_tab));
    let ghost m3 = opt_msg(shortcut_error_msg("reload_config"@, shortcuts.reload_config));
    let mut errors: Vec<ValidationError> = Vec::new();
    match validate_shortcut("new_tab", &shortcuts.new_tab) {
        Some(e) => errors.push(e),
        None => (),
    }
    proof {
        assert(errors@.map_values(|e: ValidationError| e.message@) =~= m1);
    }
    match validate_shortcut("close_tab", &shortcuts.close_tab) {
        Some(e) => errors.push(e),
        None => (),
    }
    proof {
        assert(errors@.map_values(|e: ValidationError| e.message@) =~= m1 + m2);
    }
    match validate_shortcut("reload_config", &shortcuts.reload_config) {
        Some(e) => errors.push(e),
        None => (),
    }
    proof {
        assert(errors@.map_values(|e: ValidationError| e.message@) =~= m1 + m2 + m3);
    }
    let c1 = combo_string(&shortcuts.new_tab);
    let c2 = combo_string(&shortcuts.close_tab);
    let c3 = combo_string(&shortcuts.reload_config);
    let ghost s2 = if c2@ == c1@ {
        seq![conflict_msg("close_tab"@)]
    } else {
        Seq::<Seq<char>>::empty()
    };
    let conf2 = c2 == c1;
    if conf2 {
        errors.push(conflict_error("close_tab"));
    }
    proof {
        assert(errors@.map_values(|e: ValidationError| e.message@) =~= m1 + m2 + m3 + s2);
    }
    let conf3 = c3 == c1 || (!conf2 && c3 == c2);
    let ghost s3 = if conf3 {
        seq![conflict_msg("reload_config"@)]
    } else {
        Seq::<Seq<char>>::empty()
    };
    if conf3 {
        errors.push(conflict_error("reload_config"));
    }
    proof {
        assert(errors@.map_values(|e: ValidationError| e.message@) =~= m1 + m2 + m3 + s2 + s3);
        assert(expected_validation_msgs(*shortcuts) =~= m1 + m2 + m3 + s2 + s3);
    }
    errors
}

impl Config {
    /// Every policy violation in this configuration, shortcut checks first.
    pub fn validate(&self) -> (r: Vec<ValidationError>)
        ensures
            r@.map_values(|e: ValidationError| e.message@) == expected_validation_msgs(
                self.shortcuts,
            ),
            forall|i: int| 0 <= i < r@.len() ==> (#[trigger] r@[i]).component@ == "shortcuts"@,
    {
        validate_shortcuts(&self.shortcuts)
    }
}

} // verus!
