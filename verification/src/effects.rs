//! Window visual-effect selection.
//!
//! The bridge never touches the compositor itself: it turns a requested
//! effect into a plan of effect actions, and the surrounding program
//! carries the plan out against the real window.  Every decision — which
//! effects to clear, which to apply, and the fallback when an
//! application step fails — is made and verified here.

use vstd::prelude::*;
use crate::strutil::str_eq;

verus! {

/// The platform the bridge runs on, as far as effects are concerned.
#[derive(Clone, Copy, PartialEq, Eq, Structural, Debug)]
pub enum Platform {
    Windows,
    MacOs,
    Other,
}

/// A recognized window visual treatment.  A request for "none", or for
/// anything unrecognized, carries no `Effect` at all.
#[derive(Clone, Copy, PartialEq, Eq, Structural, Debug)]
pub enum Effect {
    Mica,
    Acrylic,
    Blur,
}

/// An RGBA tint handed to a translucency effect.
#[derive(Clone, Copy, PartialEq, Eq, Structural, Debug)]
pub struct Tint {
    pub red: u8,
    pub green: u8,
    pub blue: u8,
    pub alpha: u8,
}

/// One step of an effect plan: clear a previously applied treatment, or
/// apply a new one.
#[derive(Clone, Copy, PartialEq, Eq, Structural, Debug)]
pub enum Action {
    ClearBlur,
    ClearMica,
    ClearAcrylic,
    ApplyMica,
    ApplyAcrylic(Tint),
    ApplyBlur(Tint),
    ApplyVibrancy,
}

/// The tint used for the acrylic and blur treatments, and for the
/// fallback when mica cannot be applied.
pub open spec fn acrylic_tint() -> Tint {
    Tint { red: 0, green: 0, blue: 0, alpha: 10 }
}

/// The effect a request string asks for; nothing for "none" or for an
/// unrecognized string.
pub open spec fn effect_of(s: Seq<char>) -> Option<Effect> {
    if s == "mica"@ {
        Some(Effect::Mica)
    } else if s == "acrylic"@ {
        Some(Effect::Acrylic)
    } else if s == "blur"@ {
        Some(Effect::Blur)
    } else {
        None
    }
}

/// Parses a request string into the effect it asks for.
pub fn parse_effect(s: &str) -> (r: Option<Effect>)
    ensures
        r == effect_of(s@),
{
    if str_eq(s, "mica") {
        Some(Effect::Mica)
    } else if str_eq(s, "acrylic") {
        Some(Effect::Acrylic)
    } else if str_eq(s, "blur") {
        Some(Effect::Blur)
    } else {
        None
    }
}

/// The apply step a requested effect contributes on the Windows target.
pub open spec fn requested_applies(effect: Option<Effect>) -> Seq<Action> {
    match effect {
        Some(Effect::Mica) => seq![Action::ApplyMica],
        Some(Effect::Acrylic) => seq![Action::ApplyAcrylic(acrylic_tint())],
        Some(Effect::Blur) => seq![Action::ApplyBlur(acrylic_tint())],
        None => seq![],
    }
}

/// The full plan for a request: on Windows every treatment is cleared
/// first so the state is clean, then the requested one is applied; on
/// macOS any recognized effect collapses into a single vibrancy
/// treatment and "none" is ignored; elsewhere nothing happens.
pub open spec fn plan(platform: Platform, effect: Option<Effect>) -> Seq<Action> {
    match platform {
        Platform::Windows => seq![
            Action::ClearBlur,
            Action::ClearMica,
            Action::ClearAcrylic,
        ] + requested_applies(effect),
        Platform::MacOs => if effect is Some {
            seq![Action::ApplyVibrancy]
        } else {
            seq![]
        },
        Platform::Other => seq![],
    }
}

/// Computes the plan of effect actions for a request.
pub fn effect_plan(platform: Platform, effect: Option<Effect>) -> (r: Vec<Action>)
    ensures
        r@ == plan(platform, effect),
{
    let mut v: Vec<Action> = Vec::new();
    match platform {
        Platform::Windows => {
            v.push(Action::ClearBlur);
            v.push(Action::ClearMica);
            v.push(Action::ClearAcrylic);
            match effect {
                Some(Effect::Mica) => v.push(Action::ApplyMica),
                Some(Effect::Acrylic) => v.push(
                    Action::ApplyAcrylic(Tint { red: 0, green: 0, blue: 0, alpha: 10 }),
                ),
                Some(Effect::Blur) => v.push(
                    Action::ApplyBlur(Tint { red: 0, green: 0, blue: 0, alpha: 10 }),
                ),
                None => {},
            }
        },
        Platform::MacOs => {
            if effect.is_some() {
                v.push(Action::ApplyVibrancy);
            }
        },
        Platform::Other => {},
    }
    proof {
        assert(v@ =~= plan(platform, effect));
    }
    v
}

/// What a failed apply step falls back to: only a failed mica request
/// on Windows retries, with the acrylic parameters.
pub open spec fn fallback(platform: Platform, attempted: Action, failed: bool) -> Option<Action> {
    if platform == Platform::Windows && attempted == Action::ApplyMica && failed {
        Some(Action::ApplyAcrylic(acrylic_tint()))
    } else {
        None
    }
}

/// Decides the follow-up action after an apply step, given whether the
/// step failed.  Failures of every other step are absorbed silently.
pub fn fallback_action(platform: Platform, attempted: Action, failed: bool) -> (r: Option<Action>)
    ensures
        r == fallback(platform, attempted, failed),
{
    if failed {
        match (platform, attempted) {
            (Platform::Windows, Action::ApplyMica) => Some(
                Action::ApplyAcrylic(Tint { red: 0, green: 0, blue: 0, alpha: 10 }),
            ),
            _ => None,
        }
    } else {
        None
    }
}

/// Whether an action makes a new treatment visible (as opposed to
/// clearing an old one).
pub open spec fn is_apply(a: Action) -> bool {
    match a {
        Action::ApplyMica => true,
        Action::ApplyAcrylic(_) => true,
        Action::ApplyBlur(_) => true,
        Action::ApplyVibrancy => true,
        _ => false,
    }
}

/// A request for "none", or for any unrecognized string, applies no
/// visual treatment on any platform: its plan holds no apply step.
pub proof fn lemma_unrecognized_applies_nothing(platform: Platform, s: Seq<char>)
    requires
        effect_of(s) is None,
    ensures
        forall|i: int|
            0 <= i < plan(platform, effect_of(s)).len() ==> !is_apply(
                #[trigger] plan(platform, effect_of(s))[i],
            ),
{
    lemma_no_effect_applies_nothing(platform);
}

/// With no effect requested, the plan holds no apply step: nothing new
/// becomes visible on any platform.
pub proof fn lemma_no_effect_applies_nothing(platform: Platform)
    ensures
        forall|i: int|
            0 <= i < plan(platform, None::<Effect>).len() ==> !is_apply(
                #[trigger] plan(platform, None::<Effect>)[i],
            ),
{
    match platform {
        Platform::Windows => {
            assert(plan(platform, None::<Effect>) =~= seq![
                Action::ClearBlur,
                Action::ClearMica,
                Action::ClearAcrylic,
            ]);
        },
        Platform::MacOs => {},
        Platform::Other => {},
    }
}

/// On Windows a failed mica application falls back to the acrylic
/// parameters; a successful one does not, and no other step ever
/// triggers a fallback.
pub proof fn lemma_mica_falls_back_to_acrylic()
    ensures
        fallback(Platform::Windows, Action::ApplyMica, true) == Some(
            Action::ApplyAcrylic(acrylic_tint()),
        ),
        fallback(Platform::Windows, Action::ApplyMica, false) is None,
        forall|p: Platform, a: Action, f: bool|
            #[trigger] fallback(p, a, f) is Some ==> p == Platform::Windows && a
                == Action::ApplyMica && f,
{
}

} // verus!
