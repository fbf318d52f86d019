//! The abstract state of the service, and what each rename does to it.
//!
//! Global profiles refer to fan and keyboard profiles by name. No store
//! checks these references when a profile is written; instead, a rename in
//! the fan or keyboard store rewrites every reference to the old name as
//! part of the same step. This module states that step over plain maps and
//! proves what it keeps intact.

use vstd::prelude::*;
use crate::profile::{ColorProfileView, FanProfilePoint, FanSettingView, ProfileInfoView};
use crate::store::{renamed, ProfileError};

verus! {

/// The two references that a global profile holds.
#[derive(Clone, Copy, Debug, PartialEq, Eq, Structural)]
pub enum ProfileKind {
    Fan,
    Keyboard,
}

/// The abstract state of the service.
pub struct State {
    /// The global profiles, by name.
    pub profiles: Map<Seq<char>, ProfileInfoView>,
    /// The keyboard profiles, by name.
    pub keyboard: Map<Seq<char>, ColorProfileView>,
    /// The fan profiles, by name.
    pub fan: Map<Seq<char>, Seq<FanProfilePoint>>,
    /// The name of the global profile that is applied.
    pub active: Seq<char>,
    /// What the keyboard was last told to show.
    pub applied_keyboard: ColorProfileView,
    /// What the fans were last told to do.
    pub applied_fan: FanSettingView,
}

/// The name that a global profile holds for one kind of profile.
pub open spec fn reference(profile: ProfileInfoView, kind: ProfileKind) -> Seq<char> {
    match kind {
        ProfileKind::Fan => profile.fan,
        ProfileKind::Keyboard => profile.keyboard,
    }
}

/// A global profile with one of its references replaced.
pub open spec fn with_reference(
    profile: ProfileInfoView,
    kind: ProfileKind,
    name: Seq<char>,
) -> ProfileInfoView {
    match kind {
        ProfileKind::Fan => ProfileInfoView { fan: name, keyboard: profile.keyboard },
        ProfileKind::Keyboard => ProfileInfoView { fan: profile.fan, keyboard: name },
    }
}

/// A global profile after a rename of `from` to `to` in the store of the
/// given kind: a reference to `from` now reads `to`, anything else stays.
pub open spec fn redirected(
    profile: ProfileInfoView,
    kind: ProfileKind,
    from: Seq<char>,
    to: Seq<char>,
) -> ProfileInfoView {
    if reference(profile, kind) == from {
        with_reference(profile, kind, to)
    } else {
        profile
    }
}

/// The global profiles after such a rename: each one redirected, none
/// added, none dropped.
pub open spec fn cascaded(
    profiles: Map<Seq<char>, ProfileInfoView>,
    kind: ProfileKind,
    from: Seq<char>,
    to: Seq<char>,
) -> Map<Seq<char>, ProfileInfoView> {
    profiles.map_values(|p: ProfileInfoView| redirected(p, kind, from, to))
}

/// What renaming a fan profile makes of the state, or why it is refused.
pub open spec fn fan_renamed(s: State, from: Seq<char>, to: Seq<char>) -> Result<
    State,
    ProfileError,
> {
    match renamed(s.fan, from, to) {
        Ok(fan) => Ok(
            State { fan, profiles: cascaded(s.profiles, ProfileKind::Fan, from, to), ..s },
        ),
        Err(e) => Err(e),
    }
}

/// What renaming a keyboard profile makes of the state, or why it is
/// refused.
pub open spec fn keyboard_renamed(s: State, from: Seq<char>, to: Seq<char>) -> Result<
    State,
    ProfileError,
> {
    match renamed(s.keyboard, from, to) {
        Ok(keyboard) => Ok(
            State {
                keyboard,
                profiles: cascaded(s.profiles, ProfileKind::Keyboard, from, to),
                ..s
            },
        ),
        Err(e) => Err(e),
    }
}

/// What renaming a global profile makes of the state, or why it is refused.
/// The active name follows the profile it names.
pub open spec fn global_renamed(s: State, from: Seq<char>, to: Seq<char>) -> Result<
    State,
    ProfileError,
> {
    match renamed(s.profiles, from, to) {
        Ok(profiles) => Ok(
            State { profiles, active: if s.active == from { to } else { s.active }, ..s },
        ),
        Err(e) => Err(e),
    }
}

/// Whether a global profile is stored and both its references name stored
/// profiles.
pub open spec fn is_valid(s: State, name: Seq<char>) -> bool {
    &&& s.profiles.contains_key(name)
    &&& s.fan.contains_key(s.profiles[name].fan)
    &&& s.keyboard.contains_key(s.profiles[name].keyboard)
}

/// The keyboard profile that the active global profile stands for. A
/// missing global profile or a reference to a profile that is not stored
/// stands for a backlight that is off.
pub open spec fn resolved_keyboard(s: State) -> ColorProfileView {
    if s.profiles.contains_key(s.active) && s.keyboard.contains_key(
        s.profiles[s.active].keyboard,
    ) {
        s.keyboard[s.profiles[s.active].keyboard]
    } else {
        ColorProfileView::Off
    }
}

/// The fan curve that the active global profile stands for. A missing
/// global profile or a reference to a profile that is not stored stands
/// for an empty curve.
pub open spec fn resolved_fan(s: State) -> Seq<FanProfilePoint> {
    if s.profiles.contains_key(s.active) && s.fan.contains_key(s.profiles[s.active].fan) {
        s.fan[s.profiles[s.active].fan]
    } else {
        Seq::empty()
    }
}

/// The state after the active global profile was applied again.
pub open spec fn reloaded(s: State) -> State {
    State {
        applied_keyboard: resolved_keyboard(s),
        applied_fan: FanSettingView::Profile(resolved_fan(s)),
        ..s
    }
}

/// A cascade for a name that no global profile refers to changes nothing.
pub proof fn lemma_cascade_without_references(
    profiles: Map<Seq<char>, ProfileInfoView>,
    kind: ProfileKind,
    from: Seq<char>,
    to: Seq<char>,
)
    requires
        forall|g: Seq<char>| profiles.contains_key(g) ==> reference(profiles[g], kind) != from,
    ensures
        cascaded(profiles, kind, from, to) == profiles,
{
    assert(cascaded(profiles, kind, from, to) =~= profiles);
}

/// A cascade there and back restores every global profile, provided none
/// of them referred to the new name beforehand.
pub proof fn lemma_cascade_round_trip(
    profiles: Map<Seq<char>, ProfileInfoView>,
    kind: ProfileKind,
    from: Seq<char>,
    to: Seq<char>,
)
    requires
        forall|g: Seq<char>| profiles.contains_key(g) ==> reference(profiles[g], kind) != to,
    ensures
        cascaded(cascaded(profiles, kind, from, to), kind, to, from) == profiles,
{
    assert(cascaded(cascaded(profiles, kind, from, to), kind, to, from) =~= profiles);
}

/// A global profile that refers to fan profile `from` refers to `to` once
/// that fan profile is renamed, and is exactly what it was once the fan
/// profile is renamed back; the second rename is never refused, and the
/// fan store is then what it was.
pub proof fn lemma_fan_rename_round_trip(s: State, g: Seq<char>, from: Seq<char>, to: Seq<char>)
    requires
        s.profiles.contains_key(g),
        s.profiles[g].fan == from,
        fan_renamed(s, from, to) is Ok,
    ensures
        fan_renamed(s, from, to)->Ok_0.profiles.contains_key(g),
        fan_renamed(s, from, to)->Ok_0.profiles[g].fan == to,
        fan_renamed(s, from, to)->Ok_0.profiles[g].keyboard == s.profiles[g].keyboard,
        fan_renamed(fan_renamed(s, from, to)->Ok_0, to, from) is Ok,
        fan_renamed(fan_renamed(s, from, to)->Ok_0, to, from)->Ok_0.profiles[g] == s.profiles[g],
        fan_renamed(fan_renamed(s, from, to)->Ok_0, to, from)->Ok_0.fan == s.fan,
{
    crate::store::lemma_rename_round_trip(s.fan, from, to);
}

/// A global profile that refers to keyboard profile `from` refers to `to`
/// once that keyboard profile is renamed, and is exactly what it was once
/// the keyboard profile is renamed back; the second rename is never
/// refused, and the keyboard store is then what it was.
pub proof fn lemma_keyboard_rename_round_trip(
    s: State,
    g: Seq<char>,
    from: Seq<char>,
    to: Seq<char>,
)
    requires
        s.profiles.contains_key(g),
        s.profiles[g].keyboard == from,
        keyboard_renamed(s, from, to) is Ok,
    ensures
        keyboard_renamed(s, from, to)->Ok_0.profiles.contains_key(g),
        keyboard_renamed(s, from, to)->Ok_0.profiles[g].keyboard == to,
        keyboard_renamed(s, from, to)->Ok_0.profiles[g].fan == s.profiles[g].fan,
        keyboard_renamed(keyboard_renamed(s, from, to)->Ok_0, to, from) is Ok,
        keyboard_renamed(keyboard_renamed(s, from, to)->Ok_0, to, from)->Ok_0.profiles[g]
            == s.profiles[g],
        keyboard_renamed(keyboard_renamed(s, from, to)->Ok_0, to, from)->Ok_0.keyboard
            == s.keyboard,
{
    crate::store::lemma_rename_round_trip(s.keyboard, from, to);
}

/// Renaming a fan profile and renaming it back restores the whole state,
/// provided no global profile referred to the new name beforehand.
pub proof fn lemma_fan_rename_undone(s: State, from: Seq<char>, to: Seq<char>)
    requires
        fan_renamed(s, from, to) is Ok,
        forall|g: Seq<char>| s.profiles.contains_key(g) ==> s.profiles[g].fan != to,
    ensures
        fan_renamed(fan_renamed(s, from, to)->Ok_0, to, from) == Ok::<State, ProfileError>(s),
{
    crate::store::lemma_rename_round_trip(s.fan, from, to);
    lemma_cascade_round_trip(s.profiles, ProfileKind::Fan, from, to);
}

/// Renaming a keyboard profile and renaming it back restores the whole
/// state, provided no global profile referred to the new name beforehand.
pub proof fn lemma_keyboard_rename_undone(s: State, from: Seq<char>, to: Seq<char>)
    requires
        keyboard_renamed(s, from, to) is Ok,
        forall|g: Seq<char>| s.profiles.contains_key(g) ==> s.profiles[g].keyboard != to,
    ensures
        keyboard_renamed(keyboard_renamed(s, from, to)->Ok_0, to, from) == Ok::<
            State,
            ProfileError,
        >(s),
{
    crate::store::lemma_rename_round_trip(s.keyboard, from, to);
    lemma_cascade_round_trip(s.profiles, ProfileKind::Keyboard, from, to);
}

/// A global profile whose references were both good before a rename in the
/// fan or keyboard store has good references after it.
pub proof fn lemma_rename_keeps_valid(s: State, g: Seq<char>, from: Seq<char>, to: Seq<char>)
    requires
        is_valid(s, g),
    ensures
        fan_renamed(s, from, to) is Ok ==> is_valid(fan_renamed(s, from, to)->Ok_0, g),
        keyboard_renamed(s, from, to) is Ok ==> is_valid(keyboard_renamed(s, from, to)->Ok_0, g),
{
}

/// A rename in the fan or keyboard store does not change what the active
/// global profile stands for, unless that profile referred to the new name
/// while no profile of that name was stored.
pub proof fn lemma_rename_keeps_resolution(s: State, from: Seq<char>, to: Seq<char>)
    ensures
        fan_renamed(s, from, to) is Ok && !(s.profiles.contains_key(s.active)
            && s.profiles[s.active].fan == to) ==> {
            &&& resolved_fan(fan_renamed(s, from, to)->Ok_0) == resolved_fan(s)
            &&& resolved_keyboard(fan_renamed(s, from, to)->Ok_0) == resolved_keyboard(s)
        },
        keyboard_renamed(s, from, to) is Ok && !(s.profiles.contains_key(s.active)
            && s.profiles[s.active].keyboard == to) ==> {
            &&& resolved_fan(keyboard_renamed(s, from, to)->Ok_0) == resolved_fan(s)
            &&& resolved_keyboard(keyboard_renamed(s, from, to)->Ok_0) == resolved_keyboard(s)
        },
{
}

/// Renaming a global profile does not change what the active global
/// profile stands for, unless the active name was the new name while no
/// global profile of that name was stored.
pub proof fn lemma_global_rename_keeps_resolution(s: State, from: Seq<char>, to: Seq<char>)
    requires
        global_renamed(s, from, to) is Ok,
        s.active != to,
    ensures
        resolved_fan(global_renamed(s, from, to)->Ok_0) == resolved_fan(s),
        resolved_keyboard(global_renamed(s, from, to)->Ok_0) == resolved_keyboard(s),
        s.active == from ==> global_renamed(s, from, to)->Ok_0.active == to,
{
}

/// Renaming a global profile onto a name that is taken is refused as a
/// conflict, and renaming one that is not stored as not found.
pub proof fn lemma_global_rename_refused(s: State, from: Seq<char>, to: Seq<char>)
    ensures
        s.profiles.contains_key(from) && s.profiles.contains_key(to) ==> global_renamed(
            s,
            from,
            to,
        ) == Err::<State, ProfileError>(ProfileError::Conflict),
        !s.profiles.contains_key(from) ==> global_renamed(s, from, to) == Err::<
            State,
            ProfileError,
        >(ProfileError::NotFound),
{
}

/// Applying the active profile twice is the same as applying it once, and
/// it changes nothing but what is applied.
pub proof fn lemma_reload_settles(s: State)
    ensures
        reloaded(reloaded(s)) == reloaded(s),
        reloaded(s).profiles == s.profiles,
        reloaded(s).fan == s.fan,
        reloaded(s).keyboard == s.keyboard,
        reloaded(s).active == s.active,
{
}

} // verus!
