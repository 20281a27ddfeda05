//! Profiles: the switcher (switch, new profile, delete the current one) and the onboarding
//! screen that creates a profile.

use vstd::prelude::*;

use crate::events::{ProfileEvent, UiEvent};
use crate::model::{Id, ProfilesView};
use crate::text::{has_content, is_blank, trim_spec, trimmed};

verus! {

/// Which onboarding context shows.
#[derive(Clone, Copy, Debug, PartialEq, Eq, Structural)]
pub enum OnboardingMode {
    /// First run: no profile exists yet.
    FirstRun,
    /// Adding another profile from the switcher.
    NewProfile,
    /// No profile is active but others exist: pick one or create one.
    Reselect,
}

/// Visual weight of the switcher: prominent in the nav, compact on the onboarding screen.
#[derive(Clone, Copy, Debug, PartialEq, Eq, Structural)]
pub enum SwitcherStyle {
    Nav,
    Onboarding,
}

/// What the switcher needs its caller to do.
pub struct SwitcherOutcome {
    /// "New profile" was picked: enter the new-profile flow.
    pub new_profile: bool,
    /// A different profile was picked (a switch event was sent).
    pub switched: bool,
    /// The already active profile was picked.
    pub selected_current: bool,
    /// "Delete current profile" was picked: confirm deleting this one.
    pub delete: Option<Id>,
}

impl Default for SwitcherOutcome {
    fn default() -> (r: Self)
        ensures
            !r.new_profile && !r.switched && !r.selected_current && r.delete is None,
    {
        SwitcherOutcome { new_profile: false, switched: false, selected_current: false, delete: None }
    }
}

/// An entry of the switcher's dropdown.
#[derive(Clone, Copy, Debug)]
pub enum SwitcherPick {
    Profile(Id),
    NewProfile,
    DeleteCurrent,
}

/// The switcher's label: the active profile's name, or "Dashboard".
pub fn active_name(view: &ProfilesView) -> (r: String)
    ensures
        r@ == (match view.active {
            Some(p) => p.display_name@,
            None => "Dashboard"@,
        }),
{
    match &view.active {
        Some(p) => p.display_name.clone(),
        None => "Dashboard".to_owned(),
    }
}

/// What picking a switcher entry does. Picking another profile switches to it; picking the
/// active one only reports it; "New profile" and "Delete current profile" exist in the nav
/// only (the latter only while a profile is active).
pub fn switcher_pick(view: &ProfilesView, style: SwitcherStyle, pick: SwitcherPick) -> (r: (SwitcherOutcome, Option<UiEvent>))
    ensures
        match pick {
            SwitcherPick::Profile(id) => if view.active_key() == Some(id) {
                r.0.selected_current && !r.0.switched && !r.0.new_profile && r.0.delete is None
                    && r.1 is None
            } else {
                r.0.switched && !r.0.selected_current && !r.0.new_profile && r.0.delete is None
                    && r.1 == Some(UiEvent::Profile(ProfileEvent::Switch(id)))
            },
            SwitcherPick::NewProfile => r.0.new_profile == (style == SwitcherStyle::Nav)
                && !r.0.switched && !r.0.selected_current && r.0.delete is None && r.1 is None,
            SwitcherPick::DeleteCurrent => r.0.delete == (if style == SwitcherStyle::Nav {
                view.active_key()
            } else {
                None
            }) && !r.0.new_profile && !r.0.switched && !r.0.selected_current && r.1 is None,
        },
{
    let mut out = SwitcherOutcome::default();
    match pick {
        SwitcherPick::Profile(id) => {
            if view.active_id() == Some(id) {
                out.selected_current = true;
                (out, None)
            } else {
                out.switched = true;
                (out, Some(UiEvent::Profile(ProfileEvent::Switch(id))))
            }
        },
        SwitcherPick::NewProfile => {
            out.new_profile = style == SwitcherStyle::Nav;
            (out, None)
        },
        SwitcherPick::DeleteCurrent => {
            if style == SwitcherStyle::Nav {
                out.delete = view.active_id();
            }
            (out, None)
        },
    }
}

/// The onboarding screen's heading and subtitle.
pub fn onboarding_copy(mode: OnboardingMode) -> (r: (&'static str, &'static str))
    ensures
        (r.0@, r.1@) == (match mode {
            OnboardingMode::FirstRun => (
                "Welcome to your Dev Dashboard"@,
                "Let's set up your first profile to get started."@,
            ),
            OnboardingMode::NewProfile => (
                "New profile"@,
                "Name a fresh, separate workspace — its own stages, tickets, and notes."@,
            ),
            OnboardingMode::Reselect => (
                "Choose a profile"@,
                "Pick a workspace to open from the switcher above, or create a new one."@,
            ),
        }),
{
    match mode {
        OnboardingMode::FirstRun => (
            "Welcome to your Dev Dashboard",
            "Let's set up your first profile to get started.",
        ),
        OnboardingMode::NewProfile => (
            "New profile",
            "Name a fresh, separate workspace — its own stages, tickets, and notes.",
        ),
        OnboardingMode::Reselect => (
            "Choose a profile",
            "Pick a workspace to open from the switcher above, or create a new one.",
        ),
    }
}

/// The compact switcher shows when there are profiles to go to (new-profile and reselect).
pub fn shows_switcher(mode: OnboardingMode) -> (r: bool)
    ensures
        r == (mode == OnboardingMode::NewProfile || mode == OnboardingMode::Reselect),
{
    mode == OnboardingMode::NewProfile || mode == OnboardingMode::Reselect
}

/// A Back link shows only in the new-profile flow (there is an active profile to return to).
pub fn shows_back(mode: OnboardingMode) -> (r: bool)
    ensures
        r == (mode == OnboardingMode::NewProfile),
{
    mode == OnboardingMode::NewProfile
}

/// Transient input of the create-profile screen.
pub struct OnboardingState {
    pub name_input: String,
}

impl Default for OnboardingState {
    fn default() -> (r: Self)
        ensures
            r.name_input@.len() == 0,
    {
        OnboardingState { name_input: String::new() }
    }
}

impl OnboardingState {
    /// Settle a frame of the onboarding screen. Returns the event to send and whether the
    /// caller should leave the new-profile flow: Back (new-profile only), a pick in the
    /// compact switcher (when it shows), or creating a profile. Create (button or Enter)
    /// needs a non-blank name; it sends the trimmed name and clears the field.
    pub fn settle(
        &mut self,
        mode: OnboardingMode,
        back_clicked: bool,
        switcher: &SwitcherOutcome,
        create_clicked: bool,
        entered: bool,
    ) -> (r: (Option<UiEvent>, bool))
        ensures
            ({
                let create = (create_clicked || entered) && has_content(old(self).name_input@);
                let left = (mode == OnboardingMode::NewProfile && back_clicked) || ((mode
                    == OnboardingMode::NewProfile || mode == OnboardingMode::Reselect) && (
                switcher.switched || switcher.selected_current)) || create;
                &&& r.1 == left
                &&& if create {
                    &&& r.0 matches Some(UiEvent::Profile(ProfileEvent::Create(n))) && n@ == trim_spec(
                        old(self).name_input@,
                    )
                    &&& final(self).name_input@.len() == 0
                } else {
                    r.0 is None && *final(self) == *old(self)
                }
            }),
    {
        let mut leave = false;
        if shows_switcher(mode) {
            if shows_back(mode) && back_clicked {
                leave = true;
            }
            if switcher.switched || switcher.selected_current {
                leave = true;
            }
        }
        if (create_clicked || entered) && !is_blank(&self.name_input) {
            let name = trimmed(&self.name_input);
            self.name_input = String::new();
            return (Some(UiEvent::Profile(ProfileEvent::Create(name))), true);
        }
        (None, leave)
    }
}

} // verus!
