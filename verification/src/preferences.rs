//! The preferences panel: which color scheme the user picked, whether
//! sub-tasks start expanded, and the Microsoft To Do service switch.
use vstd::prelude::*;

verus! {

/// The color scheme the user picked in the preferences panel.
#[derive(Clone, Copy, Debug, PartialEq, Eq, Structural)]
pub enum ColorScheme {
    Light,
    Dark,
    Default,
}

/// The color scheme requested from the platform style manager.
#[derive(Clone, Copy, Debug, PartialEq, Eq, Structural)]
pub enum StyleScheme {
    ForceLight,
    ForceDark,
    Default,
}

/// The persisted user preferences.
#[derive(Clone, Copy, Debug, PartialEq, Eq, Structural)]
pub struct Preferences {
    pub color_scheme: ColorScheme,
    pub expand_subtasks: bool,
}

/// The preferences used when none have been stored yet.
pub open spec fn initial_preferences() -> Preferences {
    Preferences { color_scheme: ColorScheme::Default, expand_subtasks: false }
}

impl Preferences {
    /// The preferences used when none have been stored yet.
    pub fn new() -> (p: Preferences)
        ensures
            p == initial_preferences(),
    {
        Preferences { color_scheme: ColorScheme::Default, expand_subtasks: false }
    }
}

/// An outside service that the user can switch on and off.
#[derive(Clone, Copy, Debug, PartialEq, Eq, Structural)]
pub enum Service {
    Microsoft,
}

/// The state of the preferences panel.
#[derive(Clone, Copy, Debug, PartialEq, Eq, Structural)]
pub struct PreferencesComponentModel {
    pub preferences: Preferences,
}

/// What the preferences panel is asked to do.
#[derive(Clone, Copy, Debug, PartialEq, Eq, Structural)]
pub enum PreferencesComponentInput {
    SetColorScheme(ColorScheme),
    ExpandSubTasks,
    MicrosoftLogin,
    MicrosoftLogout,
}

/// What the preferences panel tells the rest of the application.
#[derive(Clone, Copy, Debug, PartialEq, Eq, Structural)]
pub enum PreferencesComponentOutput {
    ServiceDisabled(Service),
    ExpandSubTasks(bool),
}

/// Work that the application carries out after the panel handled an input,
/// in the order given.
#[derive(Clone, Copy, Debug, PartialEq, Eq, Structural)]
pub enum PreferencesEffect {
    /// Ask the platform style manager for this color scheme.
    ApplyStyle(StyleScheme),
    /// Write these preferences to the configuration store.
    SavePreferences(Preferences),
    /// Send this output to the parent component.
    Emit(PreferencesComponentOutput),
    /// Start the login flow of the service.
    StartLogin(Service),
    /// Log out of the service; its result goes to `on_logout_result`.
    StartLogout(Service),
}

/// The style manager scheme that shows a chosen color scheme.
pub open spec fn spec_style_scheme(c: ColorScheme) -> StyleScheme {
    match c {
        ColorScheme::Light => StyleScheme::ForceLight,
        ColorScheme::Dark => StyleScheme::ForceDark,
        ColorScheme::Default => StyleScheme::Default,
    }
}

/// The row of the color scheme selector that shows a color scheme.
pub open spec fn spec_color_scheme_index(c: ColorScheme) -> u32 {
    match c {
        ColorScheme::Light => 0,
        ColorScheme::Dark => 1,
        ColorScheme::Default => 2,
    }
}

/// The color scheme picked by selecting a row of the selector; any row
/// past the second picks the default scheme.
pub open spec fn spec_color_scheme_from_index(i: u32) -> ColorScheme {
    if i == 0 {
        ColorScheme::Light
    } else if i == 1 {
        ColorScheme::Dark
    } else {
        ColorScheme::Default
    }
}

/// The preferences after the panel handled `message`.
pub open spec fn next_preferences(p: Preferences, message: PreferencesComponentInput) -> Preferences {
    match message {
        PreferencesComponentInput::SetColorScheme(c) => Preferences { color_scheme: c, ..p },
        PreferencesComponentInput::ExpandSubTasks => Preferences {
            expand_subtasks: !p.expand_subtasks,
            ..p
        },
        PreferencesComponentInput::MicrosoftLogin => p,
        PreferencesComponentInput::MicrosoftLogout => p,
    }
}

/// The work the application carries out after the panel, holding `p`,
/// handled `message`.
pub open spec fn preference_effects(
    p: Preferences,
    message: PreferencesComponentInput,
) -> Seq<PreferencesEffect> {
    let q = next_preferences(p, message);
    match message {
        PreferencesComponentInput::SetColorScheme(c) => seq![
            PreferencesEffect::ApplyStyle(spec_style_scheme(c)),
            PreferencesEffect::SavePreferences(q),
        ],
        PreferencesComponentInput::ExpandSubTasks => seq![
            PreferencesEffect::SavePreferences(q),
            PreferencesEffect::Emit(PreferencesComponentOutput::ExpandSubTasks(q.expand_subtasks)),
        ],
        PreferencesComponentInput::MicrosoftLogin => seq![
            PreferencesEffect::StartLogin(Service::Microsoft),
        ],
        PreferencesComponentInput::MicrosoftLogout => seq![
            PreferencesEffect::StartLogout(Service::Microsoft),
        ],
    }
}

/// The style manager scheme that shows a chosen color scheme.
pub fn style_scheme(c: ColorScheme) -> (s: StyleScheme)
    ensures
        s == spec_style_scheme(c),
{
    match c {
        ColorScheme::Light => StyleScheme::ForceLight,
        ColorScheme::Dark => StyleScheme::ForceDark,
        ColorScheme::Default => StyleScheme::Default,
    }
}

/// The row of the color scheme selector that shows a color scheme.
pub fn color_scheme_index(c: ColorScheme) -> (i: u32)
    ensures
        i == spec_color_scheme_index(c),
{
    match c {
        ColorScheme::Light => 0,
        ColorScheme::Dark => 1,
        ColorScheme::Default => 2,
    }
}

/// The color scheme picked by selecting row `i` of the selector.
pub fn color_scheme_from_index(i: u32) -> (c: ColorScheme)
    ensures
        c == spec_color_scheme_from_index(i),
{
    if i == 0 {
        ColorScheme::Light
    } else if i == 1 {
        ColorScheme::Dark
    } else {
        ColorScheme::Default
    }
}

/// The input sent when the service switch is turned on (`active`) or off.
pub fn service_switch_input(active: bool) -> (m: PreferencesComponentInput)
    ensures
        m == (if active {
            PreferencesComponentInput::MicrosoftLogin
        } else {
            PreferencesComponentInput::MicrosoftLogout
        }),
{
    if active {
        PreferencesComponentInput::MicrosoftLogin
    } else {
        PreferencesComponentInput::MicrosoftLogout
    }
}

/// What the panel reports once logging out of `service` finished: the
/// service is disabled when the logout succeeded, and nothing otherwise.
pub fn on_logout_result(service: Service, succeeded: bool) -> (out: Option<PreferencesComponentOutput>)
    ensures
        out == (if succeeded {
            Some(PreferencesComponentOutput::ServiceDisabled(service))
        } else {
            None::<PreferencesComponentOutput>
        }),
{
    if succeeded {
        Some(PreferencesComponentOutput::ServiceDisabled(service))
    } else {
        None
    }
}

/// The preferences the panel opens with: the stored ones when they could
/// be read, and the initial ones otherwise.
pub open spec fn opened_preferences(stored: Option<Preferences>) -> Preferences {
    match stored {
        Some(p) => p,
        None => initial_preferences(),
    }
}

impl PreferencesComponentModel {
    /// The panel's state when it opens: the stored preferences when they
    /// could be read, and the initial preferences otherwise.
    pub fn init(stored: Option<Preferences>) -> (m: PreferencesComponentModel)
        ensures
            m.preferences == opened_preferences(stored),
    {
        let preferences = match stored {
            Some(p) => p,
            None => Preferences::new(),
        };
        PreferencesComponentModel { preferences }
    }

    /// Handles one input: updates the preferences and returns the work the
    /// application carries out next, in order.
    pub fn update(&mut self, message: PreferencesComponentInput) -> (effects: Vec<PreferencesEffect>)
        ensures
            final(self).preferences == next_preferences(old(self).preferences, message),
            effects@ == preference_effects(old(self).preferences, message),
            message == PreferencesComponentInput::ExpandSubTasks ==> {
                &&& final(self).preferences.expand_subtasks == !old(self).preferences.expand_subtasks
                &&& final(self).preferences.color_scheme == old(self).preferences.color_scheme
                &&& effects@ == seq![
                    PreferencesEffect::SavePreferences(final(self).preferences),
                    PreferencesEffect::Emit(
                        PreferencesComponentOutput::ExpandSubTasks(!old(self).preferences.expand_subtasks),
                    ),
                ]
            },
    {
        let mut effects: Vec<PreferencesEffect> = Vec::new();
        match message {
            PreferencesComponentInput::SetColorScheme(color_scheme) => {
                effects.push(PreferencesEffect::ApplyStyle(style_scheme(color_scheme)));
                self.preferences.color_scheme = color_scheme;
                effects.push(PreferencesEffect::SavePreferences(self.preferences));
            },
            PreferencesComponentInput::ExpandSubTasks => {
                self.preferences.expand_subtasks = !self.preferences.expand_subtasks;
                effects.push(PreferencesEffect::SavePreferences(self.preferences));
                effects.push(
                    PreferencesEffect::Emit(
                        PreferencesComponentOutput::ExpandSubTasks(self.preferences.expand_subtasks),
                    ),
                );
            },
            PreferencesComponentInput::MicrosoftLogin => {
                effects.push(PreferencesEffect::StartLogin(Service::Microsoft));
            },
            PreferencesComponentInput::MicrosoftLogout => {
                effects.push(PreferencesEffect::StartLogout(Service::Microsoft));
            },
        }
        effects
    }
}

/// Selecting the row that shows a color scheme picks that color scheme
/// again, and every color scheme has one of the selector's three rows.
pub proof fn lemma_color_scheme_row_round_trip(c: ColorScheme)
    ensures
        spec_color_scheme_from_index(spec_color_scheme_index(c)) == c,
        spec_color_scheme_index(c) < 3,
{
}

/// A panel that opens with the preferences saved after an input holds the
/// same preferences as the panel that saved them.
pub proof fn lemma_reopened_panel_restores_saved_state(p: Preferences, message: PreferencesComponentInput, i: int)
    requires
        0 <= i < preference_effects(p, message).len(),
        preference_effects(p, message)[i] is SavePreferences,
    ensures
        opened_preferences(Some(preference_effects(p, message)[i]->SavePreferences_0))
            == next_preferences(p, message),
{
    lemma_saved_preferences_match_state(p, message);
}

/// Toggling "expand sub-tasks" twice gives back the preferences one started from.
pub proof fn lemma_expand_subtasks_twice_restores(p: Preferences)
    ensures
        next_preferences(
            next_preferences(p, PreferencesComponentInput::ExpandSubTasks),
            PreferencesComponentInput::ExpandSubTasks,
        ) == p,
{
}

/// Choosing a color scheme changes only the color scheme, and choosing the
/// same one again changes nothing more.
pub proof fn lemma_set_color_scheme_idempotent(p: Preferences, c: ColorScheme)
    ensures
        next_preferences(p, PreferencesComponentInput::SetColorScheme(c)).color_scheme == c,
        next_preferences(p, PreferencesComponentInput::SetColorScheme(c)).expand_subtasks
            == p.expand_subtasks,
        next_preferences(
            next_preferences(p, PreferencesComponentInput::SetColorScheme(c)),
            PreferencesComponentInput::SetColorScheme(c),
        ) == next_preferences(p, PreferencesComponentInput::SetColorScheme(c)),
{
}

/// Logging in or out of a service leaves the preferences as they were and
/// saves nothing.
pub proof fn lemma_service_inputs_keep_preferences(p: Preferences, message: PreferencesComponentInput)
    requires
        message == PreferencesComponentInput::MicrosoftLogin || message
            == PreferencesComponentInput::MicrosoftLogout,
    ensures
        next_preferences(p, message) == p,
        forall|i: int|
            0 <= i < preference_effects(p, message).len() ==> !(#[trigger] preference_effects(
                p,
                message,
            )[i] is SavePreferences),
{
}

/// Whatever the panel saves is exactly the state it holds after the input,
/// and every input that changes the preferences saves them.
pub proof fn lemma_saved_preferences_match_state(p: Preferences, message: PreferencesComponentInput)
    ensures
        forall|i: int|
            0 <= i < preference_effects(p, message).len() && (#[trigger] preference_effects(
                p,
                message,
            )[i] is SavePreferences) ==> preference_effects(p, message)[i]
                == PreferencesEffect::SavePreferences(next_preferences(p, message)),
        next_preferences(p, message) != p ==> preference_effects(p, message).contains(
            PreferencesEffect::SavePreferences(next_preferences(p, message)),
        ),
{
    let q = next_preferences(p, message);
    match message {
        PreferencesComponentInput::SetColorScheme(c) => {
            assert(preference_effects(p, message)[1] == PreferencesEffect::SavePreferences(q));
        },
        PreferencesComponentInput::ExpandSubTasks => {
            assert(preference_effects(p, message)[0] == PreferencesEffect::SavePreferences(q));
        },
        _ => {},
    }
}

/// Toggling "expand sub-tasks" flips the flag, keeps the color scheme,
/// saves the new preferences and tells the rest of the application the new
/// value of the flag (the opposite of the old one).
pub proof fn lemma_expand_subtasks_reports_new_value(p: Preferences)
    ensures
        next_preferences(p, PreferencesComponentInput::ExpandSubTasks).expand_subtasks
            == !p.expand_subtasks,
        next_preferences(p, PreferencesComponentInput::ExpandSubTasks).color_scheme
            == p.color_scheme,
        preference_effects(p, PreferencesComponentInput::ExpandSubTasks) == seq![
            PreferencesEffect::SavePreferences(
                Preferences { color_scheme: p.color_scheme, expand_subtasks: !p.expand_subtasks },
            ),
            PreferencesEffect::Emit(PreferencesComponentOutput::ExpandSubTasks(!p.expand_subtasks)),
        ],
{
}

/// Choosing a color scheme applies its style, keeps the sub-task flag,
/// and saves preferences holding the chosen scheme.
pub proof fn lemma_set_color_scheme_applies_and_saves(p: Preferences, c: ColorScheme)
    ensures
        preference_effects(p, PreferencesComponentInput::SetColorScheme(c)) == seq![
            PreferencesEffect::ApplyStyle(spec_style_scheme(c)),
            PreferencesEffect::SavePreferences(
                Preferences { color_scheme: c, expand_subtasks: p.expand_subtasks },
            ),
        ],
{
}

} // verus!
