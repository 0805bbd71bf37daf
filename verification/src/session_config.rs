//! What a client can choose in a session: its mode, how deeply its model thinks, and its
//! profile.
use vstd::prelude::*;

use crate::chat::ReasoningEffort;
use crate::model;
use crate::model::AgentMode;

verus! {

/// A mode as clients see it.
#[derive(Debug, PartialEq, Eq)]
pub struct SessionMode {
    pub id: String,
    pub name: String,
    pub description: Option<String>,
}

/// The mode of a session, and the modes that there are.
#[derive(Debug, PartialEq, Eq)]
pub struct SessionModeState {
    pub current_mode_id: String,
    pub available_modes: Vec<SessionMode>,
}

/// One choice of an option.
#[derive(Debug, PartialEq, Eq)]
pub struct SessionConfigSelectOption {
    pub value: String,
    pub name: String,
    pub description: Option<String>,
}

/// What an option is about.
#[derive(Debug, Clone, Copy, PartialEq, Eq, Structural)]
pub enum SessionConfigOptionCategory {
    Mode,
    ThoughtLevel,
}

/// An option of a session: its choices, and the one that holds.
#[derive(Debug, PartialEq, Eq)]
pub struct SessionConfigOption {
    pub id: String,
    pub name: String,
    pub description: String,
    pub category: Option<SessionConfigOptionCategory>,
    pub current_value: String,
    pub options: Vec<SessionConfigSelectOption>,
}

/// A profile that a session can use.
#[derive(Debug, PartialEq, Eq)]
pub struct ProfileMetadata {
    pub id: String,
    pub name: String,
    pub description: Option<String>,
}

/// A choice: its value, its name and what is said about it.
pub ghost struct Choice {
    pub value: Seq<char>,
    pub name: Seq<char>,
    pub description: Option<Seq<char>>,
}

/// An option: what it is called and its choices.
pub ghost struct ConfigOption {
    pub id: Seq<char>,
    pub name: Seq<char>,
    pub description: Seq<char>,
    pub category: Option<SessionConfigOptionCategory>,
    pub current: Seq<char>,
    pub choices: Seq<Choice>,
}

/// The characters of a string that may be missing.
pub open spec fn chars(text: Option<String>) -> Option<Seq<char>> {
    match text {
        Some(text) => Some(text@),
        None => None,
    }
}

impl View for SessionMode {
    type V = Choice;

    open spec fn view(&self) -> Choice {
        Choice { value: self.id@, name: self.name@, description: chars(self.description) }
    }
}

impl View for SessionConfigSelectOption {
    type V = Choice;

    open spec fn view(&self) -> Choice {
        Choice { value: self.value@, name: self.name@, description: chars(self.description) }
    }
}

impl View for ProfileMetadata {
    type V = Choice;

    open spec fn view(&self) -> Choice {
        Choice { value: self.id@, name: self.name@, description: chars(self.description) }
    }
}

impl View for SessionConfigOption {
    type V = ConfigOption;

    open spec fn view(&self) -> ConfigOption {
        ConfigOption {
            id: self.id@,
            name: self.name@,
            description: self.description@,
            category: self.category,
            current: self.current_value@,
            choices: self.options@.map_values(|choice: SessionConfigSelectOption| choice@),
        }
    }
}

/// The choice with the given texts.
pub open spec fn choice(value: Seq<char>, name: Seq<char>, description: Seq<char>) -> Choice {
    Choice { value, name, description: Some(description) }
}

/// The modes that there are.
pub open spec fn mode_choices() -> Seq<Choice> {
    seq![
        choice("build"@, "Build"@, "Full read/write mode"@),
        choice("plan"@, "Plan"@, "Read-only planning mode"@),
        choice("review"@, "Review"@, "Read-only review mode"@),
    ]
}

/// How deeply a model can think.
pub open spec fn effort_choices() -> Seq<Choice> {
    seq![
        choice("auto"@, "Auto"@, "Use model-specific defaults"@),
        choice("low"@, "Low"@, "Minimal thinking, fastest responses"@),
        choice("medium"@, "Medium"@, "Balanced thinking"@),
        choice("high"@, "High"@, "Thorough thinking"@),
        choice("max"@, "Max"@, "Deepest thinking, highest budget"@),
    ]
}

/// The value that stands for a depth of thinking. Where none was chosen, the model decides.
pub open spec fn effort_value(effort: Option<ReasoningEffort>) -> Seq<char> {
    match effort {
        None => "auto"@,
        Some(ReasoningEffort::Low) => "low"@,
        Some(ReasoningEffort::Medium) => "medium"@,
        Some(ReasoningEffort::High) => "high"@,
        Some(ReasoningEffort::Max) => "max"@,
    }
}

/// The option for the mode.
pub open spec fn mode_option(mode: AgentMode) -> ConfigOption {
    ConfigOption {
        id: "mode"@,
        name: "Session Mode"@,
        description: "Controls how the agent operates for this session"@,
        category: Some(SessionConfigOptionCategory::Mode),
        current: model::mode_id(mode),
        choices: mode_choices(),
    }
}

/// The option for the depth of thinking.
pub open spec fn effort_option(effort: Option<ReasoningEffort>) -> ConfigOption {
    ConfigOption {
        id: "reasoning_effort"@,
        name: "Reasoning Effort"@,
        description: "Controls reasoning depth for this session"@,
        category: Some(SessionConfigOptionCategory::ThoughtLevel),
        current: effort_value(effort),
        choices: effort_choices(),
    }
}

/// The option for the profile. Where none was chosen, the first one holds.
pub open spec fn profile_option(
    current: Option<Seq<char>>,
    profiles: Seq<ProfileMetadata>,
) -> ConfigOption {
    ConfigOption {
        id: "profile"@,
        name: "Profile"@,
        description: "Controls the active profile for this session"@,
        category: None,
        current: match current {
            Some(id) => id,
            None => profiles[0].id@,
        },
        choices: profiles.map_values(|profile: ProfileMetadata| profile@),
    }
}

/// The options of a session. The one for the profile is there when there are profiles.
pub open spec fn all_options(
    mode: AgentMode,
    effort: Option<ReasoningEffort>,
    current_profile: Option<Seq<char>>,
    profiles: Seq<ProfileMetadata>,
) -> Seq<ConfigOption> {
    let common = seq![mode_option(mode), effort_option(effort)];
    if profiles.len() > 0 {
        seq![profile_option(current_profile, profiles)] + common
    } else {
        common
    }
}

fn session_mode(id: &str, name: &str, description: &str) -> (mode: SessionMode)
    ensures
        mode@ == choice(id@, name@, description@),
{
    SessionMode {
        id: id.to_owned(),
        name: name.to_owned(),
        description: Some(description.to_owned()),
    }
}

fn select_option(value: &str, name: &str, description: &str) -> (option: SessionConfigSelectOption)
    ensures
        option@ == choice(value@, name@, description@),
{
    SessionConfigSelectOption {
        value: value.to_owned(),
        name: name.to_owned(),
        description: Some(description.to_owned()),
    }
}

/// The modes that there are.
pub fn all_session_modes() -> (modes: Vec<SessionMode>)
    ensures
        modes@.map_values(|mode: SessionMode| mode@) == mode_choices(),
{
    let mut modes: Vec<SessionMode> = Vec::new();
    modes.push(session_mode("build", "Build", "Full read/write mode"));
    modes.push(session_mode("plan", "Plan", "Read-only planning mode"));
    modes.push(session_mode("review", "Review", "Read-only review mode"));
    modes
}

/// The mode of a session, with all the modes that there are.
pub fn mode_state(mode: AgentMode) -> (state: SessionModeState)
    ensures
        state.current_mode_id@ == model::mode_id(mode),
        state.available_modes@.map_values(|mode: SessionMode| mode@) == mode_choices(),
{
    SessionModeState {
        current_mode_id: mode.as_str().to_string(),
        available_modes: all_session_modes(),
    }
}

/// The options of a session without profiles.
pub fn config_options(mode: AgentMode, reasoning_effort: Option<ReasoningEffort>) -> (options: Vec<
    SessionConfigOption,
>)
    ensures
        options@.map_values(|option: SessionConfigOption| option@) == all_options(
            mode,
            reasoning_effort,
            None,
            Seq::empty(),
        ),
{
    config_options_with_profiles(mode, reasoning_effort, None, &Vec::new())
}

fn effort_text(effort: Option<ReasoningEffort>) -> (value: String)
    ensures
        value@ == effort_value(effort),
{
    match effort {
        None => "auto".to_string(),
        Some(ReasoningEffort::Low) => "low".to_string(),
        Some(ReasoningEffort::Medium) => "medium".to_string(),
        Some(ReasoningEffort::High) => "high".to_string(),
        Some(ReasoningEffort::Max) => "max".to_string(),
    }
}

fn mode_select(mode: AgentMode) -> (option: SessionConfigOption)
    ensures
        option@ == mode_option(mode),
{
    let mut options: Vec<SessionConfigSelectOption> = Vec::new();
    options.push(select_option("build", "Build", "Full read/write mode"));
    options.push(select_option("plan", "Plan", "Read-only planning mode"));
    options.push(select_option("review", "Review", "Read-only review mode"));
    assert(options@.map_values(|choice: SessionConfigSelectOption| choice@) =~= mode_choices());
    SessionConfigOption {
        id: "mode".to_string(),
        name: "Session Mode".to_string(),
        description: "Controls how the agent operates for this session".to_string(),
        category: Some(SessionConfigOptionCategory::Mode),
        current_value: mode.as_str().to_string(),
        options,
    }
}

fn effort_select(effort: Option<ReasoningEffort>) -> (option: SessionConfigOption)
    ensures
        option@ == effort_option(effort),
{
    let mut options: Vec<SessionConfigSelectOption> = Vec::new();
    options.push(select_option("auto", "Auto", "Use model-specific defaults"));
    options.push(select_option("low", "Low", "Minimal thinking, fastest responses"));
    options.push(select_option("medium", "Medium", "Balanced thinking"));
    options.push(select_option("high", "High", "Thorough thinking"));
    options.push(select_option("max", "Max", "Deepest thinking, highest budget"));
    assert(options@.map_values(|choice: SessionConfigSelectOption| choice@) =~= effort_choices());
    SessionConfigOption {
        id: "reasoning_effort".to_string(),
        name: "Reasoning Effort".to_string(),
        description: "Controls reasoning depth for this session".to_string(),
        category: Some(SessionConfigOptionCategory::ThoughtLevel),
        current_value: effort_text(effort),
        options,
    }
}

fn profile_select(current_profile_id: Option<&str>, profiles: &Vec<ProfileMetadata>) -> (option:
    SessionConfigOption)
    requires
        profiles@.len() > 0,
    ensures
        option@ == profile_option(
            match current_profile_id {
                Some(id) => Some(id@),
                None => None,
            },
            profiles@,
        ),
{
    let current_value = match current_profile_id {
        Some(id) => id.to_owned(),
        None => profiles[0].id.clone(),
    };
    let mut options: Vec<SessionConfigSelectOption> = Vec::new();
    let mut i: usize = 0;
    while i < profiles.len()
        invariant
            i <= profiles@.len(),
            options@.len() == i,
            forall|j: int| 0 <= j < i ==> (#[trigger] options@[j])@ == profiles@[j]@,
        decreases profiles@.len() - i,
    {
        let profile = &profiles[i];
        options.push(
            SessionConfigSelectOption {
                value: profile.id.clone(),
                name: profile.name.clone(),
                description: profile.description.clone(),
            },
        );
        i = i + 1;
    }
    assert(options@.map_values(|choice: SessionConfigSelectOption| choice@)
        =~= profiles@.map_values(|profile: ProfileMetadata| profile@));
    SessionConfigOption {
        id: "profile".to_string(),
        name: "Profile".to_string(),
        description: "Controls the active profile for this session".to_string(),
        category: None,
        current_value,
        options,
    }
}

/// The options of a session.
pub fn config_options_with_profiles(
    mode: AgentMode,
    reasoning_effort: Option<ReasoningEffort>,
    current_profile_id: Option<&str>,
    profiles: &Vec<ProfileMetadata>,
) -> (options: Vec<SessionConfigOption>)
    ensures
        options@.map_values(|option: SessionConfigOption| option@) == all_options(
            mode,
            reasoning_effort,
            match current_profile_id {
                Some(id) => Some(id@),
                None => None,
            },
            profiles@,
        ),
{
    let mut options: Vec<SessionConfigOption> = Vec::new();
    if profiles.len() > 0 {
        options.push(profile_select(current_profile_id, profiles));
    }
    options.push(mode_select(mode));
    options.push(effort_select(reasoning_effort));
    options
}

/// `response` shows the mode and the options of a session.
pub open spec fn shows(
    response: (SessionModeState, Vec<SessionConfigOption>),
    mode: AgentMode,
    effort: Option<ReasoningEffort>,
) -> bool {
    &&& response.0.current_mode_id@ == model::mode_id(mode)
    &&& response.0.available_modes@.map_values(|mode: SessionMode| mode@) == mode_choices()
    &&& response.1@.map_values(|option: SessionConfigOption| option@) == all_options(
        mode,
        effort,
        None,
        Seq::empty(),
    )
}

/// What is answered when a session was resumed: its mode and its options. Where the session
/// did not tell how deeply its model thinks, the configured depth is shown.
pub fn resume_response(
    current_mode: AgentMode,
    reasoning_effort: Result<Option<ReasoningEffort>, String>,
    initial_effort: Option<ReasoningEffort>,
) -> (response: (SessionModeState, Vec<SessionConfigOption>))
    ensures
        shows(
            response,
            current_mode,
            match reasoning_effort {
                Ok(effort) => effort,
                Err(_) => initial_effort,
            },
        ),
{
    let effort = match reasoning_effort {
        Ok(effort) => effort,
        Err(_) => initial_effort,
    };
    (mode_state(current_mode), config_options(current_mode, effort))
}

/// The mode and the depth of thinking that hold are always among the choices.
pub proof fn law_current_values_are_choices(mode: AgentMode, effort: Option<ReasoningEffort>)
    ensures
        exists|i: int|
            0 <= i < mode_choices().len() && (#[trigger] mode_choices()[i]).value
                == mode_option(mode).current,
        exists|i: int|
            0 <= i < effort_choices().len() && (#[trigger] effort_choices()[i]).value
                == effort_option(effort).current,
{
    let m: int = match mode {
        AgentMode::Build => 0,
        AgentMode::Plan => 1,
        AgentMode::Review => 2,
    };
    assert(mode_choices()[m].value == model::mode_id(mode));
    let e: int = match effort {
        None => 0,
        Some(ReasoningEffort::Low) => 1,
        Some(ReasoningEffort::Medium) => 2,
        Some(ReasoningEffort::High) => 3,
        Some(ReasoningEffort::Max) => 4,
    };
    assert(effort_choices()[e].value == effort_value(effort));
}

/// The modes that a session offers, in order.
pub proof fn law_modes_are_offered_in_order()
    ensures
        mode_choices().len() == 3,
        mode_choices()[0] == (Choice {
            value: "build"@,
            name: "Build"@,
            description: Some("Full read/write mode"@),
        }),
        mode_choices()[1] == (Choice {
            value: "plan"@,
            name: "Plan"@,
            description: Some("Read-only planning mode"@),
        }),
        mode_choices()[2] == (Choice {
            value: "review"@,
            name: "Review"@,
            description: Some("Read-only review mode"@),
        }),
{
}

/// The efforts that a session offers, in order.
pub proof fn law_efforts_are_offered_in_order()
    ensures
        effort_choices().len() == 5,
        effort_choices()[0] == (Choice {
            value: "auto"@,
            name: "Auto"@,
            description: Some("Use model-specific defaults"@),
        }),
        effort_choices()[1] == (Choice {
            value: "low"@,
            name: "Low"@,
            description: Some("Minimal thinking, fastest responses"@),
        }),
        effort_choices()[2] == (Choice {
            value: "medium"@,
            name: "Medium"@,
            description: Some("Balanced thinking"@),
        }),
        effort_choices()[3] == (Choice {
            value: "high"@,
            name: "High"@,
            description: Some("Thorough thinking"@),
        }),
        effort_choices()[4] == (Choice {
            value: "max"@,
            name: "Max"@,
            description: Some("Deepest thinking, highest budget"@),
        }),
{
}

/// An effort is told by its name, and no effort as automatic.
pub proof fn law_efforts_have_their_names()
    ensures
        effort_value(None) == "auto"@,
        effort_value(Some(ReasoningEffort::Low)) == "low"@,
        effort_value(Some(ReasoningEffort::Medium)) == "medium"@,
        effort_value(Some(ReasoningEffort::High)) == "high"@,
        effort_value(Some(ReasoningEffort::Max)) == "max"@,
{
}

/// A session offers its mode and its effort with what they are now, and its profile before
/// them where there are profiles to choose from.
pub proof fn law_sessions_offer_mode_effort_and_profile(
    mode: AgentMode,
    effort: Option<ReasoningEffort>,
    current: Option<Seq<char>>,
    profiles: Seq<ProfileMetadata>,
    k: int,
)
    ensures
        ({
            let options = all_options(mode, effort, current, profiles);
            let at: int = if profiles.len() > 0 {
                1
            } else {
                0
            };
            &&& options.len() == at + 2
            &&& options[at].id == "mode"@
            &&& options[at].name == "Session Mode"@
            &&& options[at].description == "Controls how the agent operates for this session"@
            &&& options[at].category == Some(SessionConfigOptionCategory::Mode)
            &&& options[at].current == model::mode_id(mode)
            &&& options[at].choices == mode_choices()
            &&& options[at + 1].id == "reasoning_effort"@
            &&& options[at + 1].name == "Reasoning Effort"@
            &&& options[at + 1].description == "Controls reasoning depth for this session"@
            &&& options[at + 1].category == Some(SessionConfigOptionCategory::ThoughtLevel)
            &&& options[at + 1].current == effort_value(effort)
            &&& options[at + 1].choices == effort_choices()
            &&& profiles.len() > 0 ==> {
                &&& options[0].id == "profile"@
                &&& options[0].name == "Profile"@
                &&& options[0].description == "Controls the active profile for this session"@
                &&& options[0].category is None
                &&& current matches Some(id) ==> options[0].current == id
                &&& current is None ==> options[0].current == profiles[0].id@
                &&& options[0].choices.len() == profiles.len()
                &&& 0 <= k < profiles.len() ==> {
                    &&& options[0].choices[k].value == profiles[k].id@
                    &&& options[0].choices[k].name == profiles[k].name@
                    &&& profiles[k].description matches Some(words)
                        ==> options[0].choices[k].description == Some(words@)
                    &&& profiles[k].description is None ==> options[0].choices[k].description
                        is None
                }
            }
        }),
{
}

/// A resumed session shows the mode and the effort that it is in.
pub proof fn law_resumed_sessions_show_where_they_are(
    response: (SessionModeState, Vec<SessionConfigOption>),
    mode: AgentMode,
    effort: Option<ReasoningEffort>,
)
    requires
        shows(response, mode, effort),
    ensures
        response.0.current_mode_id@ == model::mode_id(mode),
        response.0.available_modes@.len() == 3,
        response.0.available_modes@[0].id@ == "build"@,
        response.0.available_modes@[1].id@ == "plan"@,
        response.0.available_modes@[2].id@ == "review"@,
        response.1@.len() == 2,
        response.1@[0].id@ == "mode"@,
        response.1@[0].current_value@ == model::mode_id(mode),
        response.1@[1].id@ == "reasoning_effort"@,
        response.1@[1].current_value@ == effort_value(effort),
{
    let modes = response.0.available_modes@.map_values(|mode: SessionMode| mode@);
    assert(modes.len() == response.0.available_modes@.len());
    assert(modes[0] == response.0.available_modes@[0]@);
    assert(modes[1] == response.0.available_modes@[1]@);
    assert(modes[2] == response.0.available_modes@[2]@);
    let options = response.1@.map_values(|option: SessionConfigOption| option@);
    assert(options.len() == response.1@.len());
    assert(options[0] == response.1@[0]@);
    assert(options[1] == response.1@[1]@);
}

/// What is offered is read as its fields say.
pub proof fn law_choices_are_read_as_they_are(
    mode: SessionMode,
    option: SessionConfigSelectOption,
    profile: ProfileMetadata,
    config: SessionConfigOption,
    k: int,
)
    requires
        0 <= k < config.options@.len(),
    ensures
        mode@.value == mode.id@,
        mode@.name == mode.name@,
        mode.description matches Some(words) ==> mode@.description == Some(words@),
        mode.description is None ==> mode@.description is None,
        option@.value == option.value@,
        option@.name == option.name@,
        option.description matches Some(words) ==> option@.description == Some(words@),
        option.description is None ==> option@.description is None,
        profile@.value == profile.id@,
        profile@.name == profile.name@,
        profile.description matches Some(words) ==> profile@.description == Some(words@),
        profile.description is None ==> profile@.description is None,
        config@.id == config.id@,
        config@.name == config.name@,
        config@.description == config.description@,
        config@.category == config.category,
        config@.current == config.current_value@,
        config@.choices.len() == config.options@.len(),
        config@.choices[k].value == config.options@[k].value@,
        config@.choices[k].name == config.options@[k].name@,
{
}

} // verus!
