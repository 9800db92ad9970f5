//! Application settings that can be switched off one by one.

use vstd::prelude::*;

verus! {

/// The name under which the application settings are stored.
pub const APP_SETTINGS_FIELD: &'static str = "global.acter.app_settings";

/// A setting that is on unless it has been switched off.
#[derive(Clone, Copy, Debug, PartialEq, Eq, Structural)]
pub struct SimpleSettingWithTurnOff {
    active: bool,
}

pub type NewsSettings = SimpleSettingWithTurnOff;

pub type PinsSettings = SimpleSettingWithTurnOff;

pub type EventsSettings = SimpleSettingWithTurnOff;

/// Why a builder could not build.
#[derive(Clone, Copy, Debug, PartialEq, Eq)]
pub enum BuilderError {
    /// The named field was never set.
    UninitializedField(&'static str),
}

impl Default for SimpleSettingWithTurnOff {
    fn default() -> (setting: Self)
        ensures
            setting.is_on(),
    {
        SimpleSettingWithTurnOff { active: true }
    }
}

impl SimpleSettingWithTurnOff {
    pub closed spec fn is_on(&self) -> bool {
        self.active
    }

    #[verifier::when_used_as_spec(is_on)]
    pub fn active(&self) -> (on: bool)
        ensures
            on == self.is_on(),
    {
        self.active
    }

    /// A builder that starts from this setting.
    pub fn updater(&self) -> (builder: SimpleSettingWithTurnOffBuilder)
        ensures
            builder.chosen() == Some(self.is_on()),
    {
        SimpleSettingWithTurnOffBuilder { active: Some(self.active) }
    }
}

/// Builds a [`SimpleSettingWithTurnOff`] field by field.
#[derive(Clone, Copy, Debug)]
pub struct SimpleSettingWithTurnOffBuilder {
    active: Option<bool>,
}

impl Default for SimpleSettingWithTurnOffBuilder {
    fn default() -> (builder: Self)
        ensures
            builder.chosen() is None,
    {
        SimpleSettingWithTurnOffBuilder { active: None }
    }
}

impl SimpleSettingWithTurnOffBuilder {
    /// What has been chosen for the field `active`, if anything.
    pub closed spec fn chosen(&self) -> Option<bool> {
        self.active
    }

    pub fn active(&mut self, value: bool) -> (builder: &mut Self)
        ensures
            builder.chosen() == Some(value),
            *final(self) == *final(builder),
    {
        self.active = Some(value);
        self
    }

    /// The setting as chosen; an error if nothing was chosen.
    pub fn build(&self) -> (built: Result<SimpleSettingWithTurnOff, BuilderError>)
        ensures
            match self.chosen() {
                Some(value) => built matches Ok(setting) && setting.is_on() == value,
                None => built matches Err(BuilderError::UninitializedField(field)) && field@
                    == "active"@,
            },
    {
        match self.active {
            Some(value) => Ok(SimpleSettingWithTurnOff { active: value }),
            None => Err(BuilderError::UninitializedField("active")),
        }
    }
}

/// Whether a setting that may be absent is on: an absent one is.
pub open spec fn effective(setting: Option<SimpleSettingWithTurnOff>) -> bool {
    match setting {
        Some(s) => s.is_on(),
        None => true,
    }
}

/// The settings of the application's sections. A section that has no
/// setting of its own is on.
#[derive(Clone, Copy, Debug, PartialEq, Eq)]
pub struct ActerAppSettingsContent {
    news: Option<NewsSettings>,
    pins: Option<PinsSettings>,
    events: Option<EventsSettings>,
}

/// The three optional settings of the application's sections.
pub struct AppSettingsView {
    pub news: Option<SimpleSettingWithTurnOff>,
    pub pins: Option<SimpleSettingWithTurnOff>,
    pub events: Option<SimpleSettingWithTurnOff>,
}

impl View for ActerAppSettingsContent {
    type V = AppSettingsView;

    closed spec fn view(&self) -> AppSettingsView {
        AppSettingsView { news: self.news, pins: self.pins, events: self.events }
    }
}

impl Default for ActerAppSettingsContent {
    fn default() -> (content: Self)
        ensures
            content@.news is None,
            content@.pins is None,
            content@.events is None,
    {
        ActerAppSettingsContent { news: None, pins: None, events: None }
    }
}

fn or_default(setting: Option<SimpleSettingWithTurnOff>) -> (chosen: SimpleSettingWithTurnOff)
    ensures
        chosen.is_on() == effective(setting),
        setting matches Some(s) ==> chosen == s,
{
    match setting {
        Some(s) => s,
        None => SimpleSettingWithTurnOff::default(),
    }
}

impl ActerAppSettingsContent {
    pub fn news(&self) -> (setting: NewsSettings)
        ensures
            setting.is_on() == effective(self@.news),
            self@.news matches Some(s) ==> setting == s,
    {
        or_default(self.news)
    }

    pub fn pins(&self) -> (setting: PinsSettings)
        ensures
            setting.is_on() == effective(self@.pins),
            self@.pins matches Some(s) ==> setting == s,
    {
        or_default(self.pins)
    }

    pub fn events(&self) -> (setting: EventsSettings)
        ensures
            setting.is_on() == effective(self@.events),
            self@.events matches Some(s) ==> setting == s,
    {
        or_default(self.events)
    }

    /// A builder that starts from these settings.
    pub fn updater(&self) -> (builder: ActerAppSettingsContentBuilder)
        ensures
            builder@ == (AppSettingsChoice {
                news: Some(self@.news),
                pins: Some(self@.pins),
                events: Some(self@.events),
            }),
    {
        ActerAppSettingsContentBuilder {
            news: Some(self.news),
            pins: Some(self.pins),
            events: Some(self.events),
        }
    }
}

/// What a builder of application settings has been given so far, field by
/// field.
pub struct AppSettingsChoice {
    pub news: Option<Option<SimpleSettingWithTurnOff>>,
    pub pins: Option<Option<SimpleSettingWithTurnOff>>,
    pub events: Option<Option<SimpleSettingWithTurnOff>>,
}

/// Builds an [`ActerAppSettingsContent`] field by field.
#[derive(Clone, Copy, Debug)]
pub struct ActerAppSettingsContentBuilder {
    news: Option<Option<NewsSettings>>,
    pins: Option<Option<PinsSettings>>,
    events: Option<Option<EventsSettings>>,
}

impl View for ActerAppSettingsContentBuilder {
    type V = AppSettingsChoice;

    closed spec fn view(&self) -> AppSettingsChoice {
        AppSettingsChoice { news: self.news, pins: self.pins, events: self.events }
    }
}

impl Default for ActerAppSettingsContentBuilder {
    fn default() -> (builder: Self)
        ensures
            builder@ == (AppSettingsChoice { news: None, pins: None, events: None }),
    {
        ActerAppSettingsContentBuilder { news: None, pins: None, events: None }
    }
}

impl ActerAppSettingsContentBuilder {
    pub fn news(&mut self, value: Option<NewsSettings>) -> (builder: &mut Self)
        ensures
            builder@ == (AppSettingsChoice { news: Some(value), ..old(self)@ }),
            *final(self) == *final(builder),
    {
        self.news = Some(value);
        self
    }

    pub fn pins(&mut self, value: Option<PinsSettings>) -> (builder: &mut Self)
        ensures
            builder@ == (AppSettingsChoice { pins: Some(value), ..old(self)@ }),
            *final(self) == *final(builder),
    {
        self.pins = Some(value);
        self
    }

    pub fn events(&mut self, value: Option<EventsSettings>) -> (builder: &mut Self)
        ensures
            builder@ == (AppSettingsChoice { events: Some(value), ..old(self)@ }),
            *final(self) == *final(builder),
    {
        self.events = Some(value);
        self
    }

    /// The settings as chosen; an error that names the first field, in the
    /// order news, pins, events, that was never set.
    pub fn build(&self) -> (built: Result<ActerAppSettingsContent, BuilderError>)
        ensures
            match (self@.news, self@.pins, self@.events) {
                (Some(news), Some(pins), Some(events)) => built matches Ok(content) && content@
                    == (AppSettingsView { news, pins, events }),
                (None, _, _) => built matches Err(BuilderError::UninitializedField(field))
                    && field@ == "news"@,
                (Some(_), None, _) => built matches Err(BuilderError::UninitializedField(field))
                    && field@ == "pins"@,
                (Some(_), Some(_), None) => built matches Err(
                    BuilderError::UninitializedField(field),
                ) && field@ == "events"@,
            },
    {
        let news = match self.news {
            Some(value) => value,
            None => return Err(BuilderError::UninitializedField("news")),
        };
        let pins = match self.pins {
            Some(value) => value,
            None => return Err(BuilderError::UninitializedField("pins")),
        };
        let events = match self.events {
            Some(value) => value,
            None => return Err(BuilderError::UninitializedField("events")),
        };
        Ok(ActerAppSettingsContent { news, pins, events })
    }
}

} // verus!
