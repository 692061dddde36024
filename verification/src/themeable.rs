//! How an application's section of the configuration resolves.

use either::Either;
use vstd::prelude::*;

use crate::config::Config;
use crate::disableable::{Disableable, Disabled};
use crate::operation::Operation;
use crate::plan::{Plan, PlanView};

verus! {

/// What a switch comes to: a plan, or the reason why there is none.
pub open spec fn outcome_view(outcome: Result<Plan, ConfigError>) -> Result<PlanView, Seq<char>> {
    match outcome {
        Ok(plan) => Ok(plan@),
        Err(error) => Err(error.spec_message()),
    }
}

/// An application whose appearance can be switched.
pub trait Themeable {
    /// The state that the configuration resolves to for this application.
    spec fn state_of(&self, config: &Config) -> ConfigState;

    /// Whether the application can be switched under this configuration.
    /// It cannot where a section is present without the settings that the
    /// application needs, nor where a setting cannot be put into words.
    spec fn ready(&self, config: &Config, operation: Operation) -> bool;

    /// What switching takes, or why it cannot be done.
    spec fn plan_of(&self, config: &Config, operation: Operation) -> Result<PlanView, Seq<char>>;

    /// Resolves the application's section of the configuration.
    fn config_state(&self, config: &Config) -> (state: ConfigState)
        ensures
            state == self.state_of(config),
    ;

    /// Tells whether the application can be switched under this
    /// configuration.
    fn can_switch(&self, config: &Config, operation: &Operation) -> (ready: bool)
        ensures
            ready == self.ready(config, *operation),
    ;

    /// Works out what switching the application takes.
    fn switch(&self, config: &Config, operation: &Operation) -> (outcome: Result<
        Plan,
        ConfigError,
    >)
        requires
            self.ready(config, *operation),
        ensures
            outcome_view(outcome) == self.plan_of(config, *operation),
    ;
}

/// The resolved applicability of an application for one run.
#[derive(Debug, Clone, Copy, PartialEq, Eq, Structural)]
pub enum ConfigState {
    /// No section is present, and the application cannot work without one.
    NoDefault,
    /// Built-in settings apply.
    Default,
    /// The section switches the application off.
    Disabled,
    /// The section's own settings apply.
    Enabled,
}

impl ConfigState {
    /// The state of a present section: off when its switch says so, else
    /// `Enabled` for full settings and `Default` for a bare switch.
    pub open spec fn of_section<T: Disableable>(section: Either<&T, &Disabled>) -> ConfigState {
        match section {
            Either::Left(settings) => if settings.is_disabled() {
                ConfigState::Disabled
            } else {
                ConfigState::Enabled
            },
            Either::Right(switch) => if switch.is_disabled() {
                ConfigState::Disabled
            } else {
                ConfigState::Default
            },
        }
    }

    /// The state of an application that needs settings of its own.
    pub open spec fn manual<T: Disableable>(section: Option<Either<&T, &Disabled>>) -> ConfigState {
        match section {
            None => ConfigState::NoDefault,
            Some(present) => Self::of_section(present),
        }
    }

    /// The state of an application that has built-in settings.
    pub open spec fn defaulted<T: Disableable>(
        section: Option<Either<&T, &Disabled>>,
    ) -> ConfigState {
        match section {
            None => ConfigState::Default,
            Some(present) => Self::of_section(present),
        }
    }

    fn resolve<T: Disableable>(section: Either<&T, &Disabled>) -> (state: Self)
        ensures
            state == Self::of_section(section),
    {
        match section {
            Either::Left(settings) => if settings.disabled() {
                ConfigState::Disabled
            } else {
                ConfigState::Enabled
            },
            Either::Right(switch) => if switch.disabled() {
                ConfigState::Disabled
            } else {
                ConfigState::Default
            },
        }
    }

    /// Resolves the section of an application that has no built-in settings.
    pub fn with_manual_config<T>(section: Option<Either<&T, &Disabled>>) -> (state: Self) where
        T: Disableable,

        ensures
            state == Self::manual(section),
    {
        match section {
            None => ConfigState::NoDefault,
            Some(present) => Self::resolve(present),
        }
    }

    /// Resolves the section of an application that has built-in settings.
    pub fn with_default_config<T>(section: Option<Either<&T, &Disabled>>) -> (state: Self) where
        T: Disableable,

        ensures
            state == Self::defaulted(section),
    {
        match section {
            None => ConfigState::Default,
            Some(present) => Self::resolve(present),
        }
    }
}

/// How a section resolves: an application with built-in settings never
/// lacks settings; one without lacks them exactly when it has no section;
/// and a section that is present resolves the same way for both.
pub proof fn lemma_resolution<T: Disableable>(section: Option<Either<&T, &Disabled>>)
    ensures
        ConfigState::defaulted(section) != ConfigState::NoDefault,
        ConfigState::manual(section) == ConfigState::NoDefault <==> section is None,
        section is None ==> ConfigState::defaulted(section) == ConfigState::Default,
        section is Some ==> ConfigState::manual(section) == ConfigState::defaulted(section),
{
}

/// Why an application could not be switched.
#[derive(Debug, Clone, Copy, PartialEq, Eq)]
pub enum ConfigError {
    /// The named application has no section and no built-in settings.
    RequiresManualConfig(&'static str),
}

impl ConfigError {
    /// The text of the error.
    pub open spec fn spec_message(self) -> Seq<char> {
        match self {
            ConfigError::RequiresManualConfig(app) => app@ + " requires manual configuration"@,
        }
    }

    /// Returns the error as a sentence for the user.
    pub fn message(&self) -> (text: String)
        ensures
            text@ == self.spec_message(),
    {
        match self {
            ConfigError::RequiresManualConfig(app) => {
                let mut text = String::from_str(app);
                text.append(" requires manual configuration");
                text
            },
        }
    }
}

} // verus!
