//! Switching one application by its name.

use vstd::prelude::*;

use crate::app::{
    get, known, lemma_plan_fails_without_settings, plan_for, ready_for, state_for,
};
use crate::config::Config;
use crate::operation::Operation;
use crate::plan::{wrap, Plan, PlanView};
use crate::platform::Platform;
use crate::themeable::{ConfigState, Themeable};

verus! {

/// What is done about one application.
#[derive(Debug, Clone, PartialEq, Eq)]
pub enum Outcome {
    /// Nothing: the name is not that of an application that can be
    /// switched here.
    Unknown,
    /// Nothing: the application needs settings of its own and has none;
    /// it was not asked for by name, so this is no failure.
    NeedsConfig,
    /// Nothing: the application is switched off.
    Disabled,
    /// The plan is to be carried out; `defaults` tells whether the
    /// built-in settings went into it.
    Switch { plan: Plan, defaults: bool },
}

/// The model of an [`Outcome`].
pub enum OutcomeView {
    Unknown,
    NeedsConfig,
    Disabled,
    Switch { plan: PlanView, defaults: bool },
}

impl View for Outcome {
    type V = OutcomeView;

    open spec fn view(&self) -> OutcomeView {
        match self {
            Outcome::Unknown => OutcomeView::Unknown,
            Outcome::NeedsConfig => OutcomeView::NeedsConfig,
            Outcome::Disabled => OutcomeView::Disabled,
            Outcome::Switch { plan, defaults } => OutcomeView::Switch {
                plan: plan@,
                defaults: *defaults,
            },
        }
    }
}

/// Why an application was not switched.
#[derive(Debug, Clone, PartialEq, Eq)]
pub enum SwitchError {
    /// The application was asked for by name, but needs settings of its
    /// own and has none.
    Skipped { name: String },
}

impl SwitchError {
    /// The text of the error.
    pub open spec fn spec_message(self) -> Seq<char> {
        match self {
            SwitchError::Skipped { name } => "skipping "@ + name@
                + " (needs manual configuration)"@,
        }
    }

    /// Returns the error as a sentence for the user.
    pub fn message(&self) -> (text: String)
        ensures
            text@ == self.spec_message(),
    {
        match self {
            SwitchError::Skipped { name } => wrap(
                "skipping ",
                name.as_str(),
                " (needs manual configuration)",
            ),
        }
    }
}

/// The model of what a switch comes to.
pub open spec fn result_view(result: Result<Outcome, SwitchError>) -> Result<
    OutcomeView,
    Seq<char>,
> {
    match result {
        Ok(outcome) => Ok(outcome@),
        Err(error) => Err(error.spec_message()),
    }
}

/// Whether the application of a name is switched with a plan.
pub open spec fn takes_part(config: &Config, name: Seq<char>, platform: Platform) -> bool {
    known(name, platform) && (state_for(name, config) == ConfigState::Default || state_for(
        name,
        config,
    ) == ConfigState::Enabled)
}

/// Whether the application of a name can be dealt with: it takes no part,
/// or its settings are such that it can be switched.
pub open spec fn sound(
    config: &Config,
    name: Seq<char>,
    operation: Operation,
    platform: Platform,
) -> bool {
    takes_part(config, name, platform) ==> ready_for(name, config, operation)
}

/// What is done about the application of a name.
///
/// An unknown name, a disabled application and one that lacks its
/// settings are passed over; the last is a failure where the application
/// was asked for by name.  Any other application is switched according to
/// its plan.
pub open spec fn decided(
    config: &Config,
    name: Seq<char>,
    was_requested: bool,
    operation: Operation,
    platform: Platform,
) -> Result<OutcomeView, Seq<char>> {
    if !known(name, platform) {
        Ok(OutcomeView::Unknown)
    } else {
        match state_for(name, config) {
            ConfigState::NoDefault => if was_requested {
                Err("skipping "@ + name + " (needs manual configuration)"@)
            } else {
                Ok(OutcomeView::NeedsConfig)
            },
            ConfigState::Disabled => Ok(OutcomeView::Disabled),
            state => Ok(
                OutcomeView::Switch {
                    plan: plan_for(name, config, operation)->Ok_0,
                    defaults: state == ConfigState::Default,
                },
            ),
        }
    }
}

/// A switch fails exactly when an application that was asked for by name
/// lacks its settings.
pub proof fn lemma_failure_is_missing_settings(
    config: &Config,
    name: Seq<char>,
    was_requested: bool,
    operation: Operation,
    platform: Platform,
)
    ensures
        decided(config, name, was_requested, operation, platform) is Err <==> (known(
            name,
            platform,
        ) && state_for(name, config) == ConfigState::NoDefault && was_requested),
{
}

/// Whether an application was asked for by name matters only where it
/// lacks its settings.
pub proof fn lemma_request_matters_without_settings_only(
    config: &Config,
    name: Seq<char>,
    operation: Operation,
    platform: Platform,
)
    requires
        !(known(name, platform) && state_for(name, config) == ConfigState::NoDefault),
    ensures
        decided(config, name, true, operation, platform) == decided(
            config,
            name,
            false,
            operation,
            platform,
        ),
{
}

/// Tells whether the application of a name can be dealt with.
pub fn is_sound(config: &Config, name: &str, operation: &Operation, platform: Platform) -> (ok:
    bool)
    ensures
        ok == sound(config, name@, *operation, platform),
{
    match get(name, platform) {
        None => true,
        Some(app) => match app.config_state(config) {
            ConfigState::Default | ConfigState::Enabled => app.can_switch(config, operation),
            _ => true,
        },
    }
}

/// Decides what is done about the application of a name.
pub fn switch(
    config: &Config,
    name: &str,
    was_requested: bool,
    operation: &Operation,
    platform: Platform,
) -> (result: Result<Outcome, SwitchError>)
    requires
        sound(config, name@, *operation, platform),
    ensures
        result_view(result) == decided(config, name@, was_requested, *operation, platform),
{
    let app = match get(name, platform) {
        None => {
            return Ok(Outcome::Unknown);
        },
        Some(app) => app,
    };
    proof {
        lemma_plan_fails_without_settings(name@, config, *operation, platform);
    }
    match app.config_state(config) {
        ConfigState::NoDefault => {
            if was_requested {
                Err(SwitchError::Skipped { name: String::from_str(name) })
            } else {
                Ok(Outcome::NeedsConfig)
            }
        },
        ConfigState::Disabled => Ok(Outcome::Disabled),
        ConfigState::Default => match app.switch(config, operation) {
            Ok(plan) => Ok(Outcome::Switch { plan, defaults: true }),
            Err(_) => unreached(),
        },
        ConfigState::Enabled => match app.switch(config, operation) {
            Ok(plan) => Ok(Outcome::Switch { plan, defaults: false }),
            Err(_) => unreached(),
        },
    }
}

/// Switches the application of a name if it can be dealt with; `None`
/// where it cannot.
pub fn try_switch(
    config: &Config,
    name: &str,
    was_requested: bool,
    operation: &Operation,
    platform: Platform,
) -> (result: Option<Result<Outcome, SwitchError>>)
    ensures
        result is Some <==> sound(config, name@, *operation, platform),
        result matches Some(done) ==> result_view(done) == decided(
            config,
            name@,
            was_requested,
            *operation,
            platform,
        ),
{
    if is_sound(config, name, operation, platform) {
        Some(switch(config, name, was_requested, operation, platform))
    } else {
        None
    }
}

/// Whether any of the switches failed.
pub open spec fn any_failed(failed: Seq<bool>) -> bool {
    exists|i: int| 0 <= i < failed.len() && failed[i]
}

/// Tells whether any of the switches failed, given for each whether it
/// did.
pub fn has_errors(failed: &Vec<bool>) -> (any: bool)
    ensures
        any == any_failed(failed@),
{
    let mut i: usize = 0;
    while i < failed.len()
        invariant
            i <= failed.len(),
            forall|k: int| 0 <= k < i ==> !failed[k],
        decreases failed.len() - i,
    {
        if failed[i] {
            return true;
        }
        i = i + 1;
    }
    false
}

} // verus!
