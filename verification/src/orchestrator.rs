//! The orchestrator: which of the two modes a command line asks for, and the
//! order in which the steps of that mode are taken.

use vstd::prelude::*;

verus! {

/// Overrides of single configuration values, each as it was written on the
/// command line.
#[derive(Clone, Debug, PartialEq, Eq)]
pub struct CliConfigOverrides {
    pub raw_overrides: Vec<String>,
}

/// What the command line asks for.
#[derive(Clone, Debug, PartialEq, Eq)]
pub struct PromptCli {
    /// Overrides of single configuration values.
    pub config_overrides: CliConfigOverrides,
    /// The model to use for this request.
    pub model: Option<String>,
    /// Instructions that replace the default ones for this request.
    pub system_prompt: Option<String>,
    /// Whether to list the models that can be used instead of sending a
    /// prompt.
    pub list_models: bool,
    /// The prompt to send; `-` to read it from standard input.
    pub prompt: Option<String>,
    /// Whether to log the outgoing request and the incoming payloads.
    pub debug: bool,
}

/// What the configuration is loaded with: the model, if one was named, the
/// overrides of single values, and the tools, all of which are switched
/// off, since a single prompt is answered directly.
#[derive(Clone, Debug, PartialEq, Eq)]
pub struct ConfigRequest {
    /// The model to use, if the command line names one.
    pub model: Option<String>,
    /// Overrides of single configuration values.
    pub raw_overrides: Vec<String>,
    /// Whether the patch tool is offered to the model.
    pub include_apply_patch_tool: Option<bool>,
    /// Whether the web search tool is offered to the model.
    pub tools_web_search_request: Option<bool>,
    /// Whether commands are assessed before they run in the sandbox.
    pub experimental_sandbox_command_assessment: Option<bool>,
}

/// The exit status of a run that the login restrictions stopped.
pub const LOGIN_RESTRICTED_EXIT_CODE: i32 = 1;

/// The two things a run can be for.
#[derive(Clone, Copy, Debug, PartialEq, Eq, Structural)]
pub enum Mode {
    /// Print the model presets; no prompt is assembled and nothing is sent.
    ListModels,
    /// Send one prompt and render the response.
    SendPrompt,
}

/// How a run ended.
#[derive(Clone, Copy, Debug, PartialEq, Eq, Structural)]
pub enum Outcome {
    /// Everything asked for was done.
    Completed,
    /// A step failed; its failure goes to the caller as it is.
    Failed,
    /// The login restrictions forbid the request: their message goes to the
    /// secondary sink and the process ends with
    /// `LOGIN_RESTRICTED_EXIT_CODE`.
    LoginRestricted,
    /// The command line asks for both modes at once.
    ConflictingModes,
}

/// Where a run stands: the step to take now, or how the run ended.
#[derive(Clone, Copy, Debug, PartialEq, Eq, Structural)]
pub enum Phase {
    /// Assemble the prompt from the argument or from standard input.
    ReadPrompt,
    /// Load the configuration.
    LoadConfig(Mode),
    /// Print the presets that the current authentication mode may use.
    ListModels,
    /// Ask whether the login restrictions allow the request.
    EnforceLogin,
    /// Build the request, send it, and render the streamed response.
    SendPrompt,
    /// Nothing is left to do.
    Done(Outcome),
}

/// The phase in which a run starts. Listing the models and giving a
/// prompt exclude each other. A run that sends a prompt assembles it
/// before anything else.
pub open spec fn first_phase(list_models: bool, has_prompt: bool) -> Phase {
    if list_models && has_prompt {
        Phase::Done(Outcome::ConflictingModes)
    } else if list_models {
        Phase::LoadConfig(Mode::ListModels)
    } else {
        Phase::ReadPrompt
    }
}

/// The phase that follows `phase` once its step has succeeded or failed.
pub open spec fn next_phase(phase: Phase, succeeded: bool) -> Phase {
    match phase {
        Phase::Done(outcome) => Phase::Done(outcome),
        Phase::EnforceLogin => if succeeded {
            Phase::SendPrompt
        } else {
            Phase::Done(Outcome::LoginRestricted)
        },
        _ => if !succeeded {
            Phase::Done(Outcome::Failed)
        } else {
            match phase {
                Phase::ReadPrompt => Phase::LoadConfig(Mode::SendPrompt),
                Phase::LoadConfig(Mode::ListModels) => Phase::ListModels,
                Phase::LoadConfig(Mode::SendPrompt) => Phase::EnforceLogin,
                _ => Phase::Done(Outcome::Completed),
            }
        },
    }
}

/// The phase reached from `phase` when its step and those that follow end
/// as `results` say, in order.
pub open spec fn phase_after(phase: Phase, results: Seq<bool>) -> Phase
    decreases results.len(),
{
    if results.len() == 0 {
        phase
    } else {
        next_phase(phase_after(phase, results.drop_last()), results.last())
    }
}

impl PromptCli {
    /// What the configuration for this command line is loaded with.
    pub fn config_request(&self) -> (request: ConfigRequest)
        ensures
            request.model is Some <==> self.model is Some,
            request.model is Some ==> request.model->0@ == self.model->0@,
            request.raw_overrides@.len() == self.config_overrides.raw_overrides@.len(),
            forall|i: int|
                0 <= i < request.raw_overrides@.len() ==> (#[trigger] request.raw_overrides@[i])@
                    == self.config_overrides.raw_overrides@[i]@,
            request.include_apply_patch_tool == Some(false),
            request.tools_web_search_request == Some(false),
            request.experimental_sandbox_command_assessment == Some(false),
    {
        let model = match &self.model {
            Some(name) => Some(name.clone()),
            None => None,
        };
        let given = &self.config_overrides.raw_overrides;
        let mut raw_overrides: Vec<String> = Vec::new();
        let mut i: usize = 0;
        while i < given.len()
            invariant
                0 <= i <= given.len(),
                raw_overrides@.len() == i,
                forall|j: int| 0 <= j < i ==> (#[trigger] raw_overrides@[j])@ == given@[j]@,
            decreases given.len() - i,
        {
            raw_overrides.push(given[i].clone());
            i += 1;
        }
        ConfigRequest {
            model,
            raw_overrides,
            include_apply_patch_tool: Some(false),
            tools_web_search_request: Some(false),
            experimental_sandbox_command_assessment: Some(false),
        }
    }

    /// The phase in which the run for this command line starts.
    pub fn start(&self) -> (phase: Phase)
        ensures
            phase == first_phase(self.list_models, self.prompt is Some),
    {
        if self.list_models && self.prompt.is_some() {
            Phase::Done(Outcome::ConflictingModes)
        } else if self.list_models {
            Phase::LoadConfig(Mode::ListModels)
        } else {
            Phase::ReadPrompt
        }
    }
}

impl Phase {
    /// Moves on once the step of this phase has succeeded or failed.
    pub fn advance(self, succeeded: bool) -> (next: Phase)
        ensures
            next == next_phase(self, succeeded),
    {
        match self {
            Phase::Done(outcome) => Phase::Done(outcome),
            Phase::EnforceLogin => {
                if succeeded {
                    Phase::SendPrompt
                } else {
                    Phase::Done(Outcome::LoginRestricted)
                }
            },
            Phase::ReadPrompt => {
                if succeeded {
                    Phase::LoadConfig(Mode::SendPrompt)
                } else {
                    Phase::Done(Outcome::Failed)
                }
            },
            Phase::LoadConfig(Mode::ListModels) => {
                if succeeded {
                    Phase::ListModels
                } else {
                    Phase::Done(Outcome::Failed)
                }
            },
            Phase::LoadConfig(Mode::SendPrompt) => {
                if succeeded {
                    Phase::EnforceLogin
                } else {
                    Phase::Done(Outcome::Failed)
                }
            },
            Phase::ListModels | Phase::SendPrompt => {
                if succeeded {
                    Phase::Done(Outcome::Completed)
                } else {
                    Phase::Done(Outcome::Failed)
                }
            },
        }
    }
}

/// Whether `phase` belongs to a run that lists the models.
pub open spec fn lists_models(phase: Phase) -> bool {
    phase == Phase::LoadConfig(Mode::ListModels) || phase == Phase::ListModels || phase is Done
}

/// A run that lists the models never assembles a prompt, never asks for
/// the login restrictions and never sends anything, however its steps end.
pub proof fn lemma_listing_never_sends(has_prompt: bool, results: Seq<bool>)
    ensures
        lists_models(phase_after(first_phase(true, has_prompt), results)),
    decreases results.len(),
{
    if results.len() > 0 {
        lemma_listing_never_sends(has_prompt, results.drop_last());
    }
}

/// A prompt is sent only after it was assembled, the configuration was
/// loaded and the login restrictions allowed it: the run was not for
/// listing, and exactly these three steps came before, each with success.
pub proof fn lemma_send_follows_login(list_models: bool, has_prompt: bool, results: Seq<bool>)
    requires
        phase_after(first_phase(list_models, has_prompt), results) == Phase::SendPrompt,
    ensures
        !list_models,
        results == seq![true, true, true],
{
    if list_models {
        lemma_listing_never_sends(has_prompt, results);
    } else {
        lemma_sending_progress(results);
        assert(results =~= seq![true, true, true]);
    }
}

/// In a run that sends a prompt, a phase other than `Done` is reached by
/// successes only, and by as many as steps come before it.
proof fn lemma_sending_progress(results: Seq<bool>)
    ensures
        match phase_after(Phase::ReadPrompt, results) {
            Phase::ReadPrompt => results.len() == 0,
            Phase::LoadConfig(mode) => mode == Mode::SendPrompt && results.len() == 1,
            Phase::EnforceLogin => results.len() == 2,
            Phase::SendPrompt => results.len() == 3,
            Phase::ListModels => false,
            Phase::Done(_) => results.len() >= 1,
        },
        !(phase_after(Phase::ReadPrompt, results) is Done) ==> forall|i: int|
            0 <= i < results.len() ==> results[i],
    decreases results.len(),
{
    if results.len() > 0 {
        let before = results.drop_last();
        lemma_sending_progress(before);
        if !(phase_after(Phase::ReadPrompt, results) is Done) {
            assert forall|i: int| 0 <= i < results.len() implies results[i] by {
                if i < before.len() {
                    assert(results[i] == before[i]);
                }
            }
        }
    }
}

/// A run that has ended stays ended, with the same outcome.
pub proof fn lemma_done_is_final(outcome: Outcome, results: Seq<bool>)
    ensures
        phase_after(Phase::Done(outcome), results) == Phase::Done(outcome),
    decreases results.len(),
{
    if results.len() > 0 {
        lemma_done_is_final(outcome, results.drop_last());
    }
}

/// Every run ends: after four steps at most nothing is left to do.
pub proof fn lemma_run_ends(list_models: bool, has_prompt: bool, results: Seq<bool>)
    requires
        results.len() >= 4,
    ensures
        phase_after(first_phase(list_models, has_prompt), results) is Done,
{
    if list_models {
        lemma_listing_progress(has_prompt, results);
    } else {
        lemma_sending_progress(results);
    }
}

/// In a run that lists the models, a phase other than `Done` is reached
/// within two steps.
proof fn lemma_listing_progress(has_prompt: bool, results: Seq<bool>)
    ensures
        !(phase_after(first_phase(true, has_prompt), results) is Done) ==> results.len() <= 1,
        phase_after(first_phase(true, has_prompt), results) == Phase::LoadConfig(
            Mode::ListModels,
        ) ==> results.len() == 0,
    decreases results.len(),
{
    if results.len() > 0 {
        lemma_listing_progress(has_prompt, results.drop_last());
        lemma_listing_never_sends(has_prompt, results.drop_last());
    }
}

} // verus!
