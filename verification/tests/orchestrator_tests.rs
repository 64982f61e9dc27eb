use prompt_pipeline::models::{model_lines, ModelPreset, ReasoningEffortPreset};
use prompt_pipeline::orchestrator::{
    CliConfigOverrides, Mode, Outcome, Phase, PromptCli, LOGIN_RESTRICTED_EXIT_CODE,
};

fn cli(list_models: bool, prompt: Option<&str>) -> PromptCli {
    PromptCli {
        config_overrides: CliConfigOverrides { raw_overrides: Vec::new() },
        model: None,
        system_prompt: None,
        list_models,
        prompt: prompt.map(str::to_string),
        debug: false,
    }
}

fn run(start: Phase, results: &[bool]) -> Vec<Phase> {
    let mut phase = start;
    let mut seen = vec![phase];
    for ok in results {
        phase = phase.advance(*ok);
        seen.push(phase);
    }
    seen
}

#[test]
fn sending_takes_its_steps_in_order() {
    let phases = run(cli(false, Some("hi")).start(), &[true, true, true, true]);
    assert_eq!(
        phases,
        vec![
            Phase::ReadPrompt,
            Phase::LoadConfig(Mode::SendPrompt),
            Phase::EnforceLogin,
            Phase::SendPrompt,
            Phase::Done(Outcome::Completed),
        ]
    );
    assert_eq!(cli(false, None).start(), Phase::ReadPrompt);
    assert_eq!(cli(false, Some("-")).start(), Phase::ReadPrompt);
}

#[test]
fn listing_skips_prompt_and_login() {
    let phases = run(cli(true, None).start(), &[true, true]);
    assert_eq!(
        phases,
        vec![
            Phase::LoadConfig(Mode::ListModels),
            Phase::ListModels,
            Phase::Done(Outcome::Completed),
        ]
    );
}

#[test]
fn listing_and_prompt_exclude_each_other() {
    assert_eq!(cli(true, Some("hi")).start(), Phase::Done(Outcome::ConflictingModes));
    assert_eq!(cli(true, Some("-")).start(), Phase::Done(Outcome::ConflictingModes));
}

#[test]
fn login_restriction_ends_the_run_with_its_own_outcome() {
    let phases = run(cli(false, Some("hi")).start(), &[true, true, false]);
    assert_eq!(phases[3], Phase::Done(Outcome::LoginRestricted));
    assert_eq!(LOGIN_RESTRICTED_EXIT_CODE, 1);
}

#[test]
fn any_other_failure_goes_to_the_caller() {
    assert_eq!(Phase::ReadPrompt.advance(false), Phase::Done(Outcome::Failed));
    assert_eq!(Phase::LoadConfig(Mode::SendPrompt).advance(false), Phase::Done(Outcome::Failed));
    assert_eq!(Phase::LoadConfig(Mode::ListModels).advance(false), Phase::Done(Outcome::Failed));
    assert_eq!(Phase::ListModels.advance(false), Phase::Done(Outcome::Failed));
    assert_eq!(Phase::SendPrompt.advance(false), Phase::Done(Outcome::Failed));
}

#[test]
fn a_finished_run_stays_finished() {
    for outcome in [
        Outcome::Completed,
        Outcome::Failed,
        Outcome::LoginRestricted,
        Outcome::ConflictingModes,
    ] {
        assert_eq!(Phase::Done(outcome).advance(true), Phase::Done(outcome));
        assert_eq!(Phase::Done(outcome).advance(false), Phase::Done(outcome));
    }
}

fn preset(model: &str, is_default: bool, efforts: &[(&str, &str)]) -> ModelPreset {
    ModelPreset {
        model: model.to_string(),
        is_default,
        description: format!("{model} description"),
        default_reasoning_effort: "medium".to_string(),
        supported_reasoning_efforts: efforts
            .iter()
            .map(|(effort, description)| ReasoningEffortPreset {
                effort: effort.to_string(),
                description: description.to_string(),
            })
            .collect(),
    }
}

#[test]
fn empty_catalog_is_a_single_line() {
    assert_eq!(model_lines(&Vec::new()), vec!["No models are currently available.".to_string()]);
}

#[test]
fn catalog_lists_every_preset() {
    let presets = vec![
        preset("alpha", true, &[("low", "fast"), ("high", "thorough")]),
        preset("beta", false, &[]),
        preset("gamma", false, &[("medium", "balanced")]),
    ];
    assert_eq!(
        model_lines(&presets),
        vec![
            "Available models:",
            "  alpha (default) - alpha description",
            "    Default reasoning effort: medium",
            "    Supported reasoning efforts:",
            "      - low: fast",
            "      - high: thorough",
            "  beta - beta description",
            "    Default reasoning effort: medium",
            "  gamma - gamma description",
            "    Default reasoning effort: medium",
            "    Supported reasoning efforts:",
            "      - medium: balanced",
        ]
    );
}

#[test]
fn configuration_is_asked_for_without_tools() {
    let mut command = cli(false, Some("hi"));
    command.model = Some("alpha".to_string());
    command.config_overrides.raw_overrides = vec!["a=1".to_string(), "b.c=\"x\"".to_string()];
    let request = command.config_request();
    assert_eq!(request.model, Some("alpha".to_string()));
    assert_eq!(request.raw_overrides, vec!["a=1".to_string(), "b.c=\"x\"".to_string()]);
    assert_eq!(request.include_apply_patch_tool, Some(false));
    assert_eq!(request.tools_web_search_request, Some(false));
    assert_eq!(request.experimental_sandbox_command_assessment, Some(false));
    assert_eq!(cli(true, None).config_request().model, None);
}
