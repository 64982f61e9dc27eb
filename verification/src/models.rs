//! The listing of the model presets that can be chosen from.

use vstd::prelude::*;

verus! {

/// One reasoning effort that a model supports.
#[derive(Clone, Debug, PartialEq, Eq)]
pub struct ReasoningEffortPreset {
    /// The label of the effort.
    pub effort: String,
    /// What choosing it means.
    pub description: String,
}

/// One model that can be chosen, as the catalog describes it.
#[derive(Clone, Debug, PartialEq, Eq)]
pub struct ModelPreset {
    /// The identifier of the model.
    pub model: String,
    /// Whether this is the model that is used when none is named.
    pub is_default: bool,
    /// What the model is good for.
    pub description: String,
    /// The label of the reasoning effort that the model uses by default.
    pub default_reasoning_effort: String,
    /// The reasoning efforts that can be chosen for the model.
    pub supported_reasoning_efforts: Vec<ReasoningEffortPreset>,
}

/// The views of a sequence of lines, in order.
pub open spec fn line_views(lines: Seq<String>) -> Seq<Seq<char>> {
    Seq::new(lines.len(), |i: int| lines[i]@)
}

/// The first line of a preset: its model, marked where it is the default,
/// and its description.
pub open spec fn preset_headline(preset: ModelPreset) -> Seq<char> {
    "  "@ + preset.model@ + if preset.is_default {
        " (default)"@
    } else {
        Seq::empty()
    } + " - "@ + preset.description@
}

/// The line that names a preset's default reasoning effort.
pub open spec fn default_effort_line(preset: ModelPreset) -> Seq<char> {
    "    Default reasoning effort: "@ + preset.default_reasoning_effort@
}

/// The line of one supported reasoning effort.
pub open spec fn effort_line(option: ReasoningEffortPreset) -> Seq<char> {
    "      - "@ + option.effort@ + ": "@ + option.description@
}

/// The lines of the supported reasoning efforts, one each, in order.
pub open spec fn effort_lines(options: Seq<ReasoningEffortPreset>) -> Seq<Seq<char>> {
    Seq::new(options.len(), |i: int| effort_line(options[i]))
}

/// The lines of one preset: headline, default effort and, where the preset
/// names supported efforts, a heading and a line for each of them.
pub open spec fn preset_lines(preset: ModelPreset) -> Seq<Seq<char>> {
    seq![preset_headline(preset), default_effort_line(preset)] + if
        preset.supported_reasoning_efforts@.len() > 0 {
        seq!["    Supported reasoning efforts:"@] + effort_lines(
            preset.supported_reasoning_efforts@,
        )
    } else {
        Seq::empty()
    }
}

/// The lines of all `presets`, preset after preset.
pub open spec fn catalog_lines(presets: Seq<ModelPreset>) -> Seq<Seq<char>>
    decreases presets.len(),
{
    if presets.len() == 0 {
        Seq::empty()
    } else {
        catalog_lines(presets.drop_last()) + preset_lines(presets.last())
    }
}

/// The whole listing: a single line where there is no preset, else a
/// heading and the lines of the presets.
pub open spec fn models_report(presets: Seq<ModelPreset>) -> Seq<Seq<char>> {
    if presets.len() == 0 {
        seq!["No models are currently available."@]
    } else {
        seq!["Available models:"@] + catalog_lines(presets)
    }
}

/// Adds the text `line` to `lines`.
fn push_line(lines: &mut Vec<String>, line: String)
    ensures
        line_views(final(lines)@) == line_views(old(lines)@).push(line@),
{
    lines.push(line);
    assert(line_views(lines@) =~= line_views(old(lines)@).push(line@));
}

/// Adds the lines of `preset` to `lines`.
fn push_preset_lines(lines: &mut Vec<String>, preset: &ModelPreset)
    ensures
        line_views(final(lines)@) == line_views(old(lines)@) + preset_lines(*preset),
{
    let mut headline = String::from_str("  ");
    headline.append(preset.model.as_str());
    if preset.is_default {
        headline.append(" (default)");
    }
    headline.append(" - ");
    headline.append(preset.description.as_str());
    assert(headline@ =~= preset_headline(*preset));
    push_line(lines, headline);

    let mut effort = String::from_str("    Default reasoning effort: ");
    effort.append(preset.default_reasoning_effort.as_str());
    push_line(lines, effort);

    let options = &preset.supported_reasoning_efforts;
    if options.len() > 0 {
        push_line(lines, String::from_str("    Supported reasoning efforts:"));
        let ghost base = line_views(lines@);
        let mut i: usize = 0;
        while i < options.len()
            invariant
                0 <= i <= options.len(),
                line_views(lines@) == base + effort_lines(options@.take(i as int)),
            decreases options.len() - i,
        {
            let option = &options[i];
            let mut line = String::from_str("      - ");
            line.append(option.effort.as_str());
            line.append(": ");
            line.append(option.description.as_str());
            push_line(lines, line);
            assert(line_views(lines@) =~= base + effort_lines(options@.take(i + 1)));
            i += 1;
        }
        assert(options@.take(i as int) =~= options@);
        assert(line_views(lines@) =~= line_views(old(lines)@) + preset_lines(*preset));
    } else {
        assert(line_views(lines@) =~= line_views(old(lines)@) + preset_lines(*preset));
    }
}

/// Renders the listing of `presets`, line by line and without line
/// terminators.
pub fn model_lines(presets: &Vec<ModelPreset>) -> (lines: Vec<String>)
    ensures
        line_views(lines@) == models_report(presets@),
{
    let mut lines: Vec<String> = Vec::new();
    if presets.len() == 0 {
        push_line(&mut lines, String::from_str("No models are currently available."));
        assert(line_views(lines@) =~= models_report(presets@));
        return lines;
    }
    push_line(&mut lines, String::from_str("Available models:"));
    let mut i: usize = 0;
    while i < presets.len()
        invariant
            0 <= i <= presets.len(),
            line_views(lines@) == seq!["Available models:"@] + catalog_lines(
                presets@.take(i as int),
            ),
        decreases presets.len() - i,
    {
        proof {
            assert(presets@.take(i + 1).drop_last() =~= presets@.take(i as int));
        }
        push_preset_lines(&mut lines, &presets[i]);
        assert(line_views(lines@) =~= seq!["Available models:"@] + catalog_lines(
            presets@.take(i + 1),
        ));
        i += 1;
    }
    assert(presets@.take(i as int) =~= presets@);
    lines
}

} // verus!
