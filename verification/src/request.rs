//! The generation request: what one call to the backend's generate endpoint
//! carries. Built fresh per query, with sampling pinned so that equal
//! prompts ask for reproducible completions.

use vstd::prelude::*;

verus! {

/// Sampling settings, held in hundredths so the whole request stays in
/// integers: a temperature of zero and a fixed nucleus-sampling parameter.
pub struct SamplingOptions {
    pub temperature_hundredths: u16,
    pub top_p_hundredths: u16,
}

/// The body of one generate call: model name, rendered prompt, the flag
/// that turns streaming off, the requested output format, and the sampling
/// settings.
pub struct OllamaRequest {
    pub model: String,
    pub prompt: String,
    pub stream: bool,
    pub format: String,
    pub options: Option<SamplingOptions>,
}

/// Whether a request carries the settings every query must use:
/// non-streaming, JSON-shaped output, temperature zero, nucleus sampling at
/// ninety-five hundredths.
pub open spec fn deterministic_request(r: OllamaRequest) -> bool {
    &&& r.stream == false
    &&& r.format@ == "json"@
    &&& r.options matches Some(o) && o.temperature_hundredths == 0 && o.top_p_hundredths == 95
}

/// Builds the request for one query: the given model and prompt under the
/// fixed deterministic settings.
pub fn build_generation_request(model: &str, prompt: String) -> (r: OllamaRequest)
    ensures
        r.model@ == model@,
        r.prompt == prompt,
        deterministic_request(r),
{
    OllamaRequest {
        model: model.to_owned(),
        prompt,
        stream: false,
        format: "json".to_owned(),
        options: Some(SamplingOptions { temperature_hundredths: 0, top_p_hundredths: 95 }),
    }
}

} // verus!
