//! The embodiment as a tool.

use vstd::prelude::*;
use vstd::string::*;
use crate::context_loader::{checked_persona, context_error_text};
use crate::embodiment::{
    embodiment_error_text, embodiment_text, generate_embodiment_content, persona_accepted,
    EmbodimentError, EmbodimentSources,
};
use crate::sparkle_loader::SparkleDefinition;
use crate::tools::{ToolError, ToolErrorKind};
use crate::types::{opt_text, Config, FullEmbodimentParams};

verus! {

/// What starts the report of an embodiment that could not be assembled.
pub const EMBODIMENT_FAILED: &'static str = "Failed to generate embodiment content: ";

/// The failure to report for an embodiment that could not be assembled.
pub fn embodiment_failure(error: &EmbodimentError) -> (e: ToolError)
    ensures
        e.kind == ToolErrorKind::Internal,
        e.message@ == EMBODIMENT_FAILED@ + embodiment_error_text(*error),
{
    let mut message = EMBODIMENT_FAILED.to_owned();
    let cause = error.message();
    message.append(cause.as_str());
    ToolError { kind: ToolErrorKind::Internal, message }
}

/// The embodiment document of a persona, or the failure to report.
pub fn embody_sparkle(
    definition: &SparkleDefinition,
    config: &Config,
    params: &FullEmbodimentParams,
    sources: &EmbodimentSources,
) -> (r: Result<String, ToolError>)
    ensures
        r is Ok <==> persona_accepted(*config, opt_text(params.sparkler)),
        r matches Ok(document) ==> document@ == embodiment_text(
            *definition,
            *config,
            *params,
            *sources,
        ),
        r matches Err(e) ==> e.kind == ToolErrorKind::Internal && (checked_persona(
            *config,
            opt_text(params.sparkler),
        ) matches Err(cause) && e.message@ == EMBODIMENT_FAILED@
            + "Failed to determine context directory: "@ + context_error_text(cause)),
{
    match generate_embodiment_content(definition, config, params, sources) {
        Ok(document) => Ok(document),
        Err(cause) => {
            let failure = embodiment_failure(&cause);
            assert(failure.message@ =~= EMBODIMENT_FAILED@
                + "Failed to determine context directory: "@ + context_error_text(
                checked_persona(*config, opt_text(params.sparkler))->Err_0,
            ));
            Err(failure)
        },
    }
}

} // verus!
