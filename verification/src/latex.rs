//! LaTeX document assembly and the evaluation of an external typesetting
//! pipeline's outcome.
//!
//! The pipeline itself — a typeset stage producing an intermediate device
//! file and a conversion stage producing vector markup — is executed by the
//! hosting process. Everything that can be decided from plain values is
//! decided here: how the complete document source is assembled around the
//! user's code, and which outcome each combination of stage results maps to.

use vstd::prelude::*;

verus! {

/// The fixed text surrounding a piece of equation code: what comes before
/// the preamble, between preamble and code, and after the code.
#[derive(Debug, Clone)]
pub struct Environment {
    pub pre_preamble: String,
    pub pre_code: String,
    pub post_code: String,
}

/// A complete typesetting context: a preamble plus the environment text it
/// is embedded in.
#[derive(Debug, Clone)]
pub struct LatexContext {
    pub preamble: String,
    pub environment: Environment,
}

/// The document source assembled from a context and a piece of code.
pub open spec fn spec_preprocessed(context: LatexContext, code: Seq<char>) -> Seq<char> {
    context.environment.pre_preamble@ + context.preamble@ + context.environment.pre_code@ + code
        + context.environment.post_code@
}

impl LatexContext {
    /// Assembles the complete document source around `latex_code`:
    /// pre-preamble, preamble, pre-code text, the code itself, post-code
    /// text, in that order.
    pub fn preprocess_code(&self, latex_code: &String) -> (r: String)
        ensures
            r@ == spec_preprocessed(*self, latex_code@),
    {
        let mut complete_code = self.environment.pre_preamble.clone();
        complete_code.append(self.preamble.as_str());
        complete_code.append(self.environment.pre_code.as_str());
        complete_code.append(latex_code.as_str());
        complete_code.append(self.environment.post_code.as_str());
        complete_code
    }
}

/// The two stages of the external toolchain: typesetting the document, then
/// converting the typeset output to vector markup.
#[derive(Debug, Clone, PartialEq, Eq, Structural)]
pub enum PipelineStage {
    Typeset,
    Convert,
}

/// What a single external stage reported back: whether it exited
/// successfully, and its captured output streams (decoded by the host).
#[derive(Debug, Clone)]
pub struct StageOutput {
    pub success: bool,
    pub stdout: String,
    pub stderr: String,
}

/// Why a single compilation request failed. Every kind carries enough to
/// build the message shown against the equation object; no failure ever
/// stops the worker itself.
#[derive(Debug, Clone)]
pub enum CompilationError {
    /// A required external tool is not installed.
    ToolMissing,
    /// An external stage exited unsuccessfully; carries the captured
    /// diagnostic text.
    ProcessFailed { stage: PipelineStage, diagnostics: String },
    /// A file or process could not be created, written or read.
    IoFailure,
    /// An output stream could not be decoded as text.
    EncodingFailure,
    /// The in-process renderer reported an error of its own.
    RendererFailure { detail: String },
}

/// The message text carried by an error, as shown against the object.
pub open spec fn spec_error_message(e: CompilationError) -> Seq<char> {
    match e {
        CompilationError::ToolMissing => "required typesetting tool not found"@,
        CompilationError::ProcessFailed { stage, diagnostics } => diagnostics@,
        CompilationError::IoFailure => "could not read or write compilation files"@,
        CompilationError::EncodingFailure => "could not decode tool output as text"@,
        CompilationError::RendererFailure { detail } => detail@,
    }
}

impl CompilationError {
    /// The message text for this error (process and renderer failures show
    /// their captured diagnostics verbatim).
    pub fn message(&self) -> (r: String)
        ensures
            r@ == spec_error_message(*self),
    {
        match self {
            CompilationError::ToolMissing => {
                let r = String::new();
                r.concat("required typesetting tool not found")
            },
            CompilationError::ProcessFailed { stage: _, diagnostics } => diagnostics.clone(),
            CompilationError::IoFailure => {
                let r = String::new();
                r.concat("could not read or write compilation files")
            },
            CompilationError::EncodingFailure => {
                let r = String::new();
                r.concat("could not decode tool output as text")
            },
            CompilationError::RendererFailure { detail } => detail.clone(),
        }
    }
}

/// The outcome that a run of the two-stage toolchain maps to.
///
/// `typeset` is the first stage's report, `None` when the host could not
/// even run it. `convert` is the second stage's report, `None` when it was
/// not run (because the first stage failed or could not be spawned) or could
/// not be spawned itself. `markup` is the produced vector file's content,
/// `None` when it could not be read.
pub open spec fn spec_pipeline_outcome(
    typeset: Option<StageOutput>,
    convert: Option<StageOutput>,
    markup: Option<String>,
) -> Result<String, CompilationError> {
    match typeset {
        None => Err(CompilationError::IoFailure),
        Some(first) => {
            if !first.success {
                // The typesetting tool writes its diagnostics to standard
                // output, so that is what failure reports carry.
                Err(
                    CompilationError::ProcessFailed {
                        stage: PipelineStage::Typeset,
                        diagnostics: first.stdout,
                    },
                )
            } else {
                match convert {
                    None => Err(CompilationError::IoFailure),
                    Some(second) => {
                        if !second.success {
                            // A conversion failure surfaces the *typeset*
                            // stage's captured error stream as a fallback
                            // diagnostic: the typesetting log is where the
                            // underlying problem tends to be described.
                            Err(
                                CompilationError::ProcessFailed {
                                    stage: PipelineStage::Convert,
                                    diagnostics: first.stderr,
                                },
                            )
                        } else {
                            match markup {
                                None => Err(CompilationError::IoFailure),
                                Some(svg) => Ok(svg),
                            }
                        }
                    },
                }
            }
        },
    }
}

/// Maps the reports of the two external stages and the final file read to a
/// single compilation outcome; see [`spec_pipeline_outcome`] for the exact
/// mapping, including the asymmetry that a conversion failure carries the
/// typeset stage's captured error stream.
pub fn evaluate_pipeline(
    typeset: Option<StageOutput>,
    convert: Option<StageOutput>,
    markup: Option<String>,
) -> (r: Result<String, CompilationError>)
    ensures
        r == spec_pipeline_outcome(typeset, convert, markup),
{
    match typeset {
        None => Err(CompilationError::IoFailure),
        Some(first) => {
            if !first.success {
                Err(
                    CompilationError::ProcessFailed {
                        stage: PipelineStage::Typeset,
                        diagnostics: first.stdout,
                    },
                )
            } else {
                match convert {
                    None => Err(CompilationError::IoFailure),
                    Some(second) => {
                        if !second.success {
                            Err(
                                CompilationError::ProcessFailed {
                                    stage: PipelineStage::Convert,
                                    diagnostics: first.stderr,
                                },
                            )
                        } else {
                            match markup {
                                None => Err(CompilationError::IoFailure),
                                Some(svg) => Ok(svg),
                            }
                        }
                    },
                }
            }
        },
    }
}

} // verus!
