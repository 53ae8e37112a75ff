//! Equation providers and the per-pen style configuration.
//!
//! A provider stands for one rendering backend. The external-toolchain
//! backend assembles a complete LaTeX document here (fully verified string
//! work); running the toolchain itself is the host's job. The capability
//! probe asks the `which` crate whether the required binaries exist.

use vstd::prelude::*;

use crate::decimal::{push_decimal, push_thousandths, spec_decimal, spec_thousandths};
use crate::latex::{CompilationError, Environment, LatexContext, spec_preprocessed};

verus! {

/// Relies on `which::which`: resolves a binary name against the `PATH`
/// environment and returns `Ok` exactly when an executable of that name was
/// found. The outcome depends on the machine, so nothing is promised of it.
#[verifier::external_body]
fn binary_on_path(name: &str) -> bool {
    which::which(name).is_ok()
}

/// A capability probe: whether a backend's required executables are present
/// on this machine. Purely advisory — the worker never consults it.
pub trait ExecutableChecker {
    fn is_available(&self) -> bool;
}

/// Probe for the external LaTeX toolchain.
#[derive(Debug, Clone, Copy, Default)]
pub struct LatexExecutableChecker {}

impl ExecutableChecker for LatexExecutableChecker {
    /// Whether both stages of the external toolchain are installed.
    fn is_available(&self) -> bool {
        binary_on_path("dvisvgm") && binary_on_path("latex")
    }
}

/// The external-toolchain backend: typesets equation code by handing a
/// complete document to the LaTeX toolchain.
#[derive(Debug, Clone, Copy, Default)]
pub struct LatexEquationProvider {}

/// The preamble the LaTeX backend puts in front of every document: the
/// fixed package list, then the font size package parameterised with the
/// configured size in points.
pub open spec fn spec_latex_preamble(font_size: u32) -> Seq<char> {
    "\\usepackage{amsmath}\n\\usepackage{amssymb}\n\\usepackage[usenames]{color}\n\\usepackage{ifxetex}\n\\usepackage{ifluatex}\n\\usepackage{fix-cm}\n\\usepackage[fontsize="@
        + spec_decimal(font_size as nat) + "pt]{fontsize}\n\n"@
}

/// The document class line, parameterised with the configured page width in
/// millimetres (carried as thousandths of a millimetre).
pub open spec fn spec_latex_pre_preamble(page_width: u64) -> Seq<char> {
    "\\documentclass[varwidth="@ + spec_thousandths(page_width as nat)
        + "mm, border=10pt]{standalone}"@
}

impl LatexEquationProvider {
    /// Builds the typesetting context for the given style parameters:
    /// the parameterised preamble and document class line, and the fixed
    /// document delimiters.
    pub fn latex_context(&self, font_size: u32, page_width: u64) -> (r: LatexContext)
        ensures
            r.preamble@ == spec_latex_preamble(font_size),
            r.environment.pre_preamble@ == spec_latex_pre_preamble(page_width),
            r.environment.pre_code@ == "\\begin{document}"@,
            r.environment.post_code@ == "\\end{document}"@,
    {
        let mut preamble = String::new();
        preamble.append(
            "\\usepackage{amsmath}\n\\usepackage{amssymb}\n\\usepackage[usenames]{color}\n\\usepackage{ifxetex}\n\\usepackage{ifluatex}\n\\usepackage{fix-cm}\n\\usepackage[fontsize=",
        );
        push_decimal(&mut preamble, font_size as u64);
        preamble.append("pt]{fontsize}\n\n");

        let mut pre_preamble = String::new();
        pre_preamble.append("\\documentclass[varwidth=");
        push_thousandths(&mut pre_preamble, page_width);
        pre_preamble.append("mm, border=10pt]{standalone}");

        let mut pre_code = String::new();
        pre_code.append("\\begin{document}");
        let mut post_code = String::new();
        post_code.append("\\end{document}");

        proof {
            assert(preamble@ =~= spec_latex_preamble(font_size));
            assert(pre_preamble@ =~= spec_latex_pre_preamble(page_width));
            assert(pre_code@ =~= "\\begin{document}"@);
            assert(post_code@ =~= "\\end{document}"@);
        }
        LatexContext { preamble, environment: Environment { pre_preamble, pre_code, post_code } }
    }
}

/// The in-process backend: renders equation code through a single
/// long-lived renderer instance owned by whichever actor runs compilations.
#[derive(Debug, Clone, Copy, Default)]
pub struct MathJaxEquationProvider {}

impl MathJaxEquationProvider {
    /// Maps what the in-process renderer reported — vector markup, or an
    /// error message of its own — to a compilation outcome.
    pub fn fold_render_result(&self, render: Result<String, String>) -> (r: Result<
        String,
        CompilationError,
    >)
        ensures
            render is Ok ==> r == Ok::<String, CompilationError>(render->Ok_0),
            render is Err ==> r == Err::<String, CompilationError>(
                CompilationError::RendererFailure { detail: render->Err_0 },
            ),
    {
        match render {
            Ok(svg) => Ok(svg),
            Err(detail) => Err(CompilationError::RendererFailure { detail }),
        }
    }
}

/// An equation provider compiles equation code such as LaTeX and returns
/// vector markup.
#[derive(Debug, Clone, Copy)]
pub enum EquationProvider {
    LatexEquationProvider(LatexEquationProvider, LatexExecutableChecker),
}

impl Default for EquationProvider {
    /// The default provider: the external LaTeX toolchain.
    fn default() -> (r: EquationProvider)
        ensures
            r is LatexEquationProvider,
    {
        EquationProvider::LatexEquationProvider(
            LatexEquationProvider {},
            LatexExecutableChecker {},
        )
    }
}

impl ExecutableChecker for EquationProvider {
    /// Whether the selected backend's executables are present.
    fn is_available(&self) -> bool {
        match self {
            EquationProvider::LatexEquationProvider(_, exec) => exec.is_available(),
        }
    }
}

/// Style configuration captured with every compilation request: which
/// provider renders the code, the font size in points, and the page width
/// in thousandths of a millimetre.
#[derive(Debug, Clone, Copy)]
pub struct EquationConfig {
    pub equation_provider: EquationProvider,
    pub font_size: u32,
    /// Page width in thousandths of a millimetre (`64000` is 64 mm).
    pub page_width: u64,
}

impl Default for EquationConfig {
    /// The default style: LaTeX backend, 12 pt font, 64 mm page width.
    fn default() -> (r: EquationConfig)
        ensures
            r.equation_provider is LatexEquationProvider,
            r.font_size == 12,
            r.page_width == 64000,
    {
        EquationConfig {
            equation_provider: EquationProvider::LatexEquationProvider(
                LatexEquationProvider {},
                LatexExecutableChecker {},
            ),
            font_size: 12,
            page_width: 64000,
        }
    }
}

/// The complete document source that this configuration turns a piece of
/// equation code into before the toolchain runs.
pub open spec fn spec_latex_document(config: EquationConfig, code: Seq<char>) -> Seq<char> {
    spec_latex_pre_preamble(config.page_width) + spec_latex_preamble(config.font_size)
        + "\\begin{document}"@ + code + "\\end{document}"@
}

impl EquationConfig {
    /// Assembles the complete document source for `code` under this
    /// configuration, dispatching on the configured provider.
    pub fn latex_document(&self, code: &String) -> (r: String)
        ensures
            r@ == spec_latex_document(*self, code@),
    {
        match &self.equation_provider {
            EquationProvider::LatexEquationProvider(provider, _) => {
                let context = provider.latex_context(self.font_size, self.page_width);
                let document = context.preprocess_code(code);
                proof {
                    assert(document@ =~= spec_latex_document(*self, code@));
                }
                document
            },
        }
    }
}

} // verus!
