//! The command line: which files a session reads and writes.

use crate::model::opt_text;
use crate::text::{same_text, texts};
use vstd::prelude::*;
use vstd::string::StringExecFns;

verus! {

/// The paths given on the command line.
#[derive(Debug, Clone, PartialEq, Eq)]
pub struct Args {
    pub input: Option<String>,
    pub output: Option<String>,
}

/// The paths as mathematical values.
pub struct ArgsView {
    pub input: Option<Seq<char>>,
    pub output: Option<Seq<char>>,
}

impl View for Args {
    type V = ArgsView;

    open spec fn view(&self) -> ArgsView {
        ArgsView { input: opt_text(self.input), output: opt_text(self.output) }
    }
}

impl Default for Args {
    /// No paths.
    fn default() -> (out: Args)
        ensures
            out@ == (ArgsView { input: None, output: None }),
    {
        Args { input: None, output: None }
    }
}

/// What the command line asks for.
#[derive(Debug, Clone, PartialEq, Eq)]
pub enum Invocation {
    /// A session on these paths.
    Run(Args),
    /// The usage text, and nothing else.
    Help,
}

/// An invocation as a mathematical value.
pub enum InvocationView {
    Run(ArgsView),
    Help,
}

impl View for Invocation {
    type V = InvocationView;

    open spec fn view(&self) -> InvocationView {
        match self {
            Invocation::Run(args) => InvocationView::Run(args@),
            Invocation::Help => InvocationView::Help,
        }
    }
}

/// Why a command line is refused.
#[derive(Debug, Clone, PartialEq, Eq)]
pub enum ArgError {
    /// `--input` stands last, without a path.
    MissingInputPath,
    /// `--output` stands last, without a path.
    MissingOutputPath,
    /// An argument that is no flag of the program.
    UnknownArgument(String),
}

/// An error as a mathematical value.
pub enum ArgErrorView {
    MissingInputPath,
    MissingOutputPath,
    UnknownArgument(Seq<char>),
}

impl View for ArgError {
    type V = ArgErrorView;

    open spec fn view(&self) -> ArgErrorView {
        match self {
            ArgError::MissingInputPath => ArgErrorView::MissingInputPath,
            ArgError::MissingOutputPath => ArgErrorView::MissingOutputPath,
            ArgError::UnknownArgument(arg) => ArgErrorView::UnknownArgument(arg@),
        }
    }
}

/// What an error says to the user.
pub open spec fn error_message(error: ArgErrorView) -> Seq<char> {
    match error {
        ArgErrorView::MissingInputPath => "--input 뒤에 경로가 필요합니다."@,
        ArgErrorView::MissingOutputPath => "--output 뒤에 경로가 필요합니다."@,
        ArgErrorView::UnknownArgument(arg) => "알 수 없는 인자: "@ + arg,
    }
}

impl ArgError {
    /// What the error says to the user.
    pub fn message(&self) -> (out: String)
        ensures
            out@ == error_message(self@),
    {
        match self {
            ArgError::MissingInputPath => String::from_str("--input 뒤에 경로가 필요합니다."),
            ArgError::MissingOutputPath => String::from_str("--output 뒤에 경로가 필요합니다."),
            ArgError::UnknownArgument(arg) => String::from_str("알 수 없는 인자: ").concat(
                arg.as_str(),
            ),
        }
    }
}

/// The meaning of the arguments from position `at` on, after `so_far` was
/// read. Arguments are read from left to right. `--input` and `--output`
/// each take the next argument as a path, whatever it is, and a later path
/// replaces an earlier one. `--help` or `-h` ends the reading at once. The
/// first argument that is none of these, or a flag without its path, is
/// the error.
pub open spec fn parse_from(args: Seq<Seq<char>>, at: int, so_far: ArgsView) -> Result<
    InvocationView,
    ArgErrorView,
>
    decreases args.len() - at,
{
    if at < 0 || at >= args.len() {
        Ok(InvocationView::Run(so_far))
    } else if args[at] == "--input"@ {
        if at + 1 < args.len() {
            parse_from(args, at + 2, ArgsView { input: Some(args[at + 1]), ..so_far })
        } else {
            Err(ArgErrorView::MissingInputPath)
        }
    } else if args[at] == "--output"@ {
        if at + 1 < args.len() {
            parse_from(args, at + 2, ArgsView { output: Some(args[at + 1]), ..so_far })
        } else {
            Err(ArgErrorView::MissingOutputPath)
        }
    } else if args[at] == "--help"@ || args[at] == "-h"@ {
        Ok(InvocationView::Help)
    } else {
        Err(ArgErrorView::UnknownArgument(args[at]))
    }
}

/// The meaning of a whole command line, the program's name left out.
pub open spec fn parsed(args: Seq<Seq<char>>) -> Result<InvocationView, ArgErrorView> {
    parse_from(args, 0, ArgsView { input: None, output: None })
}

/// The view of what parsing gives.
pub open spec fn outcome_view(outcome: Result<Invocation, ArgError>) -> Result<
    InvocationView,
    ArgErrorView,
> {
    match outcome {
        Ok(invocation) => Ok(invocation@),
        Err(error) => Err(error@),
    }
}

/// Reads the arguments of the program, its own name left out.
pub fn parse_args(args: &Vec<String>) -> (out: Result<Invocation, ArgError>)
    ensures
        outcome_view(out) == parsed(texts(args@)),
{
    let ghost all = texts(args@);
    let mut found = Args::default();
    let mut i: usize = 0;
    while i < args.len()
        invariant
            all == texts(args@),
            i <= args.len(),
            parsed(all) == parse_from(all, i as int, found@),
        decreases args.len() - i,
    {
        let arg = args[i].as_str();
        assert(all[i as int] == arg@);
        if same_text(arg, "--input") {
            if i + 1 < args.len() {
                assert(all[i + 1] == args@[i + 1]@);
                found.input = Some(args[i + 1].clone());
                i += 2;
            } else {
                return Err(ArgError::MissingInputPath);
            }
        } else if same_text(arg, "--output") {
            if i + 1 < args.len() {
                assert(all[i + 1] == args@[i + 1]@);
                found.output = Some(args[i + 1].clone());
                i += 2;
            } else {
                return Err(ArgError::MissingOutputPath);
            }
        } else if same_text(arg, "--help") || same_text(arg, "-h") {
            return Ok(Invocation::Help);
        } else {
            return Err(ArgError::UnknownArgument(args[i].clone()));
        }
    }
    Ok(Invocation::Run(found))
}

/// The usage text, line by line.
pub open spec fn help_view() -> Seq<Seq<char>> {
    seq![
        "vrm-tui 사용법"@,
        "  cargo run -- --input <path> --output <path>"@,
        "인자"@,
        "  --input   Unity에서 내보낸 VRM 입력 JSON 경로"@,
        "  --output  분석 결과 JSON 저장 경로"@,
    ]
}

/// The usage text, line by line.
pub fn help_lines() -> (out: Vec<String>)
    ensures
        texts(out@) == help_view(),
{
    let mut out: Vec<String> = Vec::new();
    out.push(String::from_str("vrm-tui 사용법"));
    out.push(String::from_str("  cargo run -- --input <path> --output <path>"));
    out.push(String::from_str("인자"));
    out.push(String::from_str("  --input   Unity에서 내보낸 VRM 입력 JSON 경로"));
    out.push(String::from_str("  --output  분석 결과 JSON 저장 경로"));
    assert(texts(out@) =~= help_view());
    out
}

} // verus!
