//! The three stages in a row: source text in, printed text out.
use vstd::prelude::*;
use crate::error::{LexError, RuntimeError, SyntaxError};
use crate::interpreter::{evaluate, lines_view, run_program};
use crate::parser::{parse, parse_result};
use crate::scanner::{scan, scan_result};

verus! {

/// The stage that stopped a run, and its error.
#[derive(Clone, Copy, Debug, PartialEq, Eq, Structural)]
pub enum Failure {
    Lexical(LexError),
    Syntax(SyntaxError),
    Runtime(RuntimeError),
}

/// What a run of a source text leaves behind.
#[derive(Debug, PartialEq)]
pub struct Report {
    /// Everything that was printed before the run ended.
    pub output: String,
    /// The error that ended the run, if one did.
    pub failure: Option<Failure>,
}

/// A report as a mathematical value.
pub struct ReportView {
    pub output: Seq<char>,
    pub failure: Option<Failure>,
}

impl View for Report {
    type V = ReportView;

    open spec fn view(&self) -> ReportView {
        ReportView { output: self.output@, failure: self.failure }
    }
}

/// What running `source` on the lines `lines` prints, and how it ends: the
/// text is split into tokens, the tokens are parsed, and the program runs
/// from an empty name table. The first stage that fails ends the run.
pub open spec fn run_result(source: Seq<char>, lines: Seq<Seq<char>>) -> ReportView {
    match scan_result(source) {
        Err(e) => ReportView { output: Seq::empty(), failure: Some(Failure::Lexical(e)) },
        Ok(tokens) => match parse_result(tokens) {
            Err(e) => ReportView { output: Seq::empty(), failure: Some(Failure::Syntax(e)) },
            Ok(statements) => {
                let end = run_program(statements, lines);
                ReportView {
                    output: end.machine.output,
                    failure: match end.failure {
                        Some(e) => Some(Failure::Runtime(e)),
                        None => None,
                    },
                }
            },
        },
    }
}

/// Runs the program that `source` holds, with `input` as the lines that
/// its reads take.
pub fn run(source: &str, input: Vec<String>) -> (report: Report)
    ensures
        report@ == run_result(source@, lines_view(input@)),
{
    let tokens = match scan(source) {
        Ok(tokens) => tokens,
        Err(e) => {
            return Report { output: String::new(), failure: Some(Failure::Lexical(e)) };
        },
    };
    let ast = match parse(tokens) {
        Ok(ast) => ast,
        Err(e) => {
            return Report { output: String::new(), failure: Some(Failure::Syntax(e)) };
        },
    };
    let execution = evaluate(ast, input);
    match execution.result {
        Ok(()) => Report { output: execution.output, failure: None },
        Err(e) => Report { output: execution.output, failure: Some(Failure::Runtime(e)) },
    }
}

/// Two runs of one source text on the same lines of input print the same
/// and end the same: a run depends on nothing else.
pub proof fn lemma_run_is_repeatable(
    source: Seq<char>,
    lines: Seq<Seq<char>>,
    first: ReportView,
    second: ReportView,
)
    requires
        first == run_result(source, lines),
        second == run_result(source, lines),
    ensures
        first.output == second.output,
        first.failure == second.failure,
{
}

} // verus!
