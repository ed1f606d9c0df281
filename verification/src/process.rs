//! A run in steps: it stops where a read finds no line, so that whoever
//! drives it can fetch one, and it hands out what was printed as it goes.
use vstd::prelude::*;
use crate::ast::{statements_view, Ast, Statement, StatementView};
use crate::error::RuntimeError;
use crate::interpreter::{
    eval_int, lines_view, run_block, run_loop, run_program, run_statement, Interpreter, MachineView,
    Outcome,
};
use crate::value::{MplValue, ValueView};

verus! {

/// What is left to do at one level of nesting.
pub enum Frame<'a> {
    /// The statements `statements[next..]`.
    Block { statements: &'a Vec<Statement>, next: usize },
    /// The rounds of a loop from `current` to `last`; none where `current`
    /// is `None`.
    Loop { identifier: &'a String, body: &'a Vec<Statement>, current: Option<i32>, last: i32 },
}

/// A frame as a mathematical value.
pub enum FrameView {
    Block { statements: Seq<StatementView>, next: nat },
    Loop { identifier: Seq<char>, body: Seq<StatementView>, current: int, last: int },
}

impl<'a> View for Frame<'a> {
    type V = FrameView;

    open spec fn view(&self) -> FrameView {
        match self {
            Frame::Block { statements, next } => FrameView::Block {
                statements: statements_view(statements@),
                next: *next as nat,
            },
            Frame::Loop { identifier, body, current, last } => FrameView::Loop {
                identifier: identifier@,
                body: statements_view(body@),
                current: match current {
                    Some(c) => *c as int,
                    None => last + 1,
                },
                last: *last as int,
            },
        }
    }
}

/// The values of a stack of frames, the innermost last.
pub open spec fn frames_view(frames: Seq<Frame>) -> Seq<FrameView> {
    Seq::new(frames.len(), |i: int| frames[i]@)
}

/// What a step reports.
#[derive(Clone, Copy, Debug, PartialEq, Eq, Structural)]
pub enum Status {
    /// There is more to do.
    Running,
    /// The next statement is a read and no line is left: nothing was
    /// done.
    NeedsLine,
    /// The last statement has been executed.
    Finished,
    /// The run was stopped by an error.
    Failed(RuntimeError),
}

/// A run in steps as a mathematical value.
pub struct ProcessView {
    /// What is left to do, the innermost level last.
    pub frames: Seq<FrameView>,
    pub machine: MachineView,
    /// The error that ended the run, if one did.
    pub failure: Option<RuntimeError>,
}

impl ProcessView {
    /// The run of `statements` before its first step.
    pub open spec fn start(statements: Seq<StatementView>, lines: Seq<Seq<char>>) -> ProcessView {
        ProcessView {
            frames: seq![FrameView::Block { statements, next: 0 }],
            machine: MachineView::start(lines),
            failure: None,
        }
    }

    /// The run with the lines `more` after those it has.
    pub open spec fn with_lines(self, more: Seq<Seq<char>>) -> ProcessView {
        ProcessView { machine: self.machine.with_lines(more), ..self }
    }

    /// The run stands where the run of `program` in one piece would stand:
    /// whatever lines are still to come, it ends on them as `program` does
    /// on all the lines from the first.
    pub open spec fn faithful(self, program: Seq<StatementView>) -> bool {
        forall|more: Seq<Seq<char>>| #[trigger]
            self.with_lines(more).rest() == run_program(program, self.machine.lines + more)
    }

    /// Going on with `frames` in `machine`.
    pub open spec fn proceed(self, frames: Seq<FrameView>, machine: MachineView) -> (
        ProcessView,
        Status,
    ) {
        (ProcessView { frames, machine, failure: None }, Status::Running)
    }

    /// Ended by `error` in `machine`.
    pub open spec fn halt(self, machine: MachineView, error: RuntimeError) -> (ProcessView, Status) {
        (
            ProcessView { frames: Seq::empty(), machine, failure: Some(error) },
            Status::Failed(error),
        )
    }

    /// One step, and what it reports. A step finishes a level that has
    /// nothing left, opens a loop, starts one round of a loop, or executes
    /// one statement that is no loop.
    pub open spec fn advance(self) -> (ProcessView, Status) {
        if self.failure is Some {
            (self, Status::Failed(self.failure->0))
        } else if self.frames.len() == 0 {
            (self, Status::Finished)
        } else {
            let below = self.frames.drop_last();
            match self.frames.last() {
                FrameView::Block { statements, next } => if next >= statements.len() {
                    self.proceed(below, self.machine)
                } else {
                    let after = below.push(FrameView::Block { statements, next: next + 1 });
                    match statements[next as int] {
                        StatementView::For { identifier, begin, end, statements: body } => match (
                            eval_int(begin, self.machine.names),
                            eval_int(end, self.machine.names),
                        ) {
                            (Err(e), _) => self.halt(self.machine, e),
                            (Ok(_), Err(e)) => self.halt(self.machine, e),
                            (Ok(first), Ok(last)) => if self.machine.names.contains_key(
                                identifier,
                            ) {
                                self.proceed(
                                    after.push(
                                        FrameView::Loop { identifier, body, current: first, last },
                                    ),
                                    self.machine,
                                )
                            } else {
                                self.halt(self.machine, RuntimeError::UndeclaredIdentifier)
                            },
                        },
                        statement => if statement is Read && self.machine.consumed
                            >= self.machine.lines.len() {
                            (self, Status::NeedsLine)
                        } else {
                            let end = run_statement(statement, self.machine);
                            match end.failure {
                                Some(e) => self.halt(end.machine, e),
                                None => self.proceed(after, end.machine),
                            }
                        },
                    }
                },
                FrameView::Loop { identifier, body, current, last } => if current > last {
                    self.proceed(below, self.machine)
                } else {
                    let bound = self.machine.assign(identifier, ValueView::Int(current));
                    match bound.failure {
                        Some(e) => self.halt(bound.machine, e),
                        None => self.proceed(
                            below.push(
                                FrameView::Loop { identifier, body, current: current + 1, last },
                            ).push(FrameView::Block { statements: body, next: 0 }),
                            bound.machine,
                        ),
                    }
                },
            }
        }
    }

    /// How the run ends if it goes on with the lines it has: where a read
    /// then finds none, it fails for want of input.
    pub open spec fn rest(self) -> Outcome
        decreases self.frames.len(),
    {
        if self.failure is Some {
            self.machine.failed(self.failure->0)
        } else if self.frames.len() == 0 {
            self.machine.done()
        } else {
            let level = match self.frames.last() {
                FrameView::Block { statements, next } => run_block(
                    statements,
                    next as int,
                    self.machine,
                ),
                FrameView::Loop { identifier, body, current, last } => run_loop(
                    identifier,
                    body,
                    current,
                    last,
                    self.machine,
                ),
            };
            if level.failure is Some {
                level
            } else {
                (ProcessView {
                    frames: self.frames.drop_last(),
                    machine: level.machine,
                    failure: None,
                }).rest()
            }
        }
    }
}

/// A run in steps does what the run in one piece does: before its first
/// step, what is left is the whole program.
pub proof fn lemma_start_is_whole_run(statements: Seq<StatementView>, lines: Seq<Seq<char>>)
    ensures
        ProcessView::start(statements, lines).rest() == run_program(statements, lines),
{
    let start = ProcessView::start(statements, lines);
    let end = run_block(statements, 0, start.machine);
    reveal_with_fuel(ProcessView::rest, 2);
    assert(start.frames.drop_last().len() == 0);
}

/// A step changes nothing of how the run ends with the lines it has. A
/// step that reports the end reports that very end, and one that asks for
/// a line stands where the run would fail for want of input.
pub proof fn lemma_step_keeps_the_rest(process: ProcessView)
    ensures
        process.advance().0.rest() == process.rest(),
        process.advance().1 == Status::Finished ==> process.rest()
            == process.advance().0.machine.done(),
        process.advance().1 matches Status::Failed(error) ==> process.rest()
            == process.advance().0.machine.failed(error),
        process.advance().1 == Status::NeedsLine ==> process.rest() == process.machine.failed(
            RuntimeError::InputExhausted,
        ),
{
    if process.failure is None && process.frames.len() > 0 {
        let below = process.frames.drop_last();
        let next = process.advance().0;
        match process.frames.last() {
            FrameView::Block { statements, next: at } => {
                if at < statements.len() {
                    let after = below.push(FrameView::Block { statements, next: at + 1 });
                    assert(after.drop_last() =~= below);
                    match statements[at as int] {
                        StatementView::For { identifier, begin, end, statements: body } => {
                            if next.failure is None {
                                assert(next.frames.drop_last() =~= after);
                                reveal_with_fuel(ProcessView::rest, 3);
                            }
                        },
                        _ => {
                            if process.advance().1 != Status::NeedsLine && next.failure is None {
                                assert(next.frames =~= after);
                            }
                        },
                    }
                }
            },
            FrameView::Loop { identifier, body, current, last } => {
                if current <= last && next.failure is None {
                    let turned = below.push(
                        FrameView::Loop { identifier, body, current: current + 1, last },
                    );
                    assert(next.frames.drop_last() =~= turned);
                    assert(turned.drop_last() =~= below);
                    reveal_with_fuel(ProcessView::rest, 3);
                }
            },
        }
    }
}

/// A step that does not ask for a line does the same whatever lines come
/// after those that the run has: it reads none of them.
pub proof fn lemma_step_ignores_later_lines(process: ProcessView, more: Seq<Seq<char>>)
    requires
        process.advance().1 != Status::NeedsLine,
    ensures
        process.with_lines(more).advance() == (
            process.advance().0.with_lines(more),
            process.advance().1,
        ),
{
}

/// A step keeps a run faithful to its program.
pub proof fn lemma_step_keeps_faithful(process: ProcessView, program: Seq<StatementView>)
    requires
        process.faithful(program),
    ensures
        process.advance().0.faithful(program),
{
    let next = process.advance().0;
    if process.advance().1 != Status::NeedsLine {
        assert forall|more: Seq<Seq<char>>| #[trigger]
            next.with_lines(more).rest() == run_program(
                program,
                next.machine.lines + more,
            ) by {
            lemma_step_ignores_later_lines(process, more);
            lemma_step_keeps_the_rest(process.with_lines(more));
            assert(process.with_lines(more).rest() == run_program(
                program,
                process.machine.lines + more,
            ));
            lemma_step_keeps_lines(process);
        }
    }
}

/// A step leaves the lines of input as they are.
pub proof fn lemma_step_keeps_lines(process: ProcessView)
    ensures
        process.advance().0.machine.lines == process.machine.lines,
{
}

/// One more line keeps a run faithful to its program.
pub proof fn lemma_line_keeps_faithful(
    process: ProcessView,
    program: Seq<StatementView>,
    line: Seq<char>,
)
    requires
        process.faithful(program),
    ensures
        process.with_lines(seq![line]).faithful(program),
{
    let supplied = process.with_lines(seq![line]);
    assert forall|more: Seq<Seq<char>>| #[trigger]
        supplied.with_lines(more).rest() == run_program(
            program,
            supplied.machine.lines + more,
        ) by {
        let all = seq![line] + more;
        assert(process.machine.lines + all =~= supplied.machine.lines + more);
        assert(supplied.with_lines(more) == process.with_lines(all));
        assert(process.with_lines(all).rest() == run_program(program, process.machine.lines + all));
    }
}

/// A run is faithful to its program before its first step.
pub proof fn lemma_start_is_faithful(program: Seq<StatementView>, lines: Seq<Seq<char>>)
    ensures
        ProcessView::start(program, lines).faithful(program),
{
    let start = ProcessView::start(program, lines);
    assert forall|more: Seq<Seq<char>>| #[trigger]
        start.with_lines(more).rest() == run_program(program, start.machine.lines + more) by {
        lemma_start_is_whole_run(program, lines + more);
        assert(start.with_lines(more) == ProcessView::start(program, lines + more));
    }
}

/// A faithful run ends as its program does on the lines that the run
/// has. Where it is over, that end is the state it is in; where it waits
/// for a line, the program fails there for want of input.
pub proof fn lemma_faithful_end(process: ProcessView, program: Seq<StatementView>)
    requires
        process.faithful(program),
    ensures
        process.rest() == run_program(program, process.machine.lines),
        process.advance().1 == Status::Finished ==> run_program(program, process.machine.lines)
            == process.advance().0.machine.done(),
        process.advance().1 matches Status::Failed(error) ==> run_program(
            program,
            process.machine.lines,
        ) == process.advance().0.machine.failed(error),
        process.advance().1 == Status::NeedsLine ==> run_program(program, process.machine.lines)
            == process.machine.failed(RuntimeError::InputExhausted),
{
    let none = Seq::<Seq<char>>::empty();
    assert(process.machine.lines + none =~= process.machine.lines);
    assert(process.with_lines(none) == process);
    assert(process.with_lines(none).rest() == run_program(program, process.machine.lines + none));
    lemma_step_keeps_the_rest(process);
}

/// A run of a program in steps.
pub struct Process<'a> {
    interpreter: Interpreter,
    stack: Vec<Frame<'a>>,
    failure: Option<RuntimeError>,
    program: Ghost<Seq<StatementView>>,
}

impl<'a> View for Process<'a> {
    type V = ProcessView;

    closed spec fn view(&self) -> ProcessView {
        ProcessView {
            frames: frames_view(self.stack@),
            machine: self.interpreter@,
            failure: self.failure,
        }
    }
}

impl<'a> Process<'a> {
    /// The state is well-formed and the run is faithful to its program.
    pub closed spec fn wf(&self) -> bool {
        self.interpreter.wf() && self@.faithful(self.program@)
    }

    /// The program that is run.
    pub closed spec fn program(&self) -> Seq<StatementView> {
        self.program@
    }

    /// A run stays faithful to its program.
    pub proof fn lemma_wf_is_faithful(&self)
        requires
            self.wf(),
        ensures
            self@.faithful(self.program()),
    {
    }

    /// What was printed and has already been handed out.
    pub closed spec fn delivered(&self) -> Seq<char> {
        self.interpreter.delivered()
    }

    /// The run of `ast` before its first step, with the lines it may read
    /// so far.
    pub fn new(ast: &'a Ast, input: Vec<String>) -> (process: Process<'a>)
        ensures
            process.wf(),
            process.program() == ast@,
            process@ == ProcessView::start(ast@, lines_view(input@)),
            process.delivered() == Seq::<char>::empty(),
    {
        let mut stack: Vec<Frame<'a>> = Vec::new();
        stack.push(Frame::Block { statements: &ast.statements, next: 0 });
        let process = Process {
            interpreter: Interpreter::new(input),
            stack,
            failure: None,
            program: Ghost(ast@),
        };
        assert(process@.frames =~= ProcessView::start(ast@, lines_view(input@)).frames);
        proof {
            lemma_start_is_faithful(ast@, lines_view(input@));
        }
        process
    }

    /// One more line for the reads to come.
    pub fn supply(&mut self, line: String)
        requires
            old(self).wf(),
        ensures
            final(self).wf(),
            final(self).program() == old(self).program(),
            final(self).delivered() == old(self).delivered(),
            final(self)@ == old(self)@.with_lines(seq![line@]),
    {
        self.interpreter.add_line(line);
        proof {
            assert(old(self)@.machine.lines.push(line@) =~= old(self)@.machine.lines + seq![line@]);
            lemma_line_keeps_faithful(old(self)@, self.program@, line@);
        }
    }

    /// Hands out what was printed since the last call.
    pub fn take_output(&mut self) -> (output: String)
        requires
            old(self).wf(),
        ensures
            final(self).wf(),
            final(self).program() == old(self).program(),
            final(self)@ == old(self)@,
            old(self)@.machine.output == old(self).delivered() + output@,
            final(self).delivered() == old(self)@.machine.output,
    {
        self.interpreter.take_output()
    }

    /// Ends the run with `error`.
    fn halt(&mut self, error: RuntimeError) -> (status: Status)
        ensures
            final(self).interpreter == old(self).interpreter,
            final(self).program == old(self).program,
            (final(self)@, status) == old(self)@.halt(old(self)@.machine, error),
    {
        self.stack = Vec::new();
        self.failure = Some(error);
        assert(self@.frames =~= Seq::empty());
        Status::Failed(error)
    }

    /// Does one step. Where it reports the end, the run has ended as the
    /// program does, run in one piece on the lines that were supplied.
    pub fn step(&mut self) -> (status: Status)
        requires
            old(self).wf(),
        ensures
            final(self).wf(),
            final(self).program() == old(self).program(),
            final(self).delivered() == old(self).delivered(),
            (final(self)@, status) == old(self)@.advance(),
            status == Status::Finished ==> run_program(
                final(self).program(),
                final(self)@.machine.lines,
            ) == final(self)@.machine.done(),
            status matches Status::Failed(error) ==> run_program(
                final(self).program(),
                final(self)@.machine.lines,
            ) == final(self)@.machine.failed(error),
            status == Status::NeedsLine ==> run_program(
                final(self).program(),
                final(self)@.machine.lines,
            ) == final(self)@.machine.failed(RuntimeError::InputExhausted),
    {
        let status = self.advance();
        proof {
            lemma_step_keeps_faithful(old(self)@, self.program@);
            lemma_faithful_end(old(self)@, self.program@);
            lemma_step_keeps_lines(old(self)@);
        }
        status
    }

    /// The step itself, as `ProcessView::advance` defines it.
    fn advance(&mut self) -> (status: Status)
        requires
            old(self).interpreter.wf(),
        ensures
            final(self).interpreter.wf(),
            final(self).program == old(self).program,
            final(self).delivered() == old(self).delivered(),
            (final(self)@, status) == old(self)@.advance(),
    {
        if let Some(e) = self.failure {
            return Status::Failed(e);
        }
        let frame = match self.stack.pop() {
            Some(frame) => frame,
            None => {
                return Status::Finished;
            },
        };
        assert(frames_view(self.stack@) =~= old(self)@.frames.drop_last());
        assert(frame@ == old(self)@.frames.last());
        match frame {
            Frame::Block { statements, next } => {
                if next >= statements.len() {
                    return Status::Running;
                }
                assert(statements_view(statements@)[next as int] == statements@[next as int]@);
                let statement = &statements[next];
                let after = Frame::Block { statements, next: next + 1 };
                match statement {
                    Statement::For { identifier, begin, end, statements: body } => {
                        let first = match self.interpreter.expect_int_expr(begin) {
                            Ok(i) => i,
                            Err(e) => {
                                return self.halt(e);
                            },
                        };
                        let last = match self.interpreter.expect_int_expr(end) {
                            Ok(i) => i,
                            Err(e) => {
                                return self.halt(e);
                            },
                        };
                        match self.interpreter.get_type(identifier) {
                            Ok(_) => {},
                            Err(e) => {
                                return self.halt(e);
                            },
                        }
                        self.stack.push(after);
                        self.stack.push(
                            Frame::Loop { identifier, body, current: Some(first), last },
                        );
                        assert(self@.frames =~= old(self)@.advance().0.frames);
                        Status::Running
                    },
                    _ => {
                        let reads = match statement {
                            Statement::Read(_) => true,
                            _ => false,
                        };
                        if reads && !self.interpreter.has_line() {
                            self.stack.push(frame);
                            assert(self@.frames =~= old(self)@.frames);
                            return Status::NeedsLine;
                        }
                        match self.interpreter.evaluate_statement(statement) {
                            Ok(()) => {
                                self.stack.push(after);
                                assert(self@.frames =~= old(self)@.advance().0.frames);
                                Status::Running
                            },
                            Err(e) => self.halt(e),
                        }
                    },
                }
            },
            Frame::Loop { identifier, body, current, last } => {
                let round = match current {
                    Some(round) => round,
                    None => {
                        return Status::Running;
                    },
                };
                if round > last {
                    return Status::Running;
                }
                match self.interpreter.assign(identifier, MplValue::Int(round)) {
                    Ok(()) => {},
                    Err(e) => {
                        return self.halt(e);
                    },
                }
                let following = if round < last {
                    Some(round + 1)
                } else {
                    None
                };
                self.stack.push(Frame::Loop { identifier, body, current: following, last });
                self.stack.push(Frame::Block { statements: body, next: 0 });
                assert(self@.frames =~= old(self)@.advance().0.frames);
                Status::Running
            },
        }
    }
}

} // verus!
