//! The platform a run is on, and the questions that a probe puts to the host.
//!
//! A probe never touches the host itself. It is a function from the answers
//! received so far to the next step: a question for the caller to carry out,
//! or the finished value.

use crate::text::{chars_of, clean, cleaned, neat, opt_view, string_of, texts, words};
use vstd::prelude::*;

verus! {

/// The operating environment that decides which sources a probe consults.
#[derive(Clone, Copy, Debug, PartialEq, Eq)]
pub enum Platform {
    Android,
    Linux,
    MacOs,
    Windows,
    Other,
}

/// The environment variable whose presence marks Android.
pub const ANDROID_ROOT: &'static str = "ANDROID_ROOT";

/// The platform of a run: Android wherever its mark, the variable
/// `ANDROID_ROOT`, is present in the environment, else the platform the
/// program was built for.
pub fn identify(android_mark: bool, built_for: Platform) -> (p: Platform)
    ensures
        p == if android_mark {
            Platform::Android
        } else {
            built_for
        },
{
    if android_mark {
        Platform::Android
    } else {
        built_for
    }
}

/// The value shown where every source of a fact has failed.
pub const UNKNOWN: &'static str = "Unknown";

/// A question to the host.
#[derive(Debug, PartialEq, Eq)]
pub enum Query {
    /// Run a program with arguments and capture its standard output as text.
    Run { program: String, args: Vec<String> },
    /// Read a file as text.
    Read { path: String },
    /// List the names of the entries of a directory.
    List { path: String },
}

/// What a `Query` holds, as sequences of characters.
pub enum QueryView {
    Run { program: Seq<char>, args: Seq<Seq<char>> },
    Read { path: Seq<char> },
    List { path: Seq<char> },
}

impl View for Query {
    type V = QueryView;

    open spec fn view(&self) -> QueryView {
        match self {
            Query::Run { program, args } => QueryView::Run {
                program: program@,
                args: texts(args@),
            },
            Query::Read { path } => QueryView::Read { path: path@ },
            Query::List { path } => QueryView::List { path: path@ },
        }
    }
}

/// The host's answer to a question.
#[derive(Debug, PartialEq, Eq)]
pub enum Answer {
    /// The program could not be started, or the file or directory not read.
    Unavailable,
    /// The program ran; `success` tells whether it ended with a zero status.
    Exited { success: bool, output: String },
    /// The text of a file.
    Contents(String),
    /// The names in a directory, in the order the host lists them.
    Entries(Vec<String>),
}

/// What an `Answer` holds, as sequences of characters.
pub enum AnswerView {
    Unavailable,
    Exited { success: bool, output: Seq<char> },
    Contents(Seq<char>),
    Entries(Seq<Seq<char>>),
}

impl View for Answer {
    type V = AnswerView;

    open spec fn view(&self) -> AnswerView {
        match self {
            Answer::Unavailable => AnswerView::Unavailable,
            Answer::Exited { success, output } => AnswerView::Exited {
                success: *success,
                output: output@,
            },
            Answer::Contents(text) => AnswerView::Contents(text@),
            Answer::Entries(names) => AnswerView::Entries(texts(names@)),
        }
    }
}

impl AnswerView {
    /// The output of a program that ran and succeeded.
    pub open spec fn output(self) -> Option<Seq<char>> {
        match self {
            AnswerView::Exited { success, output } => if success {
                Some(output)
            } else {
                None
            },
            _ => None,
        }
    }

    /// The text of a file that was read.
    pub open spec fn contents(self) -> Option<Seq<char>> {
        match self {
            AnswerView::Contents(text) => Some(text),
            _ => None,
        }
    }

    /// The names of a directory that was listed.
    pub open spec fn entries(self) -> Option<Seq<Seq<char>>> {
        match self {
            AnswerView::Entries(names) => Some(names),
            _ => None,
        }
    }

    /// The trimmed output of a program that succeeded, where it is not empty.
    pub open spec fn reading(self) -> Option<Seq<char>> {
        match self.output() {
            Some(text) => clean(text),
            None => None,
        }
    }

    /// The trimmed text of a file that was read, where it is not empty.
    pub open spec fn file_reading(self) -> Option<Seq<char>> {
        match self.contents() {
            Some(text) => clean(text),
            None => None,
        }
    }
}

/// The answers received so far, oldest first.
pub open spec fn history(answers: Seq<Answer>) -> Seq<AnswerView> {
    answers.map_values(|a: Answer| a@)
}

/// What a probe does next.
#[derive(Debug, PartialEq, Eq)]
pub enum Step {
    /// Put this question to the host and come back with its answer.
    Ask(Query),
    /// The probe has ended with this value.
    Done(String),
}

/// What a `Step` holds, as sequences of characters.
pub enum StepView {
    Ask(QueryView),
    Done(Seq<char>),
}

impl View for Step {
    type V = StepView;

    open spec fn view(&self) -> StepView {
        match self {
            Step::Ask(q) => StepView::Ask(q@),
            Step::Done(v) => StepView::Done(v@),
        }
    }
}

/// The question that runs `program` with `args`.
pub open spec fn run(program: Seq<char>, args: Seq<Seq<char>>) -> StepView {
    StepView::Ask(QueryView::Run { program, args })
}

/// The question that reads the file at `path`.
pub open spec fn read(path: Seq<char>) -> StepView {
    StepView::Ask(QueryView::Read { path })
}

/// The question that lists the directory at `path`.
pub open spec fn list(path: Seq<char>) -> StepView {
    StepView::Ask(QueryView::List { path })
}

/// The value of `found`, or the sentinel where there is none.
pub open spec fn or_unknown(found: Option<Seq<char>>) -> Seq<char> {
    match found {
        Some(v) => v,
        None => UNKNOWN@,
    }
}

/// The step that ends a probe with `found`, or with the sentinel.
pub open spec fn finish(found: Option<Seq<char>>) -> StepView {
    StepView::Done(or_unknown(found))
}

/// The question that runs the program named `program` with the words `args`.
pub open spec fn command(program: &str, args: Seq<&str>) -> StepView {
    run(program@, words(args))
}

/// The step that runs `program` with the arguments `args`.
pub fn ask_run(program: &str, args: Vec<&str>) -> (step: Step)
    ensures
        step@ == command(program, args@),
{
    let mut owned: Vec<String> = Vec::new();
    let mut i: usize = 0;
    while i < args.len()
        invariant
            i <= args.len(),
            owned.len() == i,
            forall|j: int| 0 <= j < i ==> owned@[j]@ == args@[j]@,
        decreases args.len() - i,
    {
        owned.push(args[i].to_owned());
        i += 1;
    }
    proof {
        assert(texts(owned@) =~= words(args@));
    }
    Step::Ask(Query::Run { program: program.to_owned(), args: owned })
}

/// The step that runs `program` without arguments.
pub fn ask_run0(program: &str) -> (step: Step)
    ensures
        step@ == command(program, Seq::empty()),
{
    let args: Vec<&str> = Vec::new();
    assert(args@ =~= Seq::empty());
    ask_run(program, args)
}

/// The step that runs `program a`.
pub fn ask_run1(program: &str, a: &str) -> (step: Step)
    ensures
        step@ == command(program, seq![a]),
{
    let args: Vec<&str> = vec![a];
    assert(args@ =~= seq![a]);
    ask_run(program, args)
}

/// The step that runs `program a b`.
pub fn ask_run2(program: &str, a: &str, b: &str) -> (step: Step)
    ensures
        step@ == command(program, seq![a, b]),
{
    let args: Vec<&str> = vec![a, b];
    assert(args@ =~= seq![a, b]);
    ask_run(program, args)
}

/// The step that runs `program a b c`.
pub fn ask_run3(program: &str, a: &str, b: &str, c: &str) -> (step: Step)
    ensures
        step@ == command(program, seq![a, b, c]),
{
    let args: Vec<&str> = vec![a, b, c];
    assert(args@ =~= seq![a, b, c]);
    ask_run(program, args)
}

/// The step that runs `program a b c d`.
pub fn ask_run4(program: &str, a: &str, b: &str, c: &str, d: &str) -> (step: Step)
    ensures
        step@ == command(program, seq![a, b, c, d]),
{
    let args: Vec<&str> = vec![a, b, c, d];
    assert(args@ =~= seq![a, b, c, d]);
    ask_run(program, args)
}

/// The step that reads the file at `path`.
pub fn ask_read(path: &str) -> (step: Step)
    ensures
        step@ == read(path@),
{
    Step::Ask(Query::Read { path: path.to_owned() })
}

/// The step that lists the directory at `path`.
pub fn ask_list(path: &str) -> (step: Step)
    ensures
        step@ == list(path@),
{
    Step::Ask(Query::List { path: path.to_owned() })
}

/// The step that ends a probe with the value `v`.
pub fn done(v: &Vec<char>) -> (step: Step)
    ensures
        step@ == StepView::Done(v@),
{
    Step::Done(string_of(v))
}

/// The step that ends a probe with the sentinel.
pub fn unknown() -> (step: Step)
    ensures
        step@ == StepView::Done(UNKNOWN@),
        step@ == finish(None),
{
    Step::Done(UNKNOWN.to_owned())
}

/// The step that ends a probe with `found`, or with the sentinel.
pub fn done_or_unknown(found: &Option<Vec<char>>) -> (step: Step)
    ensures
        step@ == finish(opt_view(*found)),
{
    match found {
        Some(v) => done(v),
        None => unknown(),
    }
}

/// The output of a program that ran and succeeded.
pub fn output_of(a: &Answer) -> (r: Option<Vec<char>>)
    ensures
        opt_view(r) == a@.output(),
{
    match a {
        Answer::Exited { success, output } => if *success {
            Some(chars_of(output.as_str()))
        } else {
            None
        },
        _ => None,
    }
}

/// The text of a file that was read.
pub fn contents_of(a: &Answer) -> (r: Option<Vec<char>>)
    ensures
        opt_view(r) == a@.contents(),
{
    match a {
        Answer::Contents(text) => Some(chars_of(text.as_str())),
        _ => None,
    }
}

/// The trimmed output of a program that succeeded, where it is not empty.
pub fn reading_of(a: &Answer) -> (r: Option<Vec<char>>)
    ensures
        opt_view(r) == a@.reading(),
        r matches Some(v) ==> neat(v@),
{
    match output_of(a) {
        Some(text) => cleaned(&text),
        None => None,
    }
}

/// The trimmed text of a file that was read, where it is not empty.
pub fn file_reading_of(a: &Answer) -> (r: Option<Vec<char>>)
    ensures
        opt_view(r) == a@.file_reading(),
        r matches Some(v) ==> neat(v@),
{
    match contents_of(a) {
        Some(text) => cleaned(&text),
        None => None,
    }
}

/// A value fit for display: the sentinel, or a text that is not empty and
/// has no white space at either end.
pub open spec fn presentable(v: Seq<char>) -> bool {
    v == UNKNOWN@ || neat(v)
}

/// A step that ends a probe ends it with a value fit for display.
pub open spec fn ends_well(step: StepView) -> bool {
    step matches StepView::Done(v) ==> presentable(v)
}

} // verus!
