//! How many packages the package managers know of.

use crate::host::{
    ask_run1, ask_run2, command, done, ends_well, finish, history, output_of, unknown, Answer,
    AnswerView, Platform, Step, StepView,
};
use crate::number::{decimal, lemma_decimal_digits, push_decimal};
use crate::text::{
    chars_of, count_lines_with_prefix, count_with_prefix, extend_str, lines, lines_of, neat, rows,
};
use vstd::prelude::*;

verus! {

/// A count with the manager that gave it: `"1523 (dpkg)"`.
pub open spec fn tally(count: nat, manager: Seq<char>) -> Seq<char> {
    decimal(count) + " ("@ + manager + ")"@
}

/// The packages in the output of `dpkg -l`: the lines that begin with `ii`.
pub open spec fn installed(text: Seq<char>) -> nat {
    count_with_prefix(lines_of(text), "ii"@)
}

/// The packages in a list with one package on each line.
pub open spec fn listed(text: Seq<char>) -> nat {
    lines_of(text).len()
}

/// The managers in their order: `dpkg -l`, `pacman -Q`, `rpm -qa`, and with
/// `brew` set `brew list --formula`, asked only where `brew --version`
/// succeeds. The first that succeeds gives the count, be it zero.
pub open spec fn managers(h: Seq<AnswerView>, brew: bool) -> StepView {
    if h.len() == 0 {
        command("dpkg", seq!["-l"])
    } else if h[0].output() is Some {
        StepView::Done(tally(installed(h[0].output()->0), "dpkg"@))
    } else if h.len() == 1 {
        command("pacman", seq!["-Q"])
    } else if h[1].output() is Some {
        StepView::Done(tally(listed(h[1].output()->0), "pacman"@))
    } else if h.len() == 2 {
        command("rpm", seq!["-qa"])
    } else if h[2].output() is Some {
        StepView::Done(tally(listed(h[2].output()->0), "rpm"@))
    } else if !brew {
        finish(None)
    } else if h.len() == 3 {
        command("brew", seq!["--version"])
    } else if h[3].output() is None {
        finish(None)
    } else if h.len() == 4 {
        command("brew", seq!["list", "--formula"])
    } else if h[4].output() is Some {
        StepView::Done(tally(listed(h[4].output()->0), "brew"@))
    } else {
        finish(None)
    }
}

/// The number of installed packages. Linux consults `dpkg`, `pacman` and
/// `rpm`, macOS these and then `brew`; Android and Windows have no source.
pub open spec fn package_count(platform: Platform, h: Seq<AnswerView>) -> StepView {
    match platform {
        Platform::Android => finish(None),
        Platform::Windows => finish(None),
        Platform::MacOs => managers(h, true),
        _ => managers(h, false),
    }
}

/// A count with its manager is neat.
pub proof fn lemma_tally_neat(count: nat, manager: Seq<char>)
    ensures
        neat(tally(count, manager)),
{
    reveal_strlit(")");
    lemma_decimal_digits(count);
    assert(tally(count, manager)[0] == decimal(count)[0]);
}

/// Where `dpkg -l` succeeds and `count` of the lines it prints begin with
/// `ii`, the value is the numeral of `count` followed by ` (dpkg)`, on every
/// platform that consults the package managers.
pub proof fn law_dpkg_count(platform: Platform, h: Seq<AnswerView>, text: Seq<char>, count: nat)
    requires
        platform is Linux || platform is MacOs || platform is Other,
        h.len() > 0,
        h[0].output() == Some(text),
        count == count_with_prefix(lines_of(text), "ii"@),
    ensures
        package_count(platform, h) == StepView::Done(decimal(count) + " (dpkg)"@),
{
    reveal_strlit(" (dpkg)");
    reveal_strlit(" (");
    reveal_strlit("dpkg");
    reveal_strlit(")");
    assert(" ("@ + "dpkg"@ + ")"@ =~= " (dpkg)"@);
    assert(tally(count, "dpkg"@) =~= decimal(count) + " (dpkg)"@);
}

/// The step that ends the probe with `count` and the manager's name.
pub fn done_with_tally(count: usize, manager: &str) -> (step: Step)
    ensures
        step@ == StepView::Done(tally(count as nat, manager@)),
        ends_well(step@),
{
    let mut out: Vec<char> = Vec::new();
    push_decimal(&mut out, count as u64);
    extend_str(&mut out, " (");
    extend_str(&mut out, manager);
    extend_str(&mut out, ")");
    proof {
        lemma_tally_neat(count as nat, manager@);
        assert(out@ =~= tally(count as nat, manager@));
    }
    done(&out)
}

/// The number of lines of `text` that begin with `ii`.
pub fn installed_in(text: &Vec<char>) -> (n: usize)
    ensures
        n == installed(text@),
{
    let table = lines(text);
    count_lines_with_prefix(&table, &chars_of("ii"))
}

/// The number of lines of `text`.
pub fn listed_in(text: &Vec<char>) -> (n: usize)
    ensures
        n == listed(text@),
{
    let table = lines(text);
    assert(rows(table@).len() == table.len());
    table.len()
}

/// The next step of the chain of package managers.
pub fn ask_managers(answers: &Vec<Answer>, brew: bool) -> (step: Step)
    ensures
        step@ == managers(history(answers@), brew),
        ends_well(step@),
{
    if answers.len() == 0 {
        return ask_run1("dpkg", "-l");
    }
    if let Some(text) = output_of(&answers[0]) {
        return done_with_tally(installed_in(&text), "dpkg");
    }
    if answers.len() == 1 {
        return ask_run1("pacman", "-Q");
    }
    if let Some(text) = output_of(&answers[1]) {
        return done_with_tally(listed_in(&text), "pacman");
    }
    if answers.len() == 2 {
        return ask_run1("rpm", "-qa");
    }
    if let Some(text) = output_of(&answers[2]) {
        return done_with_tally(listed_in(&text), "rpm");
    }
    if !brew {
        return unknown();
    }
    if answers.len() == 3 {
        return ask_run1("brew", "--version");
    }
    if output_of(&answers[3]).is_none() {
        return unknown();
    }
    if answers.len() == 4 {
        return ask_run2("brew", "list", "--formula");
    }
    match output_of(&answers[4]) {
        Some(text) => done_with_tally(listed_in(&text), "brew"),
        None => unknown(),
    }
}

/// The next step of the probe for the number of installed packages.
pub fn get_package_count(platform: Platform, answers: &Vec<Answer>) -> (step: Step)
    ensures
        step@ == package_count(platform, history(answers@)),
        ends_well(step@),
{
    match platform {
        Platform::Android => unknown(),
        Platform::Windows => unknown(),
        Platform::MacOs => ask_managers(answers, true),
        _ => ask_managers(answers, false),
    }
}

} // verus!
