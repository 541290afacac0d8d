//! The probes by name, and what holds of every one of them.

use crate::battery::{
    batteries, battery_status, get_battery_status, lemma_batteries_end_well, lemma_report_neat,
    report,
};
use crate::device::{
    device_manufacturer, device_model, get_device_manufacturer, get_device_model,
};
use crate::hardware::{
    cpu_model, get_cpu_model, get_gpu_info, get_resolution, gpu_info, lemma_first_renderer_neat,
    resolution,
};
use crate::host::{
    ends_well, history, Answer, AnswerView, Platform, QueryView, Step, StepView,
};
use crate::packages::{get_package_count, lemma_tally_neat, package_count, tally};
use crate::system::{
    get_hostname, get_kernel_version, get_os_info, hostname, kernel_version, os_info,
};
use crate::text::{clean, lemma_clean_is_neat, lines_of, neat};
use vstd::prelude::*;

verus! {

/// The facts that are found by asking the host questions.
#[derive(Clone, Copy, Debug, PartialEq, Eq)]
pub enum Probe {
    Hostname,
    OsName,
    Kernel,
    CpuModel,
    Gpu,
    Resolution,
    Packages,
    Manufacturer,
    Model,
    Battery,
}

/// The step of `probe` on `platform` after the answers `h`.
pub open spec fn probe_step(probe: Probe, platform: Platform, h: Seq<AnswerView>) -> StepView {
    match probe {
        Probe::Hostname => hostname(h),
        Probe::OsName => os_info(platform, h),
        Probe::Kernel => kernel_version(platform, h),
        Probe::CpuModel => cpu_model(platform, h),
        Probe::Gpu => gpu_info(platform, h),
        Probe::Resolution => resolution(platform, h),
        Probe::Packages => package_count(platform, h),
        Probe::Manufacturer => device_manufacturer(platform, h),
        Probe::Model => device_model(platform, h),
        Probe::Battery => battery_status(platform, h),
    }
}

/// A bound on the questions that a probe asks where `h` begins the answers:
/// five, and two more for each entry where the first answer lists entries.
pub open spec fn most_questions(h: Seq<AnswerView>) -> nat {
    if h.len() > 0 && h[0].entries() is Some {
        5 + 2 * h[0].entries()->0.len()
    } else {
        5
    }
}

/// The next step of `probe` on `platform`, after the answers to its earlier
/// questions. A value that ends the probe is the sentinel or a text that is
/// not empty and has no white space at its ends.
pub fn next_step(probe: Probe, platform: Platform, answers: &Vec<Answer>) -> (step: Step)
    ensures
        step@ == probe_step(probe, platform, history(answers@)),
        ends_well(step@),
        answers.len() >= most_questions(history(answers@)) ==> step is Done,
{
    proof {
        if answers.len() >= most_questions(history(answers@)) {
            law_probe_ends(probe, platform, history(answers@));
        }
    }
    match probe {
        Probe::Hostname => get_hostname(answers),
        Probe::OsName => get_os_info(platform, answers),
        Probe::Kernel => get_kernel_version(platform, answers),
        Probe::CpuModel => get_cpu_model(platform, answers),
        Probe::Gpu => get_gpu_info(platform, answers),
        Probe::Resolution => get_resolution(platform, answers),
        Probe::Packages => get_package_count(platform, answers),
        Probe::Manufacturer => get_device_manufacturer(platform, answers),
        Probe::Model => get_device_model(platform, answers),
        Probe::Battery => get_battery_status(platform, answers),
    }
}

/// Every value that a probe ends with is fit for display: it is the sentinel,
/// or it is not empty and has no white space at either end.
pub proof fn law_probe_ends_well(probe: Probe, platform: Platform, h: Seq<AnswerView>)
    ensures
        ends_well(probe_step(probe, platform, h)),
{
    assert forall|s: Seq<char>| (#[trigger] clean(s)) is Some implies neat(clean(s)->0) by {
        lemma_clean_is_neat(s);
    }
    match probe {
        Probe::Hostname => {
            reveal_strlit("localhost");
        },
        Probe::OsName => {
            reveal_strlit("Android ");
            reveal_strlit("Android");
            reveal_strlit(" ");
            if platform is MacOs && h.len() > 1 && h[0].reading() is Some && h[1].reading()
                is Some {
                let name = h[0].reading()->0;
                let version = h[1].reading()->0;
                assert((name + " "@ + version)[0] == name[0]);
                assert((name + " "@ + version).last() == version.last());
            }
            if platform is Android && h.len() > 0 && h[0].reading() is Some {
                let release = h[0].reading()->0;
                assert(("Android "@ + release).last() == release.last());
            }
        },
        Probe::Kernel => {
            reveal_strlit("NT");
        },
        Probe::Gpu => {
            if platform is Android && h.len() > 0 && h[0].output() is Some {
                lemma_first_renderer_neat(lines_of(h[0].output()->0));
            }
        },
        Probe::Packages => {
            assert forall|count: nat, manager: Seq<char>| neat(#[trigger] tally(count, manager)) by {
                lemma_tally_neat(count, manager);
            }
        },
        Probe::Battery => {
            if h.len() > 0 {
                if platform is Android {
                    assert forall|p: Option<u64>, s: Option<Seq<char>>, t: Option<Seq<char>>|
                        (#[trigger] report(p, s, t)) is Some implies neat(report(p, s, t)->0) by {
                        lemma_report_neat(p, s, t);
                    }
                }
                if platform is Linux && h[0].entries() is Some {
                    lemma_batteries_end_well(h[0].entries()->0, h.skip(1));
                }
            }
        },
        _ => {},
    }
}

/// The scan of the power supplies ends once it has two answers for each name.
proof fn lemma_batteries_end(names: Seq<Seq<char>>, h: Seq<AnswerView>)
    requires
        h.len() >= 2 * names.len(),
    ensures
        batteries(names, h) is Done,
    decreases names.len(),
{
    if names.len() > 0 {
        if h.len() >= 2 {
            lemma_batteries_end(names.drop_first(), h.skip(2));
        }
        lemma_batteries_end(names.drop_first(), h);
    }
}

/// Every probe ends: once it has as many answers as `most_questions` says,
/// it asks no more.
pub proof fn law_probe_ends(probe: Probe, platform: Platform, h: Seq<AnswerView>)
    requires
        h.len() >= most_questions(h),
    ensures
        probe_step(probe, platform, h) is Done,
{
    if probe is Battery && platform is Linux {
        match h[0].entries() {
            Some(names) => {
                lemma_batteries_end(names, h.skip(1));
            },
            None => {},
        }
    }
}

/// The answers `h` are those of `host` to the questions that `probe` asks
/// one after the other, and the probe has asked for each of them.
pub open spec fn is_run(
    probe: Probe,
    platform: Platform,
    host: spec_fn(QueryView) -> AnswerView,
    h: Seq<AnswerView>,
) -> bool {
    forall|i: int|
        0 <= i < h.len() ==> match #[trigger] probe_step(probe, platform, h.take(i)) {
            StepView::Ask(q) => h[i] == host(q),
            StepView::Done(_) => false,
        }
}

/// Two runs against one host agree as far as both go.
proof fn lemma_runs_agree(
    probe: Probe,
    platform: Platform,
    host: spec_fn(QueryView) -> AnswerView,
    a: Seq<AnswerView>,
    b: Seq<AnswerView>,
    n: int,
)
    requires
        is_run(probe, platform, host, a),
        is_run(probe, platform, host, b),
        0 <= n <= a.len(),
        n <= b.len(),
    ensures
        a.take(n) == b.take(n),
    decreases n,
{
    if n == 0 {
        assert(a.take(0) =~= b.take(0));
    } else {
        lemma_runs_agree(probe, platform, host, a, b, n - 1);
        let before = probe_step(probe, platform, a.take(n - 1));
        assert(before == probe_step(probe, platform, b.take(n - 1)));
        assert(a[n - 1] == b[n - 1]);
        assert(a.take(n) =~= a.take(n - 1).push(a[n - 1]));
        assert(b.take(n) =~= b.take(n - 1).push(b[n - 1]));
    }
}

/// A probe that runs twice against the same host gets the same answers and
/// ends with the same value: the value depends on nothing but the platform
/// and what the host answers.
pub proof fn law_same_host_same_value(
    probe: Probe,
    platform: Platform,
    host: spec_fn(QueryView) -> AnswerView,
    a: Seq<AnswerView>,
    b: Seq<AnswerView>,
)
    requires
        is_run(probe, platform, host, a),
        is_run(probe, platform, host, b),
        probe_step(probe, platform, a) is Done,
        probe_step(probe, platform, b) is Done,
    ensures
        a == b,
        probe_step(probe, platform, a) == probe_step(probe, platform, b),
{
    let n = if a.len() <= b.len() {
        a.len() as int
    } else {
        b.len() as int
    };
    lemma_runs_agree(probe, platform, host, a, b, n);
    assert(a.take(a.len() as int) =~= a);
    assert(b.take(b.len() as int) =~= b);
    if a.len() < b.len() {
        assert(probe_step(probe, platform, b.take(n)) is Ask);
    } else if b.len() < a.len() {
        assert(probe_step(probe, platform, a.take(n)) is Ask);
    }
}

} // verus!
