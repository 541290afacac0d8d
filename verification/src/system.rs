//! Host name, operating system and kernel.

use crate::device::{command_value, read_from_command};
use crate::host::{
    ask_run0, ask_run1, ask_run2, command, done, done_or_unknown, ends_well, finish, history,
    output_of, reading_of, unknown, Answer, AnswerView, Platform, Step, StepView,
};
use crate::text::{
    chars_of, clean, cleaned, extend, first_with_prefix, has_prefix_among, line_with_prefix,
    lines, lines_of, neat, opt_view, patterns, slice, strip, unquoted, words, Margin,
};
use vstd::prelude::*;

verus! {

/// The host name shown where `hostname` does not give one.
pub const LOCALHOST: &'static str = "localhost";

/// The key of the line of `/etc/os-release` that names the system.
pub const PRETTY_NAME: &'static str = "PRETTY_NAME=";

/// The name that `/etc/os-release` gives the system: what follows the key
/// on the first `PRETTY_NAME=` line, without quotes around it, trimmed.
pub open spec fn pretty_name(text: Seq<char>) -> Option<Seq<char>> {
    match first_with_prefix(lines_of(text), words(seq![PRETTY_NAME])) {
        Some(line) => clean(unquoted(line.skip(PRETTY_NAME@.len() as int))),
        None => None,
    }
}

/// The host's name: the trimmed output of `hostname`, else `localhost`.
pub open spec fn hostname(h: Seq<AnswerView>) -> StepView {
    if h.len() == 0 {
        command("hostname", Seq::empty())
    } else {
        match h[0].reading() {
            Some(v) => StepView::Done(v),
            None => StepView::Done(LOCALHOST@),
        }
    }
}

/// The operating system's name.
///
/// | platform | source | value |
/// |---|---|---|
/// | Android | `getprop ro.build.version.release` | `Android` and the release, or `Android` alone |
/// | Linux | `cat /etc/os-release` | see `pretty_name` |
/// | macOS | `sw_vers -productName`, then `sw_vers -productVersion` | name and version, or the name alone |
/// | Windows | `cmd /C ver` | the trimmed output |
pub open spec fn os_info(platform: Platform, h: Seq<AnswerView>) -> StepView {
    match platform {
        Platform::Android => if h.len() == 0 {
            command("getprop", seq!["ro.build.version.release"])
        } else {
            match h[0].reading() {
                Some(release) => StepView::Done("Android "@ + release),
                None => StepView::Done("Android"@),
            }
        },
        Platform::Linux => if h.len() == 0 {
            command("cat", seq!["/etc/os-release"])
        } else {
            finish(
                match h[0].output() {
                    Some(text) => pretty_name(text),
                    None => None,
                },
            )
        },
        Platform::MacOs => if h.len() == 0 {
            command("sw_vers", seq!["-productName"])
        } else {
            match h[0].reading() {
                None => finish(None),
                Some(name) => if h.len() == 1 {
                    command("sw_vers", seq!["-productVersion"])
                } else {
                    match h[1].reading() {
                        Some(version) => StepView::Done(name + " "@ + version),
                        None => StepView::Done(name),
                    }
                },
            }
        },
        Platform::Windows => if h.len() == 0 {
            command("cmd", seq!["/C", "ver"])
        } else {
            finish(h[0].reading())
        },
        Platform::Other => finish(None),
    }
}

/// The kernel's version: `NT` on Windows, nothing on Android, elsewhere the
/// trimmed output of `uname -r`.
pub open spec fn kernel_version(platform: Platform, h: Seq<AnswerView>) -> StepView {
    match platform {
        Platform::Windows => StepView::Done("NT"@),
        Platform::Android => finish(None),
        _ => command_value("uname", "-r", h),
    }
}

/// The name that `/etc/os-release` gives the system.
pub fn pretty_name_of(text: &Vec<char>) -> (r: Option<Vec<char>>)
    ensures
        opt_view(r) == pretty_name(text@),
        r matches Some(v) ==> neat(v@),
{
    let table = lines(text);
    let key = chars_of(PRETTY_NAME);
    let keys = vec![PRETTY_NAME];
    assert(keys@ =~= seq![PRETTY_NAME]);
    proof {
        reveal_with_fuel(has_prefix_among, 2);
    }
    match line_with_prefix(&table, &patterns(&keys)) {
        Some(i) => {
            let line = &table[i];
            let value = slice(line, key.len(), line.len());
            proof {
                assert(line@.subrange(key.len() as int, line.len() as int) =~= line@.skip(
                    key.len() as int,
                ));
            }
            cleaned(&strip(&value, Margin::Quote))
        },
        None => None,
    }
}

/// The next step of the probe for the host's name.
pub fn get_hostname(answers: &Vec<Answer>) -> (step: Step)
    ensures
        step@ == hostname(history(answers@)),
        ends_well(step@),
{
    if answers.len() == 0 {
        return ask_run0("hostname");
    }
    match reading_of(&answers[0]) {
        Some(v) => done(&v),
        None => {
            proof {
                reveal_strlit("localhost");
            }
            done(&chars_of(LOCALHOST))
        },
    }
}

/// The next step of the probe for the operating system's name.
pub fn get_os_info(platform: Platform, answers: &Vec<Answer>) -> (step: Step)
    ensures
        step@ == os_info(platform, history(answers@)),
        ends_well(step@),
{
    match platform {
        Platform::Android => {
            if answers.len() == 0 {
                return ask_run1("getprop", "ro.build.version.release");
            }
            proof {
                reveal_strlit("Android ");
                reveal_strlit("Android");
            }
            match reading_of(&answers[0]) {
                Some(release) => {
                    let mut name = chars_of("Android ");
                    extend(&mut name, &release);
                    done(&name)
                },
                None => done(&chars_of("Android")),
            }
        },
        Platform::Linux => {
            if answers.len() == 0 {
                return ask_run1("cat", "/etc/os-release");
            }
            let found = match output_of(&answers[0]) {
                Some(text) => pretty_name_of(&text),
                None => None,
            };
            done_or_unknown(&found)
        },
        Platform::MacOs => {
            if answers.len() == 0 {
                return ask_run1("sw_vers", "-productName");
            }
            match reading_of(&answers[0]) {
                None => unknown(),
                Some(name) => {
                    if answers.len() == 1 {
                        return ask_run1("sw_vers", "-productVersion");
                    }
                    match reading_of(&answers[1]) {
                        Some(version) => {
                            let mut full = name;
                            extend(&mut full, &chars_of(" "));
                            extend(&mut full, &version);
                            done(&full)
                        },
                        None => done(&name),
                    }
                },
            }
        },
        Platform::Windows => {
            if answers.len() == 0 {
                return ask_run2("cmd", "/C", "ver");
            }
            let found = reading_of(&answers[0]);
            done_or_unknown(&found)
        },
        Platform::Other => unknown(),
    }
}

/// The next step of the probe for the kernel's version.
pub fn get_kernel_version(platform: Platform, answers: &Vec<Answer>) -> (step: Step)
    ensures
        step@ == kernel_version(platform, history(answers@)),
        ends_well(step@),
{
    match platform {
        Platform::Windows => {
            proof {
                reveal_strlit("NT");
            }
            done(&chars_of("NT"))
        },
        Platform::Android => unknown(),
        _ => read_from_command("uname", "-r", answers),
    }
}

} // verus!
