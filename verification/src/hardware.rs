//! Processor, graphics adapter and display resolution.

use crate::host::{
    ask_run0, ask_run1, ask_run2, ask_run3, ask_run4, command, done, done_or_unknown, ends_well,
    finish, history, output_of, reading_of, unknown, Answer, AnswerView, Platform, Step, StepView,
};
use crate::text::{
    chars_of, clean, cleaned, first_with_part, first_with_prefix, first_with_trimmed_prefix,
    last_line_with_prefix, last_piece, last_with_prefix, lemma_clean_is_neat, line_with_part,
    line_with_prefix, line_with_trimmed_prefix, lines, lines_of, neat, opt_view, patterns,
    piece_after, piece_last, replace, replaced, rows, second_piece, trim, trimmed, words,
};
use vstd::prelude::*;

verus! {

/// The shell pipeline that prints the current mode of the first display.
pub const XRANDR_PIPELINE: &'static str = "xrandr | grep \\* | cut -d' ' -f4";

/// The value of a `name: value` line: what stands between the first colon
/// and the next, trimmed, where anything is left of it.
pub open spec fn field(line: Seq<char>) -> Option<Seq<char>> {
    match second_piece(line, ":"@) {
        Some(piece) => clean(piece),
        None => None,
    }
}

/// The second line of `text`, trimmed, where there is one and it is not blank.
pub open spec fn second_line(text: Seq<char>) -> Option<Seq<char>> {
    if lines_of(text).len() > 1 {
        clean(lines_of(text)[1])
    } else {
        None
    }
}

/// The processor as `/proc/cpuinfo` names it: the field of the first line
/// that begins with `model name` or `Processor`, else the field of the last
/// `Hardware` line.
pub open spec fn cpuinfo_model(text: Seq<char>) -> Option<Seq<char>> {
    let named = match first_with_prefix(lines_of(text), words(seq!["model name", "Processor"])) {
        Some(line) => field(line),
        None => None,
    };
    match named {
        Some(v) => Some(v),
        None => match last_with_prefix(lines_of(text), "Hardware"@, ":"@) {
            Some(line) => field(line),
            None => None,
        },
    }
}

/// What a line of the SurfaceFlinger dump says of the renderer: the piece
/// that follows `GL_RENDERER = `, trimmed, where anything is left of it.
pub open spec fn renderer(line: Seq<char>) -> Option<Seq<char>> {
    match second_piece(line, "GL_RENDERER = "@) {
        Some(piece) => clean(piece),
        None => None,
    }
}

/// The renderer that the first of `table` to name one names.
pub open spec fn first_renderer(table: Seq<Seq<char>>) -> Option<Seq<char>>
    decreases table.len(),
{
    if table.len() == 0 {
        None
    } else {
        match renderer(table[0]) {
            Some(v) => Some(v),
            None => first_renderer(table.drop_first()),
        }
    }
}

/// The renderer that `first_renderer` finds is neat.
pub proof fn lemma_first_renderer_neat(table: Seq<Seq<char>>)
    ensures
        first_renderer(table) matches Some(v) ==> neat(v),
    decreases table.len(),
{
    if table.len() > 0 {
        match second_piece(table[0], "GL_RENDERER = "@) {
            Some(piece) => {
                lemma_clean_is_neat(piece);
            },
            None => {},
        }
        lemma_first_renderer_neat(table.drop_first());
    }
}

/// The adapter in the output of `lspci`: what follows the last `": "` of the
/// first line that names a display controller.
pub open spec fn lspci_adapter(text: Seq<char>) -> Option<Seq<char>> {
    match first_with_part(
        lines_of(text),
        words(seq!["VGA compatible controller", "3D controller", "Display controller"]),
    ) {
        Some(line) => clean(last_piece(line, ": "@)),
        None => None,
    }
}

/// The field of the first line of `text` that, trimmed, begins with `label`.
pub open spec fn labelled_field(text: Seq<char>, label: Seq<char>) -> Option<Seq<char>> {
    match first_with_trimmed_prefix(lines_of(text), label) {
        Some(line) => field(line),
        None => None,
    }
}

/// The size in the output of `wm size`: the first line that holds
/// `Physical size:`, without the text `Physical size: `.
pub open spec fn physical_size(text: Seq<char>) -> Option<Seq<char>> {
    match first_with_part(lines_of(text), words(seq!["Physical size:"])) {
        Some(line) => clean(replaced(line, "Physical size: "@, Seq::empty())),
        None => None,
    }
}

/// The resolution in the output of `system_profiler`: the field of the
/// first `Resolution:` line, with `" x "` drawn together to `"x"`.
pub open spec fn profiler_resolution(text: Seq<char>) -> Option<Seq<char>> {
    match first_with_trimmed_prefix(lines_of(text), "Resolution:"@) {
        Some(line) => match second_piece(line, ":"@) {
            Some(piece) => clean(replaced(trimmed(piece), " x "@, "x"@)),
            None => None,
        },
        None => None,
    }
}

/// `parse` applied to the output of a program that succeeded.
pub open spec fn of_output(a: AnswerView, parse: spec_fn(Seq<char>) -> Option<Seq<char>>) -> Option<
    Seq<char>,
> {
    match a.output() {
        Some(text) => parse(text),
        None => None,
    }
}

/// The processor's model.
///
/// | platform | source |
/// |---|---|
/// | Linux | `cat /proc/cpuinfo`, see `cpuinfo_model` |
/// | macOS | `sysctl -n machdep.cpu.brand_string` |
/// | Windows | `wmic cpu get name`, second line |
pub open spec fn cpu_model(platform: Platform, h: Seq<AnswerView>) -> StepView {
    match platform {
        Platform::Linux => if h.len() == 0 {
            command("cat", seq!["/proc/cpuinfo"])
        } else {
            finish(of_output(h[0], |t: Seq<char>| cpuinfo_model(t)))
        },
        Platform::MacOs => if h.len() == 0 {
            command("sysctl", seq!["-n", "machdep.cpu.brand_string"])
        } else {
            finish(h[0].reading())
        },
        Platform::Windows => if h.len() == 0 {
            command("wmic", seq!["cpu", "get", "name"])
        } else {
            finish(of_output(h[0], |t: Seq<char>| second_line(t)))
        },
        _ => finish(None),
    }
}

/// The graphics adapter.
///
/// | platform | sources, in order |
/// |---|---|
/// | Android | `dumpsys SurfaceFlinger --list`, see `first_renderer`; `getprop ro.board.platform` |
/// | Linux | `lspci`, see `lspci_adapter` |
/// | macOS | `system_profiler SPDisplaysDataType`, field `Chipset Model:` |
/// | Windows | `wmic path win32_VideoController get name`, second line |
pub open spec fn gpu_info(platform: Platform, h: Seq<AnswerView>) -> StepView {
    match platform {
        Platform::Android => if h.len() == 0 {
            command("dumpsys", seq!["SurfaceFlinger", "--list"])
        } else {
            match of_output(h[0], |t: Seq<char>| first_renderer(lines_of(t))) {
                Some(v) => StepView::Done(v),
                None => if h.len() == 1 {
                    command("getprop", seq!["ro.board.platform"])
                } else {
                    finish(h[1].reading())
                },
            }
        },
        Platform::Linux => if h.len() == 0 {
            command("lspci", Seq::empty())
        } else {
            finish(of_output(h[0], |t: Seq<char>| lspci_adapter(t)))
        },
        Platform::MacOs => if h.len() == 0 {
            command("system_profiler", seq!["SPDisplaysDataType"])
        } else {
            finish(of_output(h[0], |t: Seq<char>| labelled_field(t, "Chipset Model:"@)))
        },
        Platform::Windows => if h.len() == 0 {
            command("wmic", seq!["path", "win32_VideoController", "get", "name"])
        } else {
            finish(of_output(h[0], |t: Seq<char>| second_line(t)))
        },
        Platform::Other => finish(None),
    }
}

/// The resolution of the display.
///
/// | platform | source |
/// |---|---|
/// | Android | `wm size`, see `physical_size` |
/// | Linux | the pipeline `XRANDR_PIPELINE`, run by `sh -c` |
/// | macOS | `system_profiler SPDisplaysDataType`, see `profiler_resolution` |
pub open spec fn resolution(platform: Platform, h: Seq<AnswerView>) -> StepView {
    match platform {
        Platform::Android => if h.len() == 0 {
            command("wm", seq!["size"])
        } else {
            finish(of_output(h[0], |t: Seq<char>| physical_size(t)))
        },
        Platform::Linux => if h.len() == 0 {
            command("sh", seq!["-c", XRANDR_PIPELINE])
        } else {
            finish(h[0].reading())
        },
        Platform::MacOs => if h.len() == 0 {
            command("system_profiler", seq!["SPDisplaysDataType"])
        } else {
            finish(of_output(h[0], |t: Seq<char>| profiler_resolution(t)))
        },
        _ => finish(None),
    }
}

/// The value of a `name: value` line.
pub fn field_of(line: &Vec<char>) -> (r: Option<Vec<char>>)
    ensures
        opt_view(r) == field(line@),
        r matches Some(v) ==> neat(v@),
{
    match piece_after(line, &chars_of(":")) {
        Some(piece) => cleaned(&piece),
        None => None,
    }
}

/// The second line of `text`, trimmed.
pub fn second_line_of(text: &Vec<char>) -> (r: Option<Vec<char>>)
    ensures
        opt_view(r) == second_line(text@),
        r matches Some(v) ==> neat(v@),
{
    let table = lines(text);
    if table.len() > 1 {
        cleaned(&table[1])
    } else {
        None
    }
}

/// The processor as `/proc/cpuinfo` names it.
pub fn cpuinfo_model_of(text: &Vec<char>) -> (r: Option<Vec<char>>)
    ensures
        opt_view(r) == cpuinfo_model(text@),
        r matches Some(v) ==> neat(v@),
{
    let table = lines(text);
    let names = vec!["model name", "Processor"];
    assert(names@ =~= seq!["model name", "Processor"]);
    let named = match line_with_prefix(&table, &patterns(&names)) {
        Some(i) => field_of(&table[i]),
        None => None,
    };
    match named {
        Some(v) => Some(v),
        None => match last_line_with_prefix(&table, &chars_of("Hardware"), &chars_of(":")) {
            Some(i) => field_of(&table[i]),
            None => None,
        },
    }
}

/// The renderer that the first line of the SurfaceFlinger dump to name one names.
pub fn first_renderer_of(text: &Vec<char>) -> (r: Option<Vec<char>>)
    ensures
        opt_view(r) == first_renderer(lines_of(text@)),
        r matches Some(v) ==> neat(v@),
{
    let table = lines(text);
    let mark = chars_of("GL_RENDERER = ");
    let mut i: usize = 0;
    proof {
        assert(rows(table@).skip(0) =~= rows(table@));
    }
    while i < table.len()
        invariant
            i <= table.len(),
            mark@ == "GL_RENDERER = "@,
            rows(table@) == lines_of(text@),
            first_renderer(rows(table@)) == first_renderer(rows(table@).skip(i as int)),
        decreases table.len() - i,
    {
        proof {
            assert(rows(table@).skip(i as int).drop_first() =~= rows(table@).skip(i + 1));
        }
        if let Some(piece) = piece_after(&table[i], &mark) {
            if let Some(v) = cleaned(&piece) {
                return Some(v);
            }
        }
        i += 1;
    }
    None
}

/// The adapter in the output of `lspci`.
pub fn lspci_adapter_of(text: &Vec<char>) -> (r: Option<Vec<char>>)
    ensures
        opt_view(r) == lspci_adapter(text@),
        r matches Some(v) ==> neat(v@),
{
    let table = lines(text);
    let classes = vec!["VGA compatible controller", "3D controller", "Display controller"];
    assert(classes@ =~= seq!["VGA compatible controller", "3D controller", "Display controller"]);
    match line_with_part(&table, &patterns(&classes)) {
        Some(i) => cleaned(&piece_last(&table[i], &chars_of(": "))),
        None => None,
    }
}

/// The field of the first line of `text` that, trimmed, begins with `label`.
pub fn labelled_field_of(text: &Vec<char>, label: &str) -> (r: Option<Vec<char>>)
    ensures
        opt_view(r) == labelled_field(text@, label@),
        r matches Some(v) ==> neat(v@),
{
    let table = lines(text);
    match line_with_trimmed_prefix(&table, &chars_of(label)) {
        Some(i) => field_of(&table[i]),
        None => None,
    }
}

/// The size in the output of `wm size`.
pub fn physical_size_of(text: &Vec<char>) -> (r: Option<Vec<char>>)
    ensures
        opt_view(r) == physical_size(text@),
        r matches Some(v) ==> neat(v@),
{
    let table = lines(text);
    let marks = vec!["Physical size:"];
    assert(marks@ =~= seq!["Physical size:"]);
    match line_with_part(&table, &patterns(&marks)) {
        Some(i) => {
            let nothing: Vec<char> = Vec::new();
            assert(nothing@ =~= Seq::empty());
            cleaned(&replace(&table[i], &chars_of("Physical size: "), &nothing))
        },
        None => None,
    }
}

/// The resolution in the output of `system_profiler`.
pub fn profiler_resolution_of(text: &Vec<char>) -> (r: Option<Vec<char>>)
    ensures
        opt_view(r) == profiler_resolution(text@),
        r matches Some(v) ==> neat(v@),
{
    let table = lines(text);
    match line_with_trimmed_prefix(&table, &chars_of("Resolution:")) {
        Some(i) => match piece_after(&table[i], &chars_of(":")) {
            Some(piece) => cleaned(&replace(&trim(&piece), &chars_of(" x "), &chars_of("x"))),
            None => None,
        },
        None => None,
    }
}

/// The next step of the probe for the processor's model.
pub fn get_cpu_model(platform: Platform, answers: &Vec<Answer>) -> (step: Step)
    ensures
        step@ == cpu_model(platform, history(answers@)),
        ends_well(step@),
{
    match platform {
        Platform::Linux => {
            if answers.len() == 0 {
                return ask_run1("cat", "/proc/cpuinfo");
            }
            let found = match output_of(&answers[0]) {
                Some(text) => cpuinfo_model_of(&text),
                None => None,
            };
            done_or_unknown(&found)
        },
        Platform::MacOs => {
            if answers.len() == 0 {
                return ask_run2("sysctl", "-n", "machdep.cpu.brand_string");
            }
            let found = reading_of(&answers[0]);
            done_or_unknown(&found)
        },
        Platform::Windows => {
            if answers.len() == 0 {
                return ask_run3("wmic", "cpu", "get", "name");
            }
            let found = match output_of(&answers[0]) {
                Some(text) => second_line_of(&text),
                None => None,
            };
            done_or_unknown(&found)
        },
        _ => unknown(),
    }
}

/// The next step of the probe for the graphics adapter.
pub fn get_gpu_info(platform: Platform, answers: &Vec<Answer>) -> (step: Step)
    ensures
        step@ == gpu_info(platform, history(answers@)),
        ends_well(step@),
{
    match platform {
        Platform::Android => {
            if answers.len() == 0 {
                return ask_run2("dumpsys", "SurfaceFlinger", "--list");
            }
            let named = match output_of(&answers[0]) {
                Some(text) => first_renderer_of(&text),
                None => None,
            };
            if let Some(v) = named {
                return done(&v);
            }
            if answers.len() == 1 {
                return ask_run1("getprop", "ro.board.platform");
            }
            let found = reading_of(&answers[1]);
            done_or_unknown(&found)
        },
        Platform::Linux => {
            if answers.len() == 0 {
                return ask_run0("lspci");
            }
            let found = match output_of(&answers[0]) {
                Some(text) => lspci_adapter_of(&text),
                None => None,
            };
            done_or_unknown(&found)
        },
        Platform::MacOs => {
            if answers.len() == 0 {
                return ask_run1("system_profiler", "SPDisplaysDataType");
            }
            let found = match output_of(&answers[0]) {
                Some(text) => labelled_field_of(&text, "Chipset Model:"),
                None => None,
            };
            done_or_unknown(&found)
        },
        Platform::Windows => {
            if answers.len() == 0 {
                return ask_run4("wmic", "path", "win32_VideoController", "get", "name");
            }
            let found = match output_of(&answers[0]) {
                Some(text) => second_line_of(&text),
                None => None,
            };
            done_or_unknown(&found)
        },
        Platform::Other => unknown(),
    }
}

/// The next step of the probe for the display's resolution.
pub fn get_resolution(platform: Platform, answers: &Vec<Answer>) -> (step: Step)
    ensures
        step@ == resolution(platform, history(answers@)),
        ends_well(step@),
{
    match platform {
        Platform::Android => {
            if answers.len() == 0 {
                return ask_run1("wm", "size");
            }
            let found = match output_of(&answers[0]) {
                Some(text) => physical_size_of(&text),
                None => None,
            };
            done_or_unknown(&found)
        },
        Platform::Linux => {
            if answers.len() == 0 {
                return ask_run2("sh", "-c", XRANDR_PIPELINE);
            }
            let found = reading_of(&answers[0]);
            done_or_unknown(&found)
        },
        Platform::MacOs => {
            if answers.len() == 0 {
                return ask_run1("system_profiler", "SPDisplaysDataType");
            }
            let found = match output_of(&answers[0]) {
                Some(text) => profiler_resolution_of(&text),
                None => None,
            };
            done_or_unknown(&found)
        },
        _ => unknown(),
    }
}

} // verus!
