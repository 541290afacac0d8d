//! The list of facts and its rendering beside the logo.

use crate::host::UNKNOWN;
use crate::metrics::{LocalIp, LocalIpView};
use crate::text::{chars_of, extend, extend_str, lines, lines_of, rows, same, string_of, texts, trim, trimmed};
use vstd::prelude::*;

verus! {

/// Ends colour and weight.
pub const RESET: &'static str = "\x1b[0m";

/// Bold weight.
pub const BOLD: &'static str = "\x1b[1m";

/// Green.
pub const GREEN: &'static str = "\x1b[32m";

/// Yellow.
pub const YELLOW: &'static str = "\x1b[33m";

/// Blue.
pub const BLUE: &'static str = "\x1b[34m";

/// Cyan.
pub const CYAN: &'static str = "\x1b[36m";

/// The art shown to the left of the facts.
pub const LOGO: &'static str = "\n\n  ___                  \n / _ \\                 \n/ /_\\ \\_ __   ___ _ __ \n|  _  | '_ \\ / _ \\ '__|\n| | | | |_) |  __/ |   \n\\_| |_/ .__/ \\___|_|   \n      | |              \n      |_|              \n\n";

/// The line drawn under the title.
pub const RULE: &'static str = "-----------------";

/// One fact about the host, as a label and its value.
#[derive(Debug, PartialEq, Eq)]
pub struct Fact {
    pub label: String,
    pub value: String,
}

/// What a `Fact` holds.
pub struct FactView {
    pub label: Seq<char>,
    pub value: Seq<char>,
}

impl View for Fact {
    type V = FactView;

    open spec fn view(&self) -> FactView {
        FactView { label: self.label@, value: self.value@ }
    }
}

/// The views of a list of facts.
pub open spec fn fact_views(facts: Seq<Fact>) -> Seq<FactView> {
    facts.map_values(|f: Fact| f@)
}

/// The values that the probes have given, one for each fact.
#[derive(Debug, PartialEq, Eq)]
pub struct Readings {
    pub os: String,
    pub kernel: String,
    pub uptime: String,
    pub shell: String,
    pub cpu: String,
    pub gpu: String,
    pub memory: String,
    pub disk: String,
    pub local_ip: Option<LocalIp>,
    pub resolution: String,
    pub packages: String,
    pub manufacturer: String,
    pub model: String,
    pub battery: String,
}

/// What `Readings` hold.
pub struct ReadingsView {
    pub os: Seq<char>,
    pub kernel: Seq<char>,
    pub uptime: Seq<char>,
    pub shell: Seq<char>,
    pub cpu: Seq<char>,
    pub gpu: Seq<char>,
    pub memory: Seq<char>,
    pub disk: Seq<char>,
    pub local_ip: Option<LocalIpView>,
    pub resolution: Seq<char>,
    pub packages: Seq<char>,
    pub manufacturer: Seq<char>,
    pub model: Seq<char>,
    pub battery: Seq<char>,
}

impl View for Readings {
    type V = ReadingsView;

    open spec fn view(&self) -> ReadingsView {
        ReadingsView {
            os: self.os@,
            kernel: self.kernel@,
            uptime: self.uptime@,
            shell: self.shell@,
            cpu: self.cpu@,
            gpu: self.gpu@,
            memory: self.memory@,
            disk: self.disk@,
            local_ip: match self.local_ip {
                Some(ip) => Some(ip@),
                None => None,
            },
            resolution: self.resolution@,
            packages: self.packages@,
            manufacturer: self.manufacturer@,
            model: self.model@,
            battery: self.battery@,
        }
    }
}

// ----------------------------------------------------------------------
// The list of facts
// ----------------------------------------------------------------------

/// The fact `label` with `value`.
pub open spec fn fact(label: Seq<char>, value: Seq<char>) -> Seq<FactView> {
    seq![FactView { label, value }]
}

/// The fact `label` with `value`, left out where the value is the sentinel.
pub open spec fn optional(label: Seq<char>, value: Seq<char>) -> Seq<FactView> {
    if value == UNKNOWN@ {
        Seq::empty()
    } else {
        fact(label, value)
    }
}

/// The fact of the local address, labelled with its interface.
pub open spec fn local(ip: Option<LocalIpView>) -> Seq<FactView> {
    match ip {
        Some(ip) => fact("Local IP ("@ + ip.interface + ")"@, ip.address),
        None => Seq::empty(),
    }
}

/// The facts in the order in which they are shown. The first eight are
/// always there; the others only with a value that is known.
pub open spec fn fact_list(r: ReadingsView) -> Seq<FactView> {
    fact("OS"@, r.os) + fact("Kernel"@, r.kernel) + fact("Uptime"@, r.uptime) + fact(
        "Shell"@,
        r.shell,
    ) + fact("CPU"@, r.cpu) + fact("GPU"@, r.gpu) + fact("Memory"@, r.memory) + fact(
        "Disk"@,
        r.disk,
    ) + local(r.local_ip) + optional("Resolution"@, r.resolution) + optional(
        "Packages"@,
        r.packages,
    ) + optional("Manufacturer"@, r.manufacturer) + optional("Model"@, r.model) + optional(
        "Battery"@,
        r.battery,
    )
}

/// Appends the fact `label` with `value` to `out`.
pub fn push_fact(out: &mut Vec<Fact>, label: &str, value: &str)
    ensures
        fact_views(final(out)@) == fact_views(old(out)@) + fact(label@, value@),
{
    out.push(Fact { label: label.to_owned(), value: value.to_owned() });
    proof {
        assert(fact_views(final(out)@) =~= fact_views(old(out)@) + fact(label@, value@));
    }
}

/// Appends the fact `label` with `value` to `out`, unless the value is the
/// sentinel.
pub fn push_optional(out: &mut Vec<Fact>, label: &str, value: &str)
    ensures
        fact_views(final(out)@) == fact_views(old(out)@) + optional(label@, value@),
{
    if same(&chars_of(value), &chars_of(UNKNOWN)) {
        proof {
            assert(fact_views(out@) =~= fact_views(old(out)@) + optional(label@, value@));
        }
    } else {
        push_fact(out, label, value);
    }
}

/// The facts in the order in which they are shown.
pub fn collect_facts(r: &Readings) -> (out: Vec<Fact>)
    ensures
        fact_views(out@) == fact_list(r@),
{
    let mut out: Vec<Fact> = Vec::new();
    assert(fact_views(out@) =~= Seq::empty());
    push_fact(&mut out, "OS", r.os.as_str());
    push_fact(&mut out, "Kernel", r.kernel.as_str());
    push_fact(&mut out, "Uptime", r.uptime.as_str());
    push_fact(&mut out, "Shell", r.shell.as_str());
    push_fact(&mut out, "CPU", r.cpu.as_str());
    push_fact(&mut out, "GPU", r.gpu.as_str());
    push_fact(&mut out, "Memory", r.memory.as_str());
    push_fact(&mut out, "Disk", r.disk.as_str());
    let ghost fixed = fact_views(out@);
    assert(fixed =~= fact("OS"@, r.os@) + fact("Kernel"@, r.kernel@) + fact("Uptime"@, r.uptime@)
        + fact("Shell"@, r.shell@) + fact("CPU"@, r.cpu@) + fact("GPU"@, r.gpu@) + fact(
        "Memory"@,
        r.memory@,
    ) + fact("Disk"@, r.disk@));
    match &r.local_ip {
        Some(ip) => {
            let mut label = chars_of("Local IP (");
            extend_str(&mut label, ip.interface.as_str());
            extend_str(&mut label, ")");
            let label = string_of(&label);
            push_fact(&mut out, label.as_str(), ip.address.as_str());
        },
        None => {
            assert(fact_views(out@) =~= fixed + local(r@.local_ip));
        },
    }
    assert(fact_views(out@) == fixed + local(r@.local_ip));
    push_optional(&mut out, "Resolution", r.resolution.as_str());
    push_optional(&mut out, "Packages", r.packages.as_str());
    push_optional(&mut out, "Manufacturer", r.manufacturer.as_str());
    push_optional(&mut out, "Model", r.model.as_str());
    push_optional(&mut out, "Battery", r.battery.as_str());
    out
}

// ----------------------------------------------------------------------
// The lines to the right of the logo
// ----------------------------------------------------------------------

/// The title: user and host.
pub open spec fn title(user: Seq<char>, host: Seq<char>) -> Seq<char> {
    BOLD@ + GREEN@ + user + "@"@ + host + RESET@ + BOLD@
}

/// The rule under the title.
pub open spec fn rule() -> Seq<char> {
    CYAN@ + RULE@ + RESET@ + BOLD@
}

/// The line of one fact: its label, a colon and its value.
pub open spec fn fact_line(f: FactView) -> Seq<char> {
    BOLD@ + f.label + ": "@ + f.value + RESET@
}

/// The lines to the right of the logo: title, rule, and a line for each fact.
pub open spec fn info(user: Seq<char>, host: Seq<char>, facts: Seq<FactView>) -> Seq<Seq<char>> {
    seq![title(user, host), rule()] + facts.map_values(|f: FactView| fact_line(f))
}

/// The lines to the right of the logo.
pub fn info_lines(user: &str, host: &str, facts: &Vec<Fact>) -> (out: Vec<String>)
    ensures
        texts(out@) == info(user@, host@, fact_views(facts@)),
{
    let mut out: Vec<String> = Vec::new();
    let mut head = chars_of(BOLD);
    extend_str(&mut head, GREEN);
    extend_str(&mut head, user);
    extend_str(&mut head, "@");
    extend_str(&mut head, host);
    extend_str(&mut head, RESET);
    extend_str(&mut head, BOLD);
    out.push(string_of(&head));
    let mut under = chars_of(CYAN);
    extend_str(&mut under, RULE);
    extend_str(&mut under, RESET);
    extend_str(&mut under, BOLD);
    out.push(string_of(&under));
    let ghost shown = fact_views(facts@).map_values(|f: FactView| fact_line(f));
    assert(texts(out@) =~= seq![title(user@, host@), rule()] + shown.take(0));
    let mut i: usize = 0;
    while i < facts.len()
        invariant
            i <= facts.len(),
            shown == fact_views(facts@).map_values(|f: FactView| fact_line(f)),
            texts(out@) == seq![title(user@, host@), rule()] + shown.take(i as int),
        decreases facts.len() - i,
    {
        let f = &facts[i];
        let mut line = chars_of(BOLD);
        extend_str(&mut line, f.label.as_str());
        extend_str(&mut line, ": ");
        extend_str(&mut line, f.value.as_str());
        extend_str(&mut line, RESET);
        let ghost before = texts(out@);
        out.push(string_of(&line));
        proof {
            assert(line@ == fact_line(f@));
            assert(shown[i as int] == fact_line(fact_views(facts@)[i as int]));
            assert(texts(out@) =~= before.push(line@));
            assert(before.push(line@) =~= seq![title(user@, host@), rule()] + shown.take(i + 1));
        }
        i += 1;
    }
    assert(shown.take(facts.len() as int) =~= shown);
    out
}

// ----------------------------------------------------------------------
// The two columns
// ----------------------------------------------------------------------

/// The lines of the art: those of its text, trimmed as a whole.
pub open spec fn art(logo: Seq<char>) -> Seq<Seq<char>> {
    lines_of(trimmed(logo))
}

/// The length of the longest of `lines`.
pub open spec fn widest(lines: Seq<Seq<char>>) -> nat
    decreases lines.len(),
{
    if lines.len() == 0 {
        0
    } else if lines.last().len() > widest(lines.drop_last()) {
        lines.last().len()
    } else {
        widest(lines.drop_last())
    }
}

/// `s` filled up with spaces on the right to the length `width`.
pub open spec fn padded(s: Seq<char>, width: nat) -> Seq<char> {
    if s.len() >= width {
        s
    } else {
        s + Seq::new((width - s.len()) as nat, |i: int| ' ')
    }
}

/// The line `i` of `lines`, or the empty line where they have run out.
pub open spec fn item(lines: Seq<Seq<char>>, i: int) -> Seq<char> {
    if 0 <= i < lines.len() {
        lines[i]
    } else {
        Seq::empty()
    }
}

/// The row `i`: the line of the logo in its colour, padded to the width of
/// the logo, and after a gap the line of the facts.
pub open spec fn row(logo: Seq<Seq<char>>, info: Seq<Seq<char>>, i: int) -> Seq<char> {
    "  "@ + CYAN@ + padded(item(logo, i), widest(logo)) + RESET@ + "   "@ + item(info, i)
}

/// The number of rows: that of the longer column.
pub open spec fn height(logo: Seq<Seq<char>>, info: Seq<Seq<char>>) -> nat {
    if logo.len() >= info.len() {
        logo.len()
    } else {
        info.len()
    }
}

/// What is printed: an empty line, the rows, an empty line.
pub open spec fn rendered(logo: Seq<Seq<char>>, info: Seq<Seq<char>>) -> Seq<Seq<char>> {
    seq![Seq::<char>::empty()] + Seq::new(height(logo, info), |i: int| row(logo, info, i))
        + seq![Seq::<char>::empty()]
}

/// No line is longer than the widest.
pub proof fn lemma_widest(lines: Seq<Seq<char>>, i: int)
    requires
        0 <= i < lines.len(),
    ensures
        lines[i].len() <= widest(lines),
    decreases lines.len(),
{
    if i < lines.len() - 1 {
        lemma_widest(lines.drop_last(), i);
    }
}

/// What is printed has a row for each line of the longer column, between two
/// empty lines. In each row the left column is as wide as the widest line of
/// the logo, and where the logo has run out it is made of spaces alone.
pub proof fn law_rendered_shape(logo: Seq<Seq<char>>, info: Seq<Seq<char>>)
    ensures
        rendered(logo, info).len() == height(logo, info) + 2,
        rendered(logo, info)[0].len() == 0,
        rendered(logo, info).last().len() == 0,
        forall|i: int|
            0 <= i < height(logo, info) ==> #[trigger] rendered(logo, info)[i + 1] == row(
                logo,
                info,
                i,
            ),
        forall|i: int|
            0 <= i < height(logo, info) ==> (#[trigger] padded(item(logo, i), widest(logo))).len()
                == widest(logo),
        forall|i: int|
            logo.len() <= i < height(logo, info) ==> #[trigger] padded(
                item(logo, i),
                widest(logo),
            ) == Seq::new(widest(logo), |j: int| ' '),
{
    assert forall|i: int| 0 <= i < height(logo, info) implies (#[trigger] padded(
        item(logo, i),
        widest(logo),
    )).len() == widest(logo) by {
        if i < logo.len() {
            lemma_widest(logo, i);
        }
    }
    assert forall|i: int| logo.len() <= i < height(logo, info) implies #[trigger] padded(
        item(logo, i),
        widest(logo),
    ) == Seq::new(widest(logo), |j: int| ' ') by {
        assert(padded(item(logo, i), widest(logo)) =~= Seq::new(widest(logo), |j: int| ' '));
    }
}

/// The lines of the art `logo`.
pub fn logo_lines(logo: &str) -> (out: Vec<String>)
    ensures
        texts(out@) == art(logo@),
{
    let table = lines(&trim(&chars_of(logo)));
    let mut out: Vec<String> = Vec::new();
    let mut i: usize = 0;
    while i < table.len()
        invariant
            i <= table.len(),
            out.len() == i,
            forall|j: int| 0 <= j < i ==> out@[j]@ == table@[j]@,
        decreases table.len() - i,
    {
        out.push(string_of(&table[i]));
        i += 1;
    }
    assert(texts(out@) =~= rows(table@));
    out
}

/// The length of the longest of `lines`, in characters.
pub fn logo_width(lines: &Vec<String>) -> (w: usize)
    ensures
        w == widest(texts(lines@)),
{
    let mut w: usize = 0;
    let mut i: usize = 0;
    while i < lines.len()
        invariant
            i <= lines.len(),
            w == widest(texts(lines@).take(i as int)),
        decreases lines.len() - i,
    {
        proof {
            assert(texts(lines@).take(i + 1).drop_last() =~= texts(lines@).take(i as int));
        }
        let n = lines[i].as_str().unicode_len();
        if n > w {
            w = n;
        }
        i += 1;
    }
    assert(texts(lines@).take(lines.len() as int) =~= texts(lines@));
    w
}

/// Appends `s`, filled up with spaces to the length `width`, to `out`.
pub fn push_padded(out: &mut Vec<char>, s: &Vec<char>, width: usize)
    ensures
        final(out)@ == old(out)@ + padded(s@, width as nat),
{
    extend(out, s);
    let mut n: usize = s.len();
    while n < width
        invariant
            s.len() <= n,
            n <= width || n == s.len(),
            out@ == old(out)@ + s@ + Seq::new((n - s.len()) as nat, |i: int| ' '),
        decreases width - n,
    {
        out.push(' ');
        proof {
            assert(out@ =~= old(out)@ + s@ + Seq::new((n + 1 - s.len()) as nat, |i: int| ' '));
        }
        n += 1;
    }
    proof {
        assert(out@ =~= old(out)@ + padded(s@, width as nat));
    }
}

/// The logo and the lines of facts side by side, between two empty lines.
pub fn render(logo: &Vec<String>, info: &Vec<String>) -> (out: Vec<String>)
    ensures
        texts(out@) == rendered(texts(logo@), texts(info@)),
{
    let width = logo_width(logo);
    let n = if logo.len() >= info.len() {
        logo.len()
    } else {
        info.len()
    };
    let ghost l = texts(logo@);
    let ghost r = texts(info@);
    let mut out: Vec<String> = Vec::new();
    out.push(String::new());
    assert(texts(out@) =~= seq![Seq::<char>::empty()] + Seq::new(0, |j: int| row(l, r, j)));
    let mut i: usize = 0;
    while i < n
        invariant
            i <= n,
            n == height(l, r),
            l == texts(logo@),
            r == texts(info@),
            width == widest(l),
            texts(out@) == seq![Seq::<char>::empty()] + Seq::new(i as nat, |j: int| row(l, r, j)),
        decreases n - i,
    {
        let mut line = chars_of("  ");
        extend_str(&mut line, CYAN);
        if i < logo.len() {
            push_padded(&mut line, &chars_of(logo[i].as_str()), width);
        } else {
            let nothing: Vec<char> = Vec::new();
            assert(nothing@ =~= Seq::empty());
            push_padded(&mut line, &nothing, width);
        }
        extend_str(&mut line, RESET);
        extend_str(&mut line, "   ");
        if i < info.len() {
            extend_str(&mut line, info[i].as_str());
        } else {
            assert(line@ =~= line@ + item(r, i as int));
        }
        let ghost before = texts(out@);
        out.push(string_of(&line));
        proof {
            assert(line@ == row(l, r, i as int));
            assert(texts(out@) =~= before.push(line@));
            assert(before.push(line@) =~= seq![Seq::<char>::empty()] + Seq::new(
                (i + 1) as nat,
                |j: int| row(l, r, j),
            ));
        }
        i += 1;
    }
    let ghost before = texts(out@);
    out.push(String::new());
    proof {
        assert(texts(out@) =~= before.push(Seq::empty()));
        assert(before.push(Seq::empty()) =~= rendered(l, r));
    }
    out
}

/// What is printed for the user, the host and the readings: the logo beside
/// the title, the rule and the facts.
pub open spec fn screen(user: Seq<char>, host: Seq<char>, r: ReadingsView) -> Seq<Seq<char>> {
    rendered(art(LOGO@), info(user, host, fact_list(r)))
}

/// The lines to print for the user, the host and the readings.
pub fn screen_lines(user: &str, host: &str, r: &Readings) -> (out: Vec<String>)
    ensures
        texts(out@) == screen(user@, host@, r@),
{
    let facts = collect_facts(r);
    let right = info_lines(user, host, &facts);
    let left = logo_lines(LOGO);
    render(&left, &right)
}

} // verus!
