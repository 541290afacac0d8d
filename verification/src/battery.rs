//! The battery's charge and state.

use crate::host::{
    ask_list, ask_read, ask_run0, command, contents_of, done, ends_well, finish, history, list,
    read, unknown, Answer, AnswerView, Platform, Step, StepView,
};
use crate::json::{as_text, as_u64, json_parsed, member, parse};
use crate::number::{decimal, lemma_decimal_digits, push_decimal};
use crate::text::{
    chars_of, extend, extend_str, has_prefix, lemma_clean_is_neat, neat, starts_with, string_of,
    texts, trim, trimmed,
};
use vstd::prelude::*;
use vstd::utf8::encode_utf8;

verus! {

/// The directory with one entry for each power supply.
pub const POWER_SUPPLY: &'static str = "/sys/class/power_supply/";

/// Charge, status and health as shown: `"76% [CHARGING, GOOD]"`. Nothing is
/// shown where one of the three is missing.
pub open spec fn report(
    percentage: Option<u64>,
    status: Option<Seq<char>>,
    health: Option<Seq<char>>,
) -> Option<Seq<char>> {
    if percentage is Some && status is Some && health is Some {
        Some(decimal(percentage->0 as nat) + "% ["@ + status->0 + ", "@ + health->0 + "]"@)
    } else {
        None
    }
}

/// What the JSON text that `termux-battery-status` prints says of the
/// battery: the members `percentage`, `status` and `health` of the document.
pub open spec fn termux_report(text: Seq<char>) -> Option<Seq<char>> {
    match json_parsed(encode_utf8(text)) {
        Some(doc) => report(
            doc.member("percentage"@).as_u64(),
            doc.member("status"@).as_text(),
            doc.member("health"@).as_text(),
        ),
        None => None,
    }
}

/// Charge and status as shown: `"76% [Charging]"`, from the texts of the
/// files `capacity` and `status`, each trimmed.
pub open spec fn gauge(capacity: Seq<char>, status: Seq<char>) -> Seq<char> {
    trimmed(capacity) + "% ["@ + trimmed(status) + "]"@
}

/// The path of the file `leaf` of the power supply `name`.
pub open spec fn supply_file(name: Seq<char>, leaf: Seq<char>) -> Seq<char> {
    POWER_SUPPLY@ + name + "/"@ + leaf
}

/// The step after the answers `h` to the questions about the power supplies
/// `names`. The supplies whose name begins with `BAT` are taken in order; of
/// each the files `capacity` and `status` are read, and the first of which
/// both can be read gives the value.
pub open spec fn batteries(names: Seq<Seq<char>>, h: Seq<AnswerView>) -> StepView
    decreases names.len(),
{
    if names.len() == 0 {
        finish(None)
    } else if !has_prefix(names[0], "BAT"@) {
        batteries(names.drop_first(), h)
    } else if h.len() == 0 {
        read(supply_file(names[0], "capacity"@))
    } else if h.len() == 1 {
        read(supply_file(names[0], "status"@))
    } else if h[0].contents() is Some && h[1].contents() is Some {
        StepView::Done(gauge(h[0].contents()->0, h[1].contents()->0))
    } else {
        batteries(names.drop_first(), h.skip(2))
    }
}

/// The battery's state.
///
/// | platform | source |
/// |---|---|
/// | Android | `termux-battery-status`, see `termux_report` |
/// | Linux | the directory `POWER_SUPPLY`, see `batteries` |
pub open spec fn battery_status(platform: Platform, h: Seq<AnswerView>) -> StepView {
    match platform {
        Platform::Android => if h.len() == 0 {
            command("termux-battery-status", Seq::empty())
        } else {
            finish(
                match h[0].output() {
                    Some(text) => termux_report(text),
                    None => None,
                },
            )
        },
        Platform::Linux => if h.len() == 0 {
            list(POWER_SUPPLY@)
        } else {
            match h[0].entries() {
                Some(names) => batteries(names, h.skip(1)),
                None => finish(None),
            }
        },
        _ => finish(None),
    }
}

/// A report is neat.
pub proof fn lemma_report_neat(
    percentage: Option<u64>,
    status: Option<Seq<char>>,
    health: Option<Seq<char>>,
)
    ensures
        report(percentage, status, health) matches Some(v) ==> neat(v),
{
    if percentage is Some && status is Some && health is Some {
        reveal_strlit("]");
        lemma_decimal_digits(percentage->0 as nat);
        let v = report(percentage, status, health)->0;
        assert(v[0] == decimal(percentage->0 as nat)[0]);
    }
}

/// Charge and status as shown are neat.
pub proof fn lemma_gauge_neat(capacity: Seq<char>, status: Seq<char>)
    ensures
        neat(gauge(capacity, status)),
{
    reveal_strlit("]");
    reveal_strlit("% [");
    lemma_clean_is_neat(capacity);
    let v = gauge(capacity, status);
    if trimmed(capacity).len() > 0 {
        assert(v[0] == trimmed(capacity)[0]);
    } else {
        assert(v[0] == '%');
    }
}

/// The scan of the power supplies ends with a value fit for display.
pub proof fn lemma_batteries_end_well(names: Seq<Seq<char>>, h: Seq<AnswerView>)
    ensures
        ends_well(batteries(names, h)),
    decreases names.len(),
{
    if names.len() > 0 {
        lemma_batteries_end_well(names.drop_first(), h);
        if h.len() >= 2 {
            lemma_batteries_end_well(names.drop_first(), h.skip(2));
            if h[0].contents() is Some && h[1].contents() is Some {
                lemma_gauge_neat(h[0].contents()->0, h[1].contents()->0);
            }
        }
    }
}

/// Charge, status and health as shown, where all three are there.
pub fn battery_report(percentage: Option<u64>, status: Option<&str>, health: Option<&str>) -> (r:
    Option<String>)
    ensures
        match r {
            Some(s) => report(
                percentage,
                match status {
                    Some(t) => Some(t@),
                    None => None,
                },
                match health {
                    Some(t) => Some(t@),
                    None => None,
                },
            ) == Some(s@) && neat(s@),
            None => percentage is None || status is None || health is None,
        },
{
    match (percentage, status, health) {
        (Some(p), Some(s), Some(h)) => {
            let mut out: Vec<char> = Vec::new();
            push_decimal(&mut out, p);
            extend_str(&mut out, "% [");
            extend_str(&mut out, s);
            extend_str(&mut out, ", ");
            extend_str(&mut out, h);
            extend_str(&mut out, "]");
            proof {
                lemma_report_neat(percentage, Some(s@), Some(h@));
                assert(out@ =~= decimal(p as nat) + "% ["@ + s@ + ", "@ + h@ + "]"@);
            }
            Some(string_of(&out))
        },
        _ => None,
    }
}

/// What the JSON text `text` says of the battery.
pub fn termux_report_of(text: &str) -> (r: Option<String>)
    ensures
        match r {
            Some(s) => termux_report(text@) == Some(s@) && neat(s@),
            None => termux_report(text@) is None,
        },
{
    match parse(text.as_bytes()) {
        Some(doc) => {
            let percentage = as_u64(member(&doc, "percentage"));
            let status = as_text(member(&doc, "status"));
            let health = as_text(member(&doc, "health"));
            battery_report(
                percentage,
                match &status {
                    Some(s) => Some(s.as_str()),
                    None => None,
                },
                match &health {
                    Some(s) => Some(s.as_str()),
                    None => None,
                },
            )
        },
        None => None,
    }
}

/// The step that reads the file `leaf` of the power supply `name`.
pub fn ask_supply_file(name: &str, leaf: &str) -> (step: Step)
    ensures
        step@ == read(supply_file(name@, leaf@)),
{
    let mut path = chars_of(POWER_SUPPLY);
    extend_str(&mut path, name);
    extend_str(&mut path, "/");
    extend_str(&mut path, leaf);
    let path = string_of(&path);
    ask_read(path.as_str())
}

/// The step that ends the probe with charge and status.
pub fn done_with_gauge(capacity: &Vec<char>, status: &Vec<char>) -> (step: Step)
    ensures
        step@ == StepView::Done(gauge(capacity@, status@)),
        ends_well(step@),
{
    let mut out = trim(capacity);
    extend_str(&mut out, "% [");
    extend(&mut out, &trim(status));
    extend_str(&mut out, "]");
    proof {
        lemma_gauge_neat(capacity@, status@);
        assert(out@ =~= gauge(capacity@, status@));
    }
    done(&out)
}

/// The next step of the probe for the battery's state.
#[verifier::loop_isolation(false)]
pub fn get_battery_status(platform: Platform, answers: &Vec<Answer>) -> (step: Step)
    ensures
        step@ == battery_status(platform, history(answers@)),
        ends_well(step@),
{
    match platform {
        Platform::Android => {
            if answers.len() == 0 {
                return ask_run0("termux-battery-status");
            }
            match &answers[0] {
                Answer::Exited { success, output } => {
                    if *success {
                        match termux_report_of(output.as_str()) {
                            Some(s) => Step::Done(s),
                            None => unknown(),
                        }
                    } else {
                        unknown()
                    }
                },
                _ => unknown(),
            }
        },
        Platform::Linux => {
            if answers.len() == 0 {
                return ask_list(POWER_SUPPLY);
            }
            match &answers[0] {
                Answer::Entries(names) => {
                    let ghost h = history(answers@);
                    let bat = chars_of("BAT");
                    let mut i: usize = 0;
                    let mut k: usize = 1;
                    proof {
                        assert(texts(names@).skip(0) =~= texts(names@));
                    }
                    while i < names.len()
                        invariant
                            i <= names.len(),
                            1 <= k <= answers.len(),
                            h == history(answers@),
                            bat@ == "BAT"@,
                            batteries(texts(names@), h.skip(1)) == batteries(
                                texts(names@).skip(i as int),
                                h.skip(k as int),
                            ),
                        decreases names.len() - i,
                    {
                        let ghost rest = texts(names@).skip(i as int);
                        proof {
                            assert(rest.drop_first() =~= texts(names@).skip(i + 1));
                            assert(rest[0] == names@[i as int]@);
                        }
                        let name = names[i].as_str();
                        if starts_with(&chars_of(name), &bat) {
                            if answers.len() == k {
                                return ask_supply_file(name, "capacity");
                            }
                            if answers.len() == k + 1 {
                                return ask_supply_file(name, "status");
                            }
                            proof {
                                assert(h.skip(k as int)[0] == answers@[k as int]@);
                                assert(h.skip(k as int)[1] == answers@[k + 1]@);
                                assert(h.skip(k as int).skip(2) =~= h.skip(k + 2));
                            }
                            let capacity = contents_of(&answers[k]);
                            let status = contents_of(&answers[k + 1]);
                            match (capacity, status) {
                                (Some(c), Some(s)) => {
                                    return done_with_gauge(&c, &s);
                                },
                                _ => {},
                            }
                            k += 2;
                        }
                        i += 1;
                    }
                    unknown()
                },
                _ => unknown(),
            }
        },
        _ => unknown(),
    }
}

} // verus!
