//! Who made the device and what it is called.

use crate::host::{
    ask_read, ask_run1, command, done, done_or_unknown, ends_well, file_reading_of, finish,
    history, read, reading_of, unknown, Answer, AnswerView, Platform, Step, StepView, UNKNOWN,
};
use crate::text::{chars_of, same};
use vstd::prelude::*;

verus! {

/// The file that holds the vendor's name.
pub const DMI_VENDOR: &'static str = "/sys/class/dmi/id/sys_vendor";

/// The file that holds the product's name.
pub const DMI_PRODUCT_NAME: &'static str = "/sys/class/dmi/id/product_name";

/// The file that holds the product's version.
pub const DMI_PRODUCT_VERSION: &'static str = "/sys/class/dmi/id/product_version";

/// A probe with one source, the command `cmd arg`: its value is the trimmed
/// output where the command succeeds and prints anything, else the sentinel.
pub open spec fn command_value(cmd: &str, arg: &str, h: Seq<AnswerView>) -> StepView {
    if h.len() == 0 {
        command(cmd, seq![arg])
    } else {
        finish(h[0].reading())
    }
}

/// A probe with one source, the file at `path`: its value is the trimmed
/// text where the file can be read and holds anything, else the sentinel.
pub open spec fn file_value(path: &str, h: Seq<AnswerView>) -> StepView {
    if h.len() == 0 {
        read(path@)
    } else {
        finish(h[0].file_reading())
    }
}

/// `found`, unless it is the sentinel itself.
pub open spec fn known(found: Option<Seq<char>>) -> Option<Seq<char>> {
    match found {
        Some(v) => if v == UNKNOWN@ {
            None
        } else {
            Some(v)
        },
        None => None,
    }
}

/// The device's model. Android: the property `ro.product.model`. Linux: the
/// product's name, and where that is not to be had its version.
pub open spec fn device_model(platform: Platform, h: Seq<AnswerView>) -> StepView {
    match platform {
        Platform::Android => command_value("getprop", "ro.product.model", h),
        Platform::Linux => if h.len() == 0 {
            read(DMI_PRODUCT_NAME@)
        } else {
            match known(h[0].file_reading()) {
                Some(v) => StepView::Done(v),
                None => if h.len() == 1 {
                    read(DMI_PRODUCT_VERSION@)
                } else {
                    finish(h[1].file_reading())
                },
            }
        },
        _ => finish(None),
    }
}

/// The device's maker. Android: the property `ro.product.manufacturer`.
/// Linux: the vendor's name.
pub open spec fn device_manufacturer(platform: Platform, h: Seq<AnswerView>) -> StepView {
    match platform {
        Platform::Android => command_value("getprop", "ro.product.manufacturer", h),
        Platform::Linux => file_value(DMI_VENDOR, h),
        _ => finish(None),
    }
}

/// The next step of the probe that runs `cmd arg` and takes its trimmed output.
pub fn read_from_command(cmd: &str, arg: &str, answers: &Vec<Answer>) -> (step: Step)
    ensures
        step@ == command_value(cmd, arg, history(answers@)),
        ends_well(step@),
{
    if answers.len() == 0 {
        ask_run1(cmd, arg)
    } else {
        let found = reading_of(&answers[0]);
        done_or_unknown(&found)
    }
}

/// The next step of the probe that reads the file at `path` and takes its
/// trimmed text.
pub fn read_file_trim(path: &str, answers: &Vec<Answer>) -> (step: Step)
    ensures
        step@ == file_value(path, history(answers@)),
        ends_well(step@),
{
    if answers.len() == 0 {
        ask_read(path)
    } else {
        let found = file_reading_of(&answers[0]);
        done_or_unknown(&found)
    }
}

/// The next step of the probe for the device's model.
pub fn get_device_model(platform: Platform, answers: &Vec<Answer>) -> (step: Step)
    ensures
        step@ == device_model(platform, history(answers@)),
        ends_well(step@),
{
    match platform {
        Platform::Android => read_from_command("getprop", "ro.product.model", answers),
        Platform::Linux => {
            if answers.len() == 0 {
                return ask_read(DMI_PRODUCT_NAME);
            }
            let name = file_reading_of(&answers[0]);
            if let Some(v) = name {
                if !same(&v, &chars_of(UNKNOWN)) {
                    return done(&v);
                }
            }
            if answers.len() == 1 {
                return ask_read(DMI_PRODUCT_VERSION);
            }
            let version = file_reading_of(&answers[1]);
            done_or_unknown(&version)
        },
        _ => unknown(),
    }
}

/// The next step of the probe for the device's maker.
pub fn get_device_manufacturer(platform: Platform, answers: &Vec<Answer>) -> (step: Step)
    ensures
        step@ == device_manufacturer(platform, history(answers@)),
        ends_well(step@),
{
    match platform {
        Platform::Android => read_from_command("getprop", "ro.product.manufacturer", answers),
        Platform::Linux => read_file_trim(DMI_VENDOR, answers),
        _ => unknown(),
    }
}

} // verus!
