//! Where samples come from: the pointer and keyboard state of the machine,
//! and its clock.

use vstd::prelude::*;
use chrono::{DateTime, Utc};
use std::time::SystemTime;
use device_query::{DeviceQuery, DeviceState};
use crate::sample::{is_reading, keys_of, pointer_of, TrackingData};

verus! {

/// `device_query::DeviceState`, the handle through which the pointer and
/// the keyboard are queried. It is carried through as it is: nothing is
/// known of what it holds.
#[verifier::external_type_specification]
#[verifier::external_body]
pub struct ExDeviceState(device_query::DeviceState);

/// `DeviceQuery::get_mouse` on `device`, of which the coordinates are kept.
/// They are whatever the display server reports at the moment of the call,
/// so nothing is claimed of them.
#[verifier::external_body]
fn pointer_coords(device: &DeviceState) -> (coords: (i32, i32)) {
    device.get_mouse().coords
}

/// `DeviceQuery::get_keys` on `device`, each key turned into its name by
/// `Keycode`'s `Display`. The keys are whatever is held down at the moment
/// of the call, so nothing is claimed of the list.
#[verifier::external_body]
fn pressed_key_names(device: &DeviceState) -> (names: Vec<String>) {
    device.get_keys().iter().map(|key| key.to_string()).collect()
}

/// Whether `date` has the shape of every timestamp that is written for a
/// time in UTC: a date and a time of day, 19 characters at the least, and
/// then the offset `+00:00`.
pub open spec fn is_utc_stamp(date: Seq<char>) -> bool {
    &&& date.len() >= 25
    &&& date.subrange(date.len() - 6, date.len() as int) == seq!['+', '0', '0', ':', '0', '0']
}

/// `std::time::SystemTime::now`, handed to chrono's conversion from a
/// `SystemTime` into a `DateTime<Utc>`, followed by `DateTime::to_rfc3339`.
/// The conversion takes a clock that reads a time before 1970 as well as one
/// after; it gives up only on a time outside the years that chrono can
/// represent, some 262 000 either way. Which time is written depends on the
/// clock, so only the shape of the text is claimed: `to_rfc3339` writes a
/// year of four digits or more, then `-MM-DDTHH:MM:SS`, then a fraction of
/// the second if there is one, and for UTC always the offset `+00:00`.
#[verifier::external_body]
fn timestamp_now() -> (date: String)
    ensures
        is_utc_stamp(date@),
{
    DateTime::<Utc>::from(SystemTime::now()).to_rfc3339()
}

/// Builds the sample for a raw device reading, stamped with the current
/// time. The pointer and the keys are those of the reading; the timestamp is
/// the time that the clock gives, written for UTC.
pub fn sample_now(x: i32, y: i32, keys: Vec<String>) -> (sample: TrackingData)
    ensures
        sample@.pointer == pointer_of(x as int, y as int),
        sample@.keys == keys_of(keys.deep_view()),
        is_reading(sample@),
        is_utc_stamp(sample@.date),
{
    let date = timestamp_now();
    TrackingData::from_reading(date, x, y, keys)
}

/// Takes one reading of the pointer and the keyboard from `device` and
/// builds the sample for it, stamped with the current time. Whatever the
/// machine reports, the sample records a pointer only without a zero
/// coordinate and key strokes only if there are any, and its timestamp is
/// written for UTC.
pub fn read_sample(device: &DeviceState) -> (sample: TrackingData)
    ensures
        is_reading(sample@),
        is_utc_stamp(sample@.date),
{
    let coords = pointer_coords(device);
    let keys = pressed_key_names(device);
    sample_now(coords.0, coords.1, keys)
}

} // verus!
