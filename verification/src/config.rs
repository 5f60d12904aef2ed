use vstd::prelude::*;
use chrono::Timelike;

verus! {

/// The applet's identifier, also the name of its configuration entry.
pub const APP_ID: &'static str = "sh.tangled.one.weird.nandi.weather-applet";

/// Icon shown in the panel during the day.
pub const SUN_ICON: &'static str = "sh.tangled.one.weird.nandi.weather-applet-sun-symbolic";

/// Icon shown in the panel at night.
pub const MOON_ICON: &'static str = "sh.tangled.one.weird.nandi.weather-applet-moon-symbolic";

/// Version of the configuration schema.
pub const CONFIG_VERSION: u64 = 1;

/// Day time runs from 06:00 up to, not including, 18:00.
pub open spec fn is_daytime(hour: u32) -> bool {
    6 <= hour < 18
}

/// The icon for the given hour of the local day.
pub fn icon_for_hour(hour: u32) -> (icon: &'static str)
    ensures
        6 <= hour < 18 ==> icon@ == SUN_ICON@,
        hour < 6 || hour >= 18 ==> icon@ == MOON_ICON@,
        is_daytime(hour) ==> icon@ == SUN_ICON@,
        !is_daytime(hour) ==> icon@ == MOON_ICON@,
{
    if 6 <= hour && hour < 18 {
        SUN_ICON
    } else {
        MOON_ICON
    }
}

/// The hour of the current local time, through `chrono::Local::now` and
/// `Timelike::hour`. It depends on the clock and the time zone, so only its
/// range, which chrono documents as 0 to 23, is claimed.
#[verifier::external_body]
fn local_hour() -> (hour: u32)
    ensures
        hour < 24,
{
    chrono::Local::now().hour()
}

/// The current local hour (0 to 23) and the icon for it: the sun from 06:00
/// up to 18:00, the moon otherwise.
pub fn current_hour_and_icon() -> (r: (u32, &'static str))
    ensures
        r.0 < 24,
        6 <= r.0 < 18 ==> r.1@ == SUN_ICON@,
        r.0 < 6 || r.0 >= 18 ==> r.1@ == MOON_ICON@,
{
    let hour = local_hour();
    (hour, icon_for_hour(hour))
}

/// The icon for the current local hour: the sun by day, the moon by night.
/// The hour it was chosen for is what `current_hour_and_icon` returns with it.
pub fn current_icon() -> (icon: &'static str)
    ensures
        icon@ == SUN_ICON@ || icon@ == MOON_ICON@,
{
    let (_hour, icon) = current_hour_and_icon();
    icon
}

} // verus!
