//! Battery reports of the keyboard on its USB vendor channel.
use vstd::prelude::*;

verus! {

/// First byte of every report on the vendor channel.
pub const USB_REPORT_VENDOR: u8 = 0x5a;

/// Second byte of a battery report.
pub const USB_BATTERY_SUBTYPE: u8 = 0x3d;

/// Status while the charge climbs.
pub const USB_BATTERY_STATUS_CHARGING: u8 = 0x09;

/// Status at the end of a charge.
pub const USB_BATTERY_STATUS_FULL: u8 = 0x01;

/// A charge from which the battery counts as full, whatever the status says.
pub const BATTERY_FULL_PCT_THRESHOLD: u8 = 95;

pub open spec fn charging(status: u8, pct: u8) -> bool {
    status == USB_BATTERY_STATUS_CHARGING && pct < BATTERY_FULL_PCT_THRESHOLD
}

pub open spec fn full(status: u8, pct: u8) -> bool {
    status == USB_BATTERY_STATUS_FULL || pct >= BATTERY_FULL_PCT_THRESHOLD
}

/// Whether a report says that the battery is being charged.
pub fn usb_battery_charging(status: u8, pct: u8) -> (r: bool)
    ensures
        r == charging(status, pct),
{
    status == USB_BATTERY_STATUS_CHARGING && pct < BATTERY_FULL_PCT_THRESHOLD
}

/// Whether a report says that the battery is full.
pub fn usb_battery_full(status: u8, pct: u8) -> (r: bool)
    ensures
        r == full(status, pct),
{
    status == USB_BATTERY_STATUS_FULL || pct >= BATTERY_FULL_PCT_THRESHOLD
}

/// Charge and status of a battery report: four bytes or more, the first two fixed, the charge at
/// most a hundred.
pub open spec fn battery_report(data: Seq<u8>) -> Option<(u8, u8)> {
    if data.len() >= 4 && data[0] == USB_REPORT_VENDOR && data[1] == USB_BATTERY_SUBTYPE && data[2]
        <= 100 {
        Some((data[2], data[3]))
    } else {
        None
    }
}

/// Reads a battery report.
pub fn parse_usb_battery_report(data: &[u8]) -> (r: Option<(u8, u8)>)
    ensures
        r == battery_report(data@),
{
    if data.len() >= 4 && data[0] == USB_REPORT_VENDOR && data[1] == USB_BATTERY_SUBTYPE && data[2]
        <= 100 {
        Some((data[2], data[3]))
    } else {
        None
    }
}

pub open spec fn plausible(pct: u8, status: u8) -> bool {
    !(pct == 0 && status == 0)
}

/// Whether a report is a sample at all: one that is all zero only echoes the request.
pub fn plausible_usb_battery_sample(pct: u8, status: u8) -> (r: bool)
    ensures
        r == plausible(pct, status),
{
    !(pct == 0 && status == 0)
}

/// No report says both that the battery is charging and that it is full.
pub proof fn law_charging_is_not_full(status: u8, pct: u8)
    ensures
        !(charging(status, pct) && full(status, pct)),
{
}

/// The battery charges on status 9 below 95 percent, and is full on status 1 or from 95 percent on.
pub proof fn law_battery_status(status: u8, pct: u8)
    ensures
        charging(status, pct) <==> status == 9 && pct < 95,
        full(status, pct) <==> status == 1 || pct >= 95,
        plausible(pct, status) <==> pct != 0 || status != 0,
{
}

/// A battery report begins with 5a 3d and gives a percentage and the status; anything else is no
/// battery report.
pub proof fn law_battery_reports(data: Seq<u8>, pct: u8, status: u8)
    ensures
        battery_report(data) == Some((pct, status)) <==> data.len() >= 4 && data[0] == 0x5a
            && data[1] == 0x3d && data[2] == pct && data[3] == status && pct <= 100,
        battery_report(data) is None <==> data.len() < 4 || data[0] != 0x5a || data[1] != 0x3d
            || data[2] > 100,
{
}

} // verus!
