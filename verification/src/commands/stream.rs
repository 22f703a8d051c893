//! The `stream` command's naming of market sessions.
use vstd::prelude::*;

verus! {

/// The trading session that a streamed price belongs to.
#[derive(Debug, Clone, Copy, PartialEq, Eq, Structural)]
pub enum MarketHours {
    PreMarket,
    RegularMarket,
    PostMarket,
    ExtendedHoursMarket,
}

/// Calls `chrono::Utc::now`, converts the time to the America/New_York zone
/// with `chrono-tz`, and reads its hour with `chrono::Timelike::hour`, which
/// the crate documents as a number from 0 to 23. The hour depends on the
/// clock, so nothing else is stated.
#[verifier::external_body]
fn new_york_hour_now() -> (h: u32)
    ensures
        h < 24,
{
    chrono::Timelike::hour(&chrono::Utc::now().with_timezone(&chrono_tz::America::New_York))
}

/// The overnight session runs from 8 PM to 4 AM New York time.
pub open spec fn overnight_hour(hour: u32) -> bool {
    hour >= 20 || hour < 4
}

/// Whether an hour of the New York day falls in the overnight session.
pub fn is_overnight_hour(hour: u32) -> (b: bool)
    ensures
        b == overnight_hour(hour),
{
    hour >= 20 || hour < 4
}

/// Whether it is now the overnight session (8 PM to 4 AM New York time).
pub fn is_overnight_session() -> (b: bool) {
    let hour = new_york_hour_now();
    is_overnight_hour(hour)
}

/// The name shown for a session; pre-market prices read `Overnight` during
/// the overnight session.
pub open spec fn session_name(kind: MarketHours, overnight: bool) -> Seq<char> {
    match kind {
        MarketHours::RegularMarket => "Regular"@,
        MarketHours::PreMarket => if overnight {
            "Overnight"@
        } else {
            "Pre-Market"@
        },
        MarketHours::PostMarket => "After-Hours"@,
        MarketHours::ExtendedHoursMarket => "Extended"@,
    }
}

/// The name of a session, given whether it is the overnight session.
pub fn session_label(kind: MarketHours, overnight: bool) -> (r: &'static str)
    ensures
        r@ == session_name(kind, overnight),
{
    match kind {
        MarketHours::RegularMarket => "Regular",
        MarketHours::PreMarket => if overnight {
            "Overnight"
        } else {
            "Pre-Market"
        },
        MarketHours::PostMarket => "After-Hours",
        MarketHours::ExtendedHoursMarket => "Extended",
    }
}

/// The name of a session now; only pre-market prices consult the clock.
pub fn market_hours_label(kind: MarketHours) -> (r: &'static str)
    ensures
        kind != MarketHours::PreMarket ==> r@ == session_name(kind, false),
        kind == MarketHours::PreMarket ==> r@ == session_name(kind, true) || r@ == session_name(
            kind,
            false,
        ),
{
    match kind {
        MarketHours::PreMarket => session_label(kind, is_overnight_session()),
        _ => session_label(kind, false),
    }
}

} // verus!
