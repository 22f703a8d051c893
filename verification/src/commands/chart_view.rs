//! The interactive price chart of the `chart` command: which range is
//! selected and fetched, the trace mode that steps through the candles, and
//! what each key and each fetch result does to it.
use vstd::prelude::*;

use super::params::{Interval, TimeRange};
use crate::format::{nat_text, usize_text};
use crate::keys::{KeyCode, KeyEvent, KeyModifiers};
use crate::text::{push_str, string_of};

verus! {

/// The ranges the chart offers, in order, each with its label and the bar
/// interval it is fetched at.
pub open spec fn range_options() -> Seq<(Seq<char>, TimeRange, Interval)> {
    seq![
        ("1D"@, TimeRange::OneDay, Interval::FiveMinutes),
        ("5D"@, TimeRange::FiveDays, Interval::FifteenMinutes),
        ("1M"@, TimeRange::OneMonth, Interval::OneDay),
        ("6M"@, TimeRange::SixMonths, Interval::OneDay),
        ("YTD"@, TimeRange::YearToDate, Interval::OneDay),
        ("1Y"@, TimeRange::OneYear, Interval::OneDay),
        ("5Y"@, TimeRange::FiveYears, Interval::OneWeek),
        ("Max"@, TimeRange::Max, Interval::OneWeek),
    ]
}

/// The number of ranges offered.
pub const RANGE_COUNT: usize = 8;

/// The range offered at index `i`: its label, the range and its interval.
pub fn range_option(i: usize) -> (r: (&'static str, TimeRange, Interval))
    requires
        i < RANGE_COUNT,
    ensures
        (r.0@, r.1, r.2) == range_options()[i as int],
{
    let options = [
        ("1D", TimeRange::OneDay, Interval::FiveMinutes),
        ("5D", TimeRange::FiveDays, Interval::FifteenMinutes),
        ("1M", TimeRange::OneMonth, Interval::OneDay),
        ("6M", TimeRange::SixMonths, Interval::OneDay),
        ("YTD", TimeRange::YearToDate, Interval::OneDay),
        ("1Y", TimeRange::OneYear, Interval::OneDay),
        ("5Y", TimeRange::FiveYears, Interval::OneWeek),
        ("Max", TimeRange::Max, Interval::OneWeek),
    ];
    options[i]
}

/// The index of the range the chart starts on: that of the range asked for
/// when it is offered, else the one month range.
pub open spec fn initial_range_index(r: TimeRange) -> usize {
    match r {
        TimeRange::OneDay => 0,
        TimeRange::FiveDays => 1,
        TimeRange::OneMonth => 2,
        TimeRange::SixMonths => 3,
        TimeRange::YearToDate => 4,
        TimeRange::OneYear => 5,
        TimeRange::FiveYears => 6,
        TimeRange::Max => 7,
        _ => 2,
    }
}

/// The label of a bar interval.
pub open spec fn interval_text(i: Interval) -> Seq<char> {
    match i {
        Interval::OneMinute => "1m"@,
        Interval::FiveMinutes => "5m"@,
        Interval::FifteenMinutes => "15m"@,
        Interval::OneHour => "1h"@,
        Interval::OneDay => "1d"@,
        Interval::OneWeek => "1wk"@,
        Interval::OneMonth => "1mo"@,
    }
}

/// The label of a bar interval.
pub fn interval_label(i: Interval) -> (r: &'static str)
    ensures
        r@ == interval_text(i),
{
    match i {
        Interval::OneMinute => "1m",
        Interval::FiveMinutes => "5m",
        Interval::FifteenMinutes => "15m",
        Interval::OneHour => "1h",
        Interval::OneDay => "1d",
        Interval::OneWeek => "1wk",
        Interval::OneMonth => "1mo",
    }
}

/// The chart's state: the selected range (its index among those offered),
/// the range and interval to fetch, whether a fetch is due, how many candles
/// the last fetched chart has (none before the first), the last fetch
/// error, and the trace mode with the candle it points at.
pub struct ChartView {
    pub range_idx: usize,
    pub range: TimeRange,
    pub interval: Interval,
    pub loading: bool,
    pub candles: Option<usize>,
    pub error: Option<String>,
    pub focus: bool,
    pub focus_index: usize,
}

impl ChartView {
    /// The selected range is one of those offered.
    pub open spec fn wf(&self) -> bool {
        self.range_idx < RANGE_COUNT
    }

    /// The chart at its start, about to fetch: the range asked for, at the
    /// interval of the range it selects.
    pub fn new(initial: TimeRange) -> (v: Self)
        ensures
            v.wf(),
            v.range_idx == initial_range_index(initial),
            v.range == initial,
            v.interval == range_options()[initial_range_index(initial) as int].2,
            v.loading,
            v.candles is None,
            v.error is None,
            !v.focus,
            v.focus_index == 0,
    {
        let idx: usize = match initial {
            TimeRange::OneDay => 0,
            TimeRange::FiveDays => 1,
            TimeRange::OneMonth => 2,
            TimeRange::SixMonths => 3,
            TimeRange::YearToDate => 4,
            TimeRange::OneYear => 5,
            TimeRange::FiveYears => 6,
            TimeRange::Max => 7,
            _ => 2,
        };
        let (_, _, interval) = range_option(idx);
        ChartView {
            range_idx: idx,
            range: initial,
            interval,
            loading: true,
            candles: None,
            error: None,
            focus: false,
            focus_index: 0,
        }
    }
}

/// The candles of the chart shown (none before the first fetch).
pub open spec fn data_len(v: ChartView) -> usize {
    match v.candles {
        Some(n) => n,
        None => 0,
    }
}

/// The chart with the range at index `i` selected, to be fetched.
pub open spec fn select_range(v: ChartView, i: usize) -> ChartView {
    ChartView {
        range_idx: i,
        range: range_options()[i as int].1,
        interval: range_options()[i as int].2,
        loading: true,
        ..v
    }
}

/// The last candle (the first one when there is none).
pub open spec fn last_candle(n: usize) -> usize {
    if n == 0 {
        0
    } else {
        (n - 1) as usize
    }
}

/// What a key press does to the chart, and whether it closes it.
pub open spec fn chart_key(v: ChartView, key: KeyEvent) -> (ChartView, bool) {
    let n = data_len(v);
    match key.code {
        KeyCode::Char('q') => (v, true),
        KeyCode::Char('c') if key.modifiers.control => (v, true),
        KeyCode::Esc => if v.focus {
            (ChartView { focus: false, ..v }, false)
        } else {
            (v, true)
        },
        KeyCode::Enter => if v.focus {
            (ChartView { focus: false, ..v }, false)
        } else if n > 0 {
            (ChartView { focus: true, focus_index: n / 2, ..v }, false)
        } else {
            (v, false)
        },
        KeyCode::Left | KeyCode::Char('h') => if v.focus {
            (
                ChartView {
                    focus_index: if v.focus_index > 0 {
                        (v.focus_index - 1) as usize
                    } else {
                        0
                    },
                    ..v
                },
                false,
            )
        } else if v.range_idx > 0 {
            (select_range(v, (v.range_idx - 1) as usize), false)
        } else {
            (v, false)
        },
        KeyCode::Right | KeyCode::Char('l') => if v.focus {
            (
                ChartView {
                    focus_index: if v.focus_index < last_candle(n) {
                        (v.focus_index + 1) as usize
                    } else {
                        v.focus_index
                    },
                    ..v
                },
                false,
            )
        } else if v.range_idx < RANGE_COUNT - 1 {
            (select_range(v, (v.range_idx + 1) as usize), false)
        } else {
            (v, false)
        },
        KeyCode::BackTab => if !v.focus && v.range_idx > 0 {
            (select_range(v, (v.range_idx - 1) as usize), false)
        } else {
            (v, false)
        },
        KeyCode::Tab => if !v.focus && v.range_idx < RANGE_COUNT - 1 {
            (select_range(v, (v.range_idx + 1) as usize), false)
        } else {
            (v, false)
        },
        KeyCode::Home => if v.focus {
            (ChartView { focus_index: 0, ..v }, false)
        } else {
            (v, false)
        },
        KeyCode::End => if v.focus {
            (ChartView { focus_index: last_candle(n), ..v }, false)
        } else {
            (v, false)
        },
        _ => (v, false),
    }
}

impl ChartView {
    fn select(&mut self, i: usize)
        requires
            i < RANGE_COUNT,
        ensures
            *final(self) == select_range(*old(self), i),
    {
        let (_, range, interval) = range_option(i);
        self.range_idx = i;
        self.range = range;
        self.interval = interval;
        self.loading = true;
    }

    /// Applies a key press: `q` and Ctrl-C close the chart, and so does Esc
    /// outside the trace mode, which it leaves; Enter enters the trace mode
    /// at the middle candle, or leaves it; Left/Right (`h`/`l`) step through
    /// the candles in the trace mode and through the ranges outside it, as
    /// (Back)Tab does; Home and End jump to the first and last candle.
    pub fn handle_key(&mut self, key: KeyEvent) -> (quit: bool)
        requires
            old(self).wf(),
        ensures
            *final(self) == chart_key(*old(self), key).0,
            quit == chart_key(*old(self), key).1,
    {
        let n: usize = match self.candles {
            Some(n) => n,
            None => 0,
        };
        let last = n.saturating_sub(1);
        match key.code {
            KeyCode::Char('q') => true,
            KeyCode::Char('c') if key.modifiers.control => true,
            KeyCode::Esc => {
                if self.focus {
                    self.focus = false;
                    false
                } else {
                    true
                }
            },
            KeyCode::Enter => {
                if self.focus {
                    self.focus = false;
                } else if n > 0 {
                    self.focus = true;
                    self.focus_index = n / 2;
                }
                false
            },
            KeyCode::Left | KeyCode::Char('h') => {
                if self.focus {
                    self.focus_index = self.focus_index.saturating_sub(1);
                } else if self.range_idx > 0 {
                    self.select(self.range_idx - 1);
                }
                false
            },
            KeyCode::Right | KeyCode::Char('l') => {
                if self.focus {
                    if self.focus_index < last {
                        self.focus_index = self.focus_index + 1;
                    }
                } else if self.range_idx < RANGE_COUNT - 1 {
                    self.select(self.range_idx + 1);
                }
                false
            },
            KeyCode::BackTab => {
                if !self.focus && self.range_idx > 0 {
                    self.select(self.range_idx - 1);
                }
                false
            },
            KeyCode::Tab => {
                if !self.focus && self.range_idx < RANGE_COUNT - 1 {
                    self.select(self.range_idx + 1);
                }
                false
            },
            KeyCode::Home => {
                if self.focus {
                    self.focus_index = 0;
                }
                false
            },
            KeyCode::End => {
                if self.focus {
                    self.focus_index = last;
                }
                false
            },
            _ => false,
        }
    }

    /// Takes in a fetched chart of `candles` candles: it is shown, the fetch
    /// is done, and the last error is cleared.
    pub fn finish_fetch(&mut self, candles: usize)
        ensures
            final(self).candles == Some(candles),
            !final(self).loading,
            final(self).error is None,
            final(self).range_idx == old(self).range_idx,
            final(self).range == old(self).range,
            final(self).interval == old(self).interval,
            final(self).focus == old(self).focus,
            final(self).focus_index == old(self).focus_index,
    {
        self.candles = Some(candles);
        self.loading = false;
        self.error = None;
    }

    /// Takes in a failed fetch: its message is shown as `Error: ...`, the
    /// fetch is done, and the chart shown before stays.
    pub fn fail_fetch(&mut self, message: &str)
        ensures
            final(self).error matches Some(e) && e@ == "Error: "@ + message@,
            !final(self).loading,
            final(self).candles == old(self).candles,
            final(self).range_idx == old(self).range_idx,
            final(self).range == old(self).range,
            final(self).interval == old(self).interval,
            final(self).focus == old(self).focus,
            final(self).focus_index == old(self).focus_index,
    {
        let mut e = string_of("Error: ");
        push_str(&mut e, message);
        self.error = Some(e);
        self.loading = false;
    }

    /// Brings the traced candle back onto the chart shown, when it has
    /// candles and the candle is past its end.
    pub fn fit_focus(&mut self)
        ensures
            final(self).focus_index == (match old(self).candles {
                Some(n) => if n > 0 && old(self).focus_index >= n {
                    (n - 1) as usize
                } else {
                    old(self).focus_index
                },
                None => old(self).focus_index,
            }),
            final(self).candles == old(self).candles,
            final(self).error == old(self).error,
            final(self).range_idx == old(self).range_idx,
            final(self).range == old(self).range,
            final(self).interval == old(self).interval,
            final(self).loading == old(self).loading,
            final(self).focus == old(self).focus,
    {
        if let Some(n) = self.candles {
            if n > 0 && self.focus_index >= n {
                self.focus_index = n - 1;
            }
        }
    }

    /// The status at the foot of the chart: ` Loading...` while fetching,
    /// else the interval and the number of candles of the chart shown, else
    /// nothing.
    pub fn status_text(&self) -> (s: String)
        ensures
            s@ == (if self.loading {
                " Loading..."@
            } else {
                match self.candles {
                    Some(n) => " "@ + interval_text(self.interval) + " | "@ + nat_text(n as nat)
                        + " pts"@,
                    None => ""@,
                }
            }),
    {
        if self.loading {
            string_of(" Loading...")
        } else {
            match self.candles {
                Some(n) => {
                    let mut s = string_of(" ");
                    push_str(&mut s, interval_label(self.interval));
                    push_str(&mut s, " | ");
                    let count = usize_text(n);
                    push_str(&mut s, count.as_str());
                    push_str(&mut s, " pts");
                    s
                },
                None => string_of(""),
            }
        }
    }
}

/// The range the chart starts on is the one asked for, when it is offered.
pub proof fn law_initial_range_offered(r: TimeRange)
    ensures
        initial_range_index(r) < RANGE_COUNT,
        (exists|i: int| 0 <= i < RANGE_COUNT && range_options()[i].1 == r)
            ==> range_options()[initial_range_index(r) as int].1 == r,
{
}

/// Every key press keeps the selected range among those offered, and a key
/// that changes the range asks for a fetch of the range it selects.
pub proof fn law_chart_key_keeps_range(v: ChartView, key: KeyEvent)
    requires
        v.wf(),
    ensures
        chart_key(v, key).0.wf(),
        chart_key(v, key).0.range_idx != v.range_idx ==> chart_key(v, key).0.loading
            && chart_key(v, key).0.range == range_options()[chart_key(v, key).0.range_idx as int].1
            && chart_key(v, key).0.interval == range_options()[chart_key(v, key).0.range_idx as int].2,
{
}

/// In the trace mode, the traced candle stays on a chart that has candles.
pub proof fn law_trace_stays_on_chart(v: ChartView, key: KeyEvent)
    requires
        v.wf(),
        data_len(v) > 0,
        v.focus ==> v.focus_index < data_len(v),
    ensures
        chart_key(v, key).0.focus ==> chart_key(v, key).0.focus_index < data_len(v),
{
}

/// Stepping to the previous range and back selects the range again.
pub proof fn law_range_steps_undo(v: ChartView, modifiers: KeyModifiers)
    requires
        v.wf(),
        !v.focus,
        v.range_idx > 0,
    ensures
        ({
            let left = KeyEvent { code: KeyCode::Left, modifiers };
            let right = KeyEvent { code: KeyCode::Right, modifiers };
            let back = chart_key(chart_key(v, left).0, right).0;
            back == select_range(v, v.range_idx)
        }),
{
}

} // verus!
