//! The dashboard's status line: the status message, the item count of the
//! tab, the time of the last update and the keys of the focused pane, or the
//! form being filled in.
use vstd::prelude::*;

use super::state::{App, AppView, FocusPane, InputMode, Tab};
use crate::format::{byte_prefix, is_boundary, nat_text, take_bytes, usize_text};
use crate::text::{byte_len, push_char, push_str, str_byte_len, str_chars, string_of};

verus! {

/// The keys offered for the focused pane of the tab.
pub open spec fn focus_hint(tab: Tab, focus: FocusPane) -> Seq<char> {
    if tab == Tab::Alerts {
        "j/k:nav a:add d:del e:toggle c:check"@
    } else if tab == Tab::Portfolio {
        if focus == FocusPane::Left {
            "j/k:nav a:add d:delete"@
        } else {
            "Esc:back"@
        }
    } else if focus == FocusPane::Left {
        if tab == Tab::Watchlist {
            "j/k:nav a:add d:del 1/2/3:scroll 0:reset"@
        } else {
            "j/k:nav a:add d:delete l/→:focus"@
        }
    } else if tab == Tab::Charts {
        "←/→:range Esc/h:back"@
    } else if tab == Tab::News {
        "j/k:scroll Enter:open Esc/h:back"@
    } else if tab == Tab::Watchlist {
        "Esc/h:back"@
    } else if tab == Tab::Lookup {
        "j/k:nav Enter:add Esc/h:back"@
    } else if tab == Tab::Screeners {
        "←/→:cat j/k:nav Enter:add Esc/h:back"@
    } else {
        "Esc:back"@
    }
}

fn focus_hint_text(tab: Tab, focus: FocusPane) -> (r: &'static str)
    ensures
        r@ == focus_hint(tab, focus),
{
    match tab {
        Tab::Alerts => "j/k:nav a:add d:del e:toggle c:check",
        Tab::Portfolio => match focus {
            FocusPane::Left => "j/k:nav a:add d:delete",
            FocusPane::Right => "Esc:back",
        },
        _ => match focus {
            FocusPane::Left => match tab {
                Tab::Watchlist => "j/k:nav a:add d:del 1/2/3:scroll 0:reset",
                _ => "j/k:nav a:add d:delete l/→:focus",
            },
            FocusPane::Right => match tab {
                Tab::Charts => "←/→:range Esc/h:back",
                Tab::News => "j/k:scroll Enter:open Esc/h:back",
                Tab::Watchlist => "Esc/h:back",
                Tab::Lookup => "j/k:nav Enter:add Esc/h:back",
                Tab::Screeners => "←/→:cat j/k:nav Enter:add Esc/h:back",
                _ => "Esc:back",
            },
        },
    }
}

/// Columns inside the status box (its border takes two).
pub open spec fn inner_width(width: u16) -> int {
    if width >= 2 {
        width - 2
    } else {
        0
    }
}

/// Room left for the status message next to the rest of the line.
pub open spec fn message_room(width: u16) -> int {
    if inner_width(width) >= 60 {
        inner_width(width) - 60
    } else {
        0
    }
}

/// The status message, cut with `...` when it does not fit.
pub open spec fn shown_message(msg: Seq<char>, room: int) -> Seq<char> {
    if byte_len(msg) > room && room > 3 {
        byte_prefix(msg, room - 3) + "..."@
    } else {
        msg
    }
}

/// How many items the tab lists.
pub open spec fn count_text(app: AppView) -> Seq<char> {
    if app.active_tab == Tab::Alerts {
        nat_text(app.alerts.len()) + " alerts"@
    } else if app.active_tab == Tab::Portfolio {
        nat_text(app.portfolio_symbols.len()) + " positions"@
    } else {
        nat_text(app.current_watchlist.symbols.len()) + " symbols"@
    }
}

/// A field of the alert form: the one being edited shows a cursor, an
/// empty one its placeholder.
pub open spec fn form_field(value: Seq<char>, editing: bool, placeholder: Seq<char>) -> Seq<char> {
    if editing {
        "["@ + value + "▌]"@
    } else if value.len() == 0 {
        placeholder
    } else {
        value
    }
}

/// The status line before it is fitted to the width.
pub open spec fn status_line(
    app: AppView,
    width: u16,
    update_time: Option<Seq<char>>,
    alert_type: Seq<char>,
) -> Seq<char> {
    match app.input_mode {
        InputMode::Normal => " "@ + shown_message(app.status_message, message_room(width)) + " | "@
            + count_text(app) + " | Last: "@ + (match update_time {
            Some(t) => t,
            None => "N/A"@,
        }) + " | "@ + focus_hint(app.active_tab, app.focus_pane),
        InputMode::AddSymbol => " Add symbol: "@ + app.input_buffer
            + " | Enter:confirm Esc:cancel"@,
        InputMode::AddAlert => " "@ + form_field(
            app.alert_form_symbol,
            app.alert_form_field == 0,
            "[SYM]"@,
        ) + " "@ + (if app.alert_form_field == 1 {
            "<"@ + alert_type + ">"@
        } else {
            alert_type
        }) + " "@ + form_field(app.alert_form_threshold, app.alert_form_field == 2, "[VAL]"@)
            + " | Tab:next ←/→:type Enter:create Esc:cancel"@,
        InputMode::AddPosition => " Adding position... | Esc:cancel"@,
    }
}

/// A line fitted to `width` columns: longer lines keep their first
/// `width - 1` characters followed by `…`.
pub open spec fn fitted(line: Seq<char>, width: int) -> Seq<char> {
    if line.len() > width {
        line.take(if width >= 1 {
            width - 1
        } else {
            0
        }) + "…"@
    } else {
        line
    }
}

/// A fitted line never has more characters than the width, and a line
/// that fits is left as it is.
pub proof fn law_fitted_within_width(line: Seq<char>, width: int)
    requires
        width >= 1,
    ensures
        fitted(line, width).len() <= width,
        line.len() <= width ==> fitted(line, width) == line,
{
    reveal_strlit("…");
}

fn field_text(value: &String, editing: bool, placeholder: &str) -> (r: String)
    ensures
        r@ == form_field(value@, editing, placeholder@),
{
    if editing {
        let mut r = string_of("[");
        push_str(&mut r, value.as_str());
        push_str(&mut r, "▌]");
        r
    } else if value.as_str().is_empty() {
        string_of(placeholder)
    } else {
        value.clone()
    }
}

/// The first `n` characters of `s`.
fn take_chars(s: &str, n: usize) -> (r: String)
    ensures
        r@ == s@.take(if n <= s@.len() {
            n as int
        } else {
            s@.len() as int
        }),
{
    let v = str_chars(s);
    let k = if n <= v.len() {
        n
    } else {
        v.len()
    };
    crate::text::string_from_chars(&v, 0, k)
}

impl App {
    /// The status line in a box `width` columns wide. `update_time` is the
    /// time of the last refresh as the caller shows it, and `alert_type` the
    /// short name of the alert type selected in the alert form. A status
    /// message cut to fit must be cut between characters.
    pub fn status_text(&self, width: u16, update_time: Option<&str>, alert_type: &str) -> (r: String)
        requires
            self@.input_mode == InputMode::Normal && byte_len(self@.status_message)
                > message_room(width) && message_room(width) > 3 ==> is_boundary(
                self@.status_message,
                message_room(width) - 3,
            ),
        ensures
            r@ == fitted(
                status_line(
                    self@,
                    width,
                    match update_time {
                        Some(t) => Some(t@),
                        None => None,
                    },
                    alert_type@,
                ),
                inner_width(width),
            ),
    {
        let inner: usize = if width >= 2 {
            (width - 2) as usize
        } else {
            0
        };
        let line = match self.input_mode {
            InputMode::Normal => {
                let room: usize = if inner >= 60 {
                    inner - 60
                } else {
                    0
                };
                let msg = if str_byte_len(self.status_message.as_str()) > room && room > 3 {
                    let mut m = take_bytes(self.status_message.as_str(), room - 3);
                    push_str(&mut m, "...");
                    m
                } else {
                    self.status_message.clone()
                };
                let count = match self.active_tab {
                    Tab::Alerts => {
                        let mut c = usize_text(self.alerts.len());
                        push_str(&mut c, " alerts");
                        c
                    },
                    Tab::Portfolio => {
                        let mut c = usize_text(self.portfolio_symbols.len());
                        push_str(&mut c, " positions");
                        c
                    },
                    _ => {
                        let mut c = usize_text(self.current_watchlist.symbols.len());
                        push_str(&mut c, " symbols");
                        c
                    },
                };
                let mut l = string_of(" ");
                push_str(&mut l, msg.as_str());
                push_str(&mut l, " | ");
                push_str(&mut l, count.as_str());
                push_str(&mut l, " | Last: ");
                match update_time {
                    Some(t) => push_str(&mut l, t),
                    None => push_str(&mut l, "N/A"),
                }
                push_str(&mut l, " | ");
                push_str(&mut l, focus_hint_text(self.active_tab, self.focus_pane));
                l
            },
            InputMode::AddSymbol => {
                let mut l = string_of(" Add symbol: ");
                push_str(&mut l, self.input_buffer.as_str());
                push_str(&mut l, " | Enter:confirm Esc:cancel");
                l
            },
            InputMode::AddAlert => {
                let mut l = string_of(" ");
                push_str(
                    &mut l,
                    field_text(&self.alert_form_symbol, self.alert_form_field == 0, "[SYM]").as_str(),
                );
                push_str(&mut l, " ");
                if self.alert_form_field == 1 {
                    push_str(&mut l, "<");
                    push_str(&mut l, alert_type);
                    push_str(&mut l, ">");
                } else {
                    push_str(&mut l, alert_type);
                }
                push_str(&mut l, " ");
                push_str(
                    &mut l,
                    field_text(&self.alert_form_threshold, self.alert_form_field == 2, "[VAL]").as_str(),
                );
                push_str(&mut l, " | Tab:next ←/→:type Enter:create Esc:cancel");
                l
            },
            InputMode::AddPosition => string_of(" Adding position... | Esc:cancel"),
        };
        proof {
            assert(line@ =~= status_line(
                self@,
                width,
                match update_time {
                    Some(t) => Some(t@),
                    None => None,
                },
                alert_type@,
            ));
        }
        let chars = str_chars(line.as_str());
        if chars.len() > inner {
            let keep = if inner >= 1 {
                inner - 1
            } else {
                0
            };
            let mut r = take_chars(line.as_str(), keep);
            push_str(&mut r, "…");
            r
        } else {
            line
        }
    }
}

/// The title of the news panel: whose news, the position in the list, and
/// the keys that work there.
pub open spec fn news_title(app: AppView) -> Seq<char> {
    let focused = app.focus_pane == FocusPane::Right;
    let name = match app.news_symbol {
        Some(s) => s + " News"@,
        None => "Market News"@,
    };
    let counted = if app.news_count == 0 {
        name + " (no articles)"@
    } else {
        name + " ("@ + nat_text((app.selected_news_idx + 1) as nat) + "/"@ + nat_text(
            app.news_count as nat,
        ) + ")"@
    };
    counted + (if focused {
        if app.news_symbol is Some {
            " [j/k:scroll Enter:open g:market h:back]"@
        } else {
            " [j/k:scroll Enter:open h:back]"@
        }
    } else {
        " [Enter:symbol news l/→:focus]"@
    })
}

impl App {
    /// The title of the news panel.
    pub fn news_panel_title(&self) -> (t: String)
        requires
            self.selected_news_idx < usize::MAX,
        ensures
            t@ == news_title(self@),
    {
        let mut t = match &self.news_symbol {
            Some(s) => {
                let mut n = s.clone();
                push_str(&mut n, " News");
                n
            },
            None => string_of("Market News"),
        };
        if self.news_count == 0 {
            push_str(&mut t, " (no articles)");
        } else {
            push_str(&mut t, " (");
            push_str(&mut t, usize_text(self.selected_news_idx + 1).as_str());
            push_str(&mut t, "/");
            push_str(&mut t, usize_text(self.news_count).as_str());
            push_str(&mut t, ")");
        }
        match self.focus_pane {
            FocusPane::Right => if self.news_symbol.is_some() {
                push_str(&mut t, " [j/k:scroll Enter:open g:market h:back]");
            } else {
                push_str(&mut t, " [j/k:scroll Enter:open h:back]");
            },
            FocusPane::Left => push_str(&mut t, " [Enter:symbol news l/→:focus]"),
        }
        proof {
            assert(t@ =~= news_title(self@));
        }
        t
    }
}

} // verus!
