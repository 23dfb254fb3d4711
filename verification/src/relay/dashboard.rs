//! How the log of the dashboard scrolls.
//!
//! The log shows its newest line at the bottom. Scrolling back stops
//! following new lines; coming back to the newest line follows again.

use crate::relay::metrics::ServerStatus;
use crate::text::{chars_of, decimal, push_decimal};
use vstd::prelude::*;
use vstd::string::StringExecFns;

verus! {

/// The number of lines that a page key scrolls.
pub const PAGE_LINES: usize = 10;

/// A key that scrolls the log.
#[derive(Debug, Clone, Copy, PartialEq, Eq)]
pub enum ScrollKey {
    /// One line back.
    Up,
    /// One line on.
    Down,
    /// A page back.
    PageUp,
    /// A page on.
    PageDown,
    /// To the oldest line.
    Home,
    /// To the newest line.
    End,
    /// Follow new lines or not.
    ToggleAuto,
}

/// Where the log is scrolled to.
#[derive(Debug, Clone, Copy, PartialEq, Eq)]
pub struct ScrollState {
    /// How many lines the log is scrolled back; 0 shows the newest line.
    pub log_scroll: usize,
    /// Whether the log follows new lines.
    pub auto_scroll: bool,
}

/// The smaller of two.
pub open spec fn least(a: int, b: int) -> int {
    if a <= b {
        a
    } else {
        b
    }
}

/// `a - b`, or 0 where `b` is more.
pub open spec fn minus(a: int, b: int) -> int {
    if a >= b {
        a - b
    } else {
        0
    }
}

impl ScrollState {
    /// The log at its newest line, following.
    pub open spec fn following() -> ScrollState {
        ScrollState { log_scroll: 0, auto_scroll: true }
    }

    /// The state after scrolling `lines` back in a log of `log_count`
    /// lines: at most to the oldest line, and following no longer. An
    /// empty log does not scroll.
    pub open spec fn back(self, lines: int, log_count: int) -> ScrollState {
        if log_count > 0 {
            ScrollState {
                log_scroll: least(self.log_scroll + lines, log_count - 1) as usize,
                auto_scroll: false,
            }
        } else {
            self
        }
    }

    /// The state after scrolling `lines` on: at most to the newest line,
    /// where the log follows again.
    pub open spec fn forth(self, lines: int) -> ScrollState {
        ScrollState {
            log_scroll: minus(self.log_scroll as int, lines) as usize,
            auto_scroll: self.auto_scroll || minus(self.log_scroll as int, lines) == 0,
        }
    }

    /// The state after a key was pressed, the log holding `log_count`
    /// lines.
    pub open spec fn after_key(self, key: ScrollKey, log_count: int) -> ScrollState {
        match key {
            ScrollKey::Up => self.back(1, log_count),
            ScrollKey::Down => self.forth(1),
            ScrollKey::PageUp => self.back(PAGE_LINES as int, log_count),
            ScrollKey::PageDown => self.forth(PAGE_LINES as int),
            ScrollKey::Home => if log_count > 0 {
                ScrollState { log_scroll: (log_count - 1) as usize, auto_scroll: false }
            } else {
                self
            },
            ScrollKey::End => ScrollState::following(),
            ScrollKey::ToggleAuto => if self.auto_scroll {
                ScrollState { auto_scroll: false, ..self }
            } else {
                ScrollState::following()
            },
        }
    }

    /// The state after the network told something: a log that follows
    /// shows its newest line.
    pub open spec fn after_news(self) -> ScrollState {
        if self.auto_scroll {
            ScrollState { log_scroll: 0, ..self }
        } else {
            self
        }
    }

    /// What the title of the log says of where it is scrolled to.
    pub open spec fn indicator(self, log_count: int) -> Seq<char> {
        if self.auto_scroll {
            " [AUTO] "@
        } else if log_count > 0 {
            " ["@ + decimal(minus(log_count, self.log_scroll as int) as nat) + "/"@ + decimal(
                log_count as nat,
            ) + "] "@
        } else {
            Seq::empty()
        }
    }

    /// Where the scroll bar stands when `visible` of `log_count` lines
    /// are shown.
    pub open spec fn bar_position(self, log_count: int, visible: int) -> int {
        minus(log_count, self.log_scroll + visible)
    }

    /// The log at its newest line, following.
    pub fn new() -> (state: Self)
        ensures
            state == ScrollState::following(),
    {
        ScrollState { log_scroll: 0, auto_scroll: true }
    }

    /// Takes a key in, the log holding `log_count` lines.
    pub fn on_key(&mut self, key: ScrollKey, log_count: usize)
        ensures
            *final(self) == old(self).after_key(key, log_count as int),
    {
        match key {
            ScrollKey::Up => {
                if log_count > 0 {
                    self.log_scroll = if self.log_scroll < log_count - 1 {
                        self.log_scroll + 1
                    } else {
                        log_count - 1
                    };
                    self.auto_scroll = false;
                }
            },
            ScrollKey::Down => {
                if self.log_scroll > 0 {
                    self.log_scroll = self.log_scroll - 1;
                }
                if self.log_scroll == 0 {
                    self.auto_scroll = true;
                }
            },
            ScrollKey::PageUp => {
                if log_count > 0 {
                    self.log_scroll = if log_count - 1 >= PAGE_LINES && self.log_scroll < log_count
                        - 1 - PAGE_LINES {
                        self.log_scroll + PAGE_LINES
                    } else {
                        log_count - 1
                    };
                    self.auto_scroll = false;
                }
            },
            ScrollKey::PageDown => {
                self.log_scroll = self.log_scroll.saturating_sub(PAGE_LINES);
                if self.log_scroll == 0 {
                    self.auto_scroll = true;
                }
            },
            ScrollKey::Home => {
                if log_count > 0 {
                    self.log_scroll = log_count - 1;
                    self.auto_scroll = false;
                }
            },
            ScrollKey::End => {
                self.log_scroll = 0;
                self.auto_scroll = true;
            },
            ScrollKey::ToggleAuto => {
                self.auto_scroll = !self.auto_scroll;
                if self.auto_scroll {
                    self.log_scroll = 0;
                }
            },
        }
    }

    /// The network told something.
    pub fn on_news(&mut self)
        ensures
            *final(self) == old(self).after_news(),
    {
        if self.auto_scroll {
            self.log_scroll = 0;
        }
    }

    /// What the title of the log says of where it is scrolled to.
    pub fn scroll_indicator(&self, log_count: usize) -> (text: String)
        ensures
            text@ == self.indicator(log_count as int),
    {
        if self.auto_scroll {
            String::from_str(" [AUTO] ")
        } else if log_count > 0 {
            let mut text = String::from_str(" [");
            push_decimal(&mut text, log_count.saturating_sub(self.log_scroll) as u64);
            text.append("/");
            push_decimal(&mut text, log_count as u64);
            text.append("] ");
            text
        } else {
            String::new()
        }
    }

    /// Where the scroll bar stands when `visible` of `log_count` lines are
    /// shown.
    pub fn scrollbar_position(&self, log_count: usize, visible: usize) -> (position: usize)
        ensures
            position == self.bar_position(log_count as int, visible as int),
    {
        log_count.saturating_sub(self.log_scroll.saturating_add(visible))
    }
}

/// The number of characters of the relay's peer id that the dashboard
/// shows.
pub const PEER_ID_SHOWN: usize = 20;

/// The relay's peer id as the dashboard shows it: whole if it has at most
/// `PEER_ID_SHOWN` characters, else its first `PEER_ID_SHOWN` and three
/// dots.
pub open spec fn peer_id_head(peer_id: Seq<char>) -> Seq<char> {
    if peer_id.len() > PEER_ID_SHOWN {
        peer_id.take(PEER_ID_SHOWN as int) + "..."@
    } else {
        peer_id
    }
}

/// The mark beside the public address: whether the port can be reached
/// from outside, as far as that is known.
pub open spec fn reachability_mark_spec(reachable: Option<bool>) -> Seq<char> {
    match reachable {
        Some(true) => " \u{2713}"@,
        Some(false) => " \u{2717}"@,
        None => " ?"@,
    }
}

/// How the header names the state of the relay.
pub open spec fn status_label_spec(status: ServerStatus) -> Seq<char> {
    match status {
        ServerStatus::Starting => "STARTING"@,
        ServerStatus::Running => "RUNNING"@,
        ServerStatus::Error => "ERROR"@,
    }
}

/// The relay's peer id as the dashboard shows it.
pub fn shown_peer_id(peer_id: &str) -> (shown: String)
    ensures
        shown@ == peer_id_head(peer_id@),
{
    let chars = chars_of(peer_id);
    if chars.len() <= PEER_ID_SHOWN {
        return String::from_str(peer_id);
    }
    let mut shown = String::new();
    let mut i: usize = 0;
    while i < PEER_ID_SHOWN
        invariant
            i <= PEER_ID_SHOWN,
            chars@.len() > PEER_ID_SHOWN,
            shown@ == chars@.take(i as int),
        decreases PEER_ID_SHOWN - i,
    {
        shown.push(chars[i]);
        i = i + 1;
    }
    shown.append("...");
    shown
}

/// The mark beside the public address.
pub fn reachability_mark(reachable: Option<bool>) -> (mark: &'static str)
    ensures
        mark@ == reachability_mark_spec(reachable),
{
    match reachable {
        Some(true) => " \u{2713}",
        Some(false) => " \u{2717}",
        None => " ?",
    }
}

/// How the header names the state of the relay.
pub fn status_label(status: ServerStatus) -> (label: &'static str)
    ensures
        label@ == status_label_spec(status),
{
    match status {
        ServerStatus::Starting => "STARTING",
        ServerStatus::Running => "RUNNING",
        ServerStatus::Error => "ERROR",
    }
}

} // verus!
