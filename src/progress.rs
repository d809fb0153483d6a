//! Progress accounting for one transfer: which kind of indicator to show, and
//! how many bytes it has counted.
use vstd::prelude::*;

verus! {

/// What kind of indicator a transfer shows.
#[derive(Clone, Copy, Debug, PartialEq, Eq, Structural)]
pub enum ProgressMode {
    /// Quiet mode: nothing is rendered.
    Hidden,
    /// A determinate bar bounded by the advertised total.
    Bar(u64),
    /// An indeterminate spinner: no total is known.
    Spinner,
}

/// The indicator that a transfer with the given quiet flag and advertised
/// total shows.
pub open spec fn mode_for(quiet: bool, total: Option<u64>) -> ProgressMode {
    if quiet {
        ProgressMode::Hidden
    } else {
        match total {
            Some(t) => ProgressMode::Bar(t),
            None => ProgressMode::Spinner,
        }
    }
}

/// `n`, held at `u64::MAX` where it would exceed it.
pub open spec fn capped(n: int) -> u64 {
    if n <= u64::MAX {
        n as u64
    } else {
        u64::MAX
    }
}

/// A progress counter: its indicator, the bytes counted so far, and whether
/// it has been finished.
#[derive(Clone, Copy, Debug, PartialEq, Eq, Structural)]
pub struct Progress {
    pub mode: ProgressMode,
    pub position: u64,
    pub finished: bool,
}

/// Chooses the indicator for a transfer: hidden when quiet, whatever the
/// total; a bar when a total is known; a spinner otherwise.
pub fn progress_mode(quiet: bool, total: Option<u64>) -> (r: ProgressMode)
    ensures
        r == mode_for(quiet, total),
{
    if quiet {
        ProgressMode::Hidden
    } else {
        match total {
            Some(t) => ProgressMode::Bar(t),
            None => ProgressMode::Spinner,
        }
    }
}

/// A fresh counter at zero, with the indicator that `quiet` and `total` call for.
pub fn create_progress_bar(quiet: bool, total: Option<u64>) -> (r: Progress)
    ensures
        r.mode == mode_for(quiet, total),
        r.position == 0,
        !r.finished,
{
    Progress { mode: progress_mode(quiet, total), position: 0, finished: false }
}

impl Progress {
    /// Counts `n` more bytes.
    pub fn increment(&mut self, n: u64)
        ensures
            final(self).position == capped(old(self).position + n),
            final(self).mode == old(self).mode,
            final(self).finished == old(self).finished,
    {
        self.position = self.position.saturating_add(n);
    }

    /// Marks the transfer as complete; the count stays as it is.
    pub fn finish(&mut self)
        ensures
            final(self).finished,
            final(self).position == old(self).position,
            final(self).mode == old(self).mode,
    {
        self.finished = true;
    }

    /// The total that the indicator is bounded by, if it is a bar.
    pub fn length(&self) -> (r: Option<u64>)
        ensures
            r == (match self.mode {
                ProgressMode::Bar(t) => Some(t),
                _ => None,
            }),
    {
        match self.mode {
            ProgressMode::Bar(t) => Some(t),
            _ => None,
        }
    }
}

} // verus!
