//! Picking a display mode: the user's preference, else one derived from the
//! time of day.
use vstd::prelude::*;

use crate::resolve::resolved;

verus! {

/// The modes a user interface is shown in.
#[derive(Debug, Clone, Copy, PartialEq, Eq, Structural)]
pub enum DisplayMode {
    Light,
    Dark,
}

/// The time of day, the context a default mode is derived from.
#[derive(Debug, Clone, Copy, PartialEq, Eq, Structural)]
pub enum Time {
    Day,
    Night,
}

/// A user, with an optional preferred display mode.
pub struct User {
    pub ui_preference: Option<DisplayMode>,
}

/// The default mode for a time of day: light by day, dark by night.
pub open spec fn mode_of(t: Time) -> DisplayMode {
    match t {
        Time::Day => DisplayMode::Light,
        Time::Night => DisplayMode::Dark,
    }
}

/// The default mode for the time of day `t`.
pub fn mode_for_time(t: Time) -> (r: DisplayMode)
    ensures
        r == mode_of(t),
{
    match t {
        Time::Day => DisplayMode::Light,
        Time::Night => DisplayMode::Dark,
    }
}

/// The preferred mode when one is given; otherwise asks `context_provider`
/// for the time of day, exactly once, and returns the mode for it. When a
/// preference is given, `context_provider` is never called.
pub fn resolve_display_mode<F: FnOnce() -> Time>(
    preference: Option<DisplayMode>,
    context_provider: F,
) -> (r: DisplayMode)
    requires
        preference is None ==> context_provider.requires(()),
    ensures
        match preference {
            Some(m) => r == m,
            None => exists|t: Time| context_provider.ensures((), t) && r == mode_of(t),
        },
{
    match preference {
        Some(m) => m,
        None => {
            let t = context_provider();
            mode_for_time(t)
        },
    }
}

impl User {
    /// The time of day as this user sees it: always night.
    pub fn current_time(&self) -> (r: Time)
        ensures
            r == Time::Night,
    {
        Time::Night
    }

    /// The user's preferred mode, else the mode for the current time of day.
    pub fn display_mode(&self) -> (r: DisplayMode)
        ensures
            r == resolved(self.ui_preference, mode_of(Time::Night)),
    {
        let now = || -> (t: Time)
            ensures
                t == Time::Night,
        {
            self.current_time()
        };
        resolve_display_mode(self.ui_preference, now)
    }
}

/// Resolving a display mode keeps no state: the same preference and the
/// same time of day always give the same mode, and a preference, when given,
/// is the mode whatever the time.
pub proof fn lemma_display_mode_idempotent(preference: Option<DisplayMode>, t1: Time, t2: Time)
    requires
        preference is None ==> t1 == t2,
    ensures
        resolved(preference, mode_of(t1)) == resolved(preference, mode_of(t2)),
{
}

} // verus!
