//! The shared decision: an explicit choice wins, else a fallback supplies one.
use vstd::prelude::*;

verus! {

/// The value chosen from an optional explicit preference and a default.
pub open spec fn resolved<T>(explicit: Option<T>, default: T) -> T {
    match explicit {
        Some(v) => v,
        None => default,
    }
}

/// Returns `explicit` when present; otherwise calls `fallback` exactly once
/// and returns what it produced. When `explicit` is present, `fallback` is
/// never called.
pub fn resolve<T, F: FnOnce() -> T>(explicit: Option<T>, fallback: F) -> (r: T)
    requires
        explicit is None ==> fallback.requires(()),
    ensures
        match explicit {
            Some(v) => r == v,
            None => fallback.ensures((), r),
        },
{
    match explicit {
        Some(v) => v,
        None => fallback(),
    }
}

} // verus!
