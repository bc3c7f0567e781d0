//! The runner that owns a theme source.
use vstd::prelude::*;
use crate::ThemeMonitor;

verus! {

/// Owns the theme source of the running application.
pub struct ApplicationRunner<M: ThemeMonitor> {
    monitor: M,
}

impl<M: ThemeMonitor> ApplicationRunner<M> {
    pub fn new(monitor: M) -> (r: Self)
        ensures
            r.monitor() == monitor,
    {
        ApplicationRunner { monitor }
    }

    pub closed spec fn monitor(&self) -> M {
        self.monitor
    }

    /// The theme source.
    pub fn monitor_ref(&self) -> (r: &M)
        ensures
            *r == self.monitor(),
    {
        &self.monitor
    }
}

} // verus!
