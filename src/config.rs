//! Quiet mode: whether informational output is suppressed. It can be set
//! once; later settings are ignored, and until it is set it is off.
use vstd::prelude::*;

verus! {

pub struct QuietMode {
    setting: Option<bool>,
}

impl View for QuietMode {
    type V = Option<bool>;

    closed spec fn view(&self) -> Option<bool> {
        self.setting
    }
}

impl QuietMode {
    pub fn new() -> (r: Self)
        ensures
            r@ is None,
    {
        QuietMode { setting: None }
    }

    /// Sets quiet mode to `quiet` unless it was set before.
    pub fn set_quiet_mode(&mut self, quiet: bool)
        ensures
            final(self)@ == match old(self)@ {
                Some(q) => Some(q),
                None => Some(quiet),
            },
    {
        if self.setting.is_none() {
            self.setting = Some(quiet);
        }
    }

    /// Whether informational output is suppressed: the setting, or off if
    /// there is none.
    pub fn is_quiet_mode(&self) -> (r: bool)
        ensures
            r == match self@ {
                Some(q) => q,
                None => false,
            },
    {
        match self.setting {
            Some(q) => q,
            None => false,
        }
    }
}

} // verus!
