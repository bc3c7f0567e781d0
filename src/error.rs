use vstd::prelude::*;

verus! {

/// Failures of the application outside the consumers: the theme source
/// could not be driven, or the platform has none.
#[derive(Debug, Clone, PartialEq, Eq)]
pub enum ThemeSwitcherError {
    MonitorError(String),
    PlatformError(String),
}

impl ThemeSwitcherError {
    /// The human-readable text of the error: a prefix naming its kind, then
    /// the detail.
    pub fn message(&self) -> (r: String)
        ensures
            r@ == match self {
                ThemeSwitcherError::MonitorError(m) => "Monitor error: "@ + m@,
                ThemeSwitcherError::PlatformError(m) => "Platform error: "@ + m@,
            },
    {
        match self {
            ThemeSwitcherError::MonitorError(m) => {
                let mut r = String::from_str("Monitor error: ");
                r.append(m.as_str());
                r
            },
            ThemeSwitcherError::PlatformError(m) => {
                let mut r = String::from_str("Platform error: ");
                r.append(m.as_str());
                r
            },
        }
    }

    /// The error returned where the platform offers no theme source.
    pub fn unsupported_platform() -> (r: ThemeSwitcherError)
        ensures
            r matches ThemeSwitcherError::PlatformError(m)
                && m@ == "This platform is not currently supported"@,
    {
        ThemeSwitcherError::PlatformError(String::from_str("This platform is not currently supported"))
    }
}

} // verus!
