//! Distribution of light/dark appearance changes to a set of independent
//! consumers, and the decision logic of the local notification service.
use vstd::prelude::*;

pub mod app;
pub mod cli;
pub mod config;
pub mod config_file;
pub mod error;
pub mod handlers;
pub mod ipc;
pub mod lua_handler;
pub mod pipeline;

verus! {

/// The operating system's appearance: one of two values, compared only for
/// equality.
#[derive(Debug, Clone, Copy, PartialEq, Eq, Structural)]
pub enum Theme {
    Light,
    Dark,
}

/// The lowercase token of a theme, as used on the wire and in environment
/// variables.
pub open spec fn theme_name(t: Theme) -> Seq<char> {
    match t {
        Theme::Light => seq!['l', 'i', 'g', 'h', 't'],
        Theme::Dark => seq!['d', 'a', 'r', 'k'],
    }
}

/// The uppercase token of a theme.
pub open spec fn theme_upper_name(t: Theme) -> Seq<char> {
    match t {
        Theme::Light => seq!['L', 'I', 'G', 'H', 'T'],
        Theme::Dark => seq!['D', 'A', 'R', 'K'],
    }
}

/// The line that announces a theme to a subscriber: its token and a newline.
pub open spec fn theme_line(t: Theme) -> Seq<char> {
    theme_name(t).push('\n')
}

impl Theme {
    /// The lowercase token: `light` or `dark`.
    pub fn name(&self) -> (r: String)
        ensures
            r@ == theme_name(*self),
    {
        proof {
            reveal_strlit("light");
            reveal_strlit("dark");
        }
        match self {
            Theme::Light => String::from_str("light"),
            Theme::Dark => String::from_str("dark"),
        }
    }

    /// The uppercase token: `LIGHT` or `DARK`.
    pub fn upper_name(&self) -> (r: String)
        ensures
            r@ == theme_upper_name(*self),
    {
        proof {
            reveal_strlit("LIGHT");
            reveal_strlit("DARK");
        }
        match self {
            Theme::Light => String::from_str("LIGHT"),
            Theme::Dark => String::from_str("DARK"),
        }
    }

    /// The wire form of the theme: its token followed by a newline.
    pub fn to_line(&self) -> (r: String)
        ensures
            r@ == theme_line(*self),
    {
        proof {
            reveal_strlit("light\n");
            reveal_strlit("dark\n");
        }
        match self {
            Theme::Light => String::from_str("light\n"),
            Theme::Dark => String::from_str("dark\n"),
        }
    }

    pub fn is_dark(&self) -> (r: bool)
        ensures
            r == (*self == Theme::Dark),
    {
        match self {
            Theme::Light => false,
            Theme::Dark => true,
        }
    }

    pub fn is_light(&self) -> (r: bool)
        ensures
            r == (*self == Theme::Light),
    {
        match self {
            Theme::Light => true,
            Theme::Dark => false,
        }
    }
}

/// A source of theme changes: once started it reports each change to the
/// consumers it was made with, until stopped.
pub trait ThemeMonitor {
    fn start(&self) -> Result<(), crate::error::ThemeSwitcherError>;

    fn stop(&self) -> Result<(), crate::error::ThemeSwitcherError>;

    fn get_current_theme(&self) -> Theme;
}

} // verus!
