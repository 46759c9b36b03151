//! Settings of the gradient segments.

use vstd::prelude::*;

verus! {

/// Settings of the gradient segment.
#[derive(Clone, Copy, Debug)]
pub struct GradientConfig<'a> {
    /// The template the segment is rendered from.
    pub format: &'a str,
    /// Reserved; empty by default.
    pub gradient: &'a str,
    /// Show the segment even where nothing calls for it.
    pub show_always: bool,
    pub disabled: bool,
}

impl<'a> Default for GradientConfig<'a> {
    fn default() -> (r: GradientConfig<'a>)
        ensures
            r.format@ == "$module"@,
            r.gradient@ == ""@,
            !r.show_always,
            !r.disabled,
    {
        GradientConfig { format: "$module", gradient: "", show_always: false, disabled: false }
    }
}

/// Settings of the user name segment.
#[derive(Clone, Copy, Debug)]
pub struct UsernameConfig<'a> {
    /// The template the segment is rendered from; `$user` stands for the user name and
    /// `$style` for the chosen style.
    pub format: &'a str,
    /// The style used for an administrator account.
    pub style_root: &'a str,
    /// The style used for any other account.
    pub style_user: &'a str,
    /// Show the user name even where nothing calls for it.
    pub show_always: bool,
    pub disabled: bool,
}

impl<'a> Default for UsernameConfig<'a> {
    fn default() -> (r: UsernameConfig<'a>)
        ensures
            r.format@ == "[$user]($style) in "@,
            r.style_root@ == "bold red"@,
            r.style_user@ == "bold yellow"@,
            !r.show_always,
            !r.disabled,
    {
        UsernameConfig {
            format: "[$user]($style) in ",
            style_root: "bold red",
            style_user: "bold yellow",
            show_always: false,
            disabled: false,
        }
    }
}

} // verus!
