use vstd::prelude::*;

verus! {

/// The two-valued appearance state being tracked. The derived order
/// (`Light < Dark`) only serves the command line; it carries no meaning.
#[derive(Copy, Clone, PartialEq, Eq, PartialOrd, Ord, Debug, Structural)]
pub enum ColorMode {
    Light,
    Dark,
}

impl ColorMode {
    /// The textual form of a mode: what scripts receive and what is printed.
    pub open spec fn text_spec(self) -> Seq<char> {
        match self {
            ColorMode::Light => "light"@,
            ColorMode::Dark => "dark"@,
        }
    }

    /// The human-facing symbol for a mode, used only for terminal display.
    pub open spec fn emoji_spec(self) -> Seq<char> {
        match self {
            ColorMode::Light => "\u{1f31e}"@,
            ColorMode::Dark => "\u{1f30c}"@,
        }
    }

    /// The mode this one transitions to.
    pub open spec fn other_spec(self) -> ColorMode {
        match self {
            ColorMode::Light => ColorMode::Dark,
            ColorMode::Dark => ColorMode::Light,
        }
    }

    pub fn other(&self) -> (r: ColorMode)
        ensures
            r == self.other_spec(),
    {
        match self {
            ColorMode::Light => ColorMode::Dark,
            ColorMode::Dark => ColorMode::Light,
        }
    }

    /// The lowercase name of the mode: `"light"` or `"dark"`.
    pub fn text(&self) -> (r: String)
        ensures
            r@ == self.text_spec(),
    {
        match self {
            ColorMode::Light => String::from_str("light"),
            ColorMode::Dark => String::from_str("dark"),
        }
    }

    pub fn emoji(&self) -> (r: String)
        ensures
            r@ == self.emoji_spec(),
    {
        match self {
            ColorMode::Light => String::from_str("\u{1f31e}"),
            ColorMode::Dark => String::from_str("\u{1f30c}"),
        }
    }
}

/// Switching away and back returns to the starting mode.
pub proof fn lemma_other_involutive(m: ColorMode)
    ensures
        m.other_spec().other_spec() == m,
{
}

} // verus!
