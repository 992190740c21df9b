//! The user's dark-mode preference, as signalled by the browser's cookie
//! header.

use vstd::prelude::*;

use crate::strutil::{chars_of, contains_chars, spec_contains};

verus! {

/// Whether the user prefers the dark theme.
#[derive(Clone, Copy, PartialEq, Eq, Structural, Debug)]
pub struct PrefersDark(pub bool);

impl PrefersDark {
    /// Whether the cookie header mentions the dark-mode cookie.  Reading
    /// the header out of the browser document is the embedding's concern;
    /// the decision over its text is made here.
    pub fn check(cookies: &str) -> (r: bool)
        ensures
            r == spec_contains(cookies@, "dark_mode"@),
    {
        let hay = chars_of(cookies);
        let needle = chars_of("dark_mode");
        contains_chars(&hay, &needle)
    }
}

} // verus!
