//! Session configuration: match mode and color theme.  Loading it from a
//! file is the surrounding layer's job; the engine only consumes the
//! resulting plain values.

use vstd::prelude::*;

use crate::MatchType;
use crate::color::ColorTheme;

verus! {

#[derive(Debug)]
pub struct Config {
    pub match_type: Option<MatchType>,
    pub color: ColorTheme,
}

impl Default for Config {
    fn default() -> (r: Self)
        ensures
            r.match_type is None,
            r.color == ColorTheme::standard(),
    {
        Config { match_type: None, color: ColorTheme::default() }
    }
}

} // verus!
