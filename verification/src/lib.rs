//! Interactive selection engine for a terminal picker over cargo targets.
//!
//! The crate owns the filter/match state, the cursor and viewport
//! bookkeeping, and the list-rendering layout: everything is specified
//! and verified.  Terminal I/O, target enumeration and process spawning
//! live outside this crate and talk to it through plain values.

use vstd::prelude::*;

pub mod cargo;
pub mod color;
pub mod config;
pub mod event;
pub mod input;
pub mod matcher;
pub mod render;
pub mod text;
pub mod tui;
pub mod util;

verus! {

/// A selectable, named, runnable or buildable unit with a kind, a source
/// path, and the capabilities (cargo features) it requires.
#[derive(Debug, Clone)]
pub struct Target {
    pub name: String,
    pub kind: TargetKind,
    pub path: String,
    pub required_features: Vec<String>,
}

#[derive(Debug, Clone, Copy, PartialEq, Eq, Structural)]
pub enum TargetKind {
    Bin,
    Example,
}

/// Mathematical model of a [`Target`]: every string as a character sequence.
#[verifier::ext_equal]
pub ghost struct TargetModel {
    pub name: Seq<char>,
    pub kind: TargetKind,
    pub path: Seq<char>,
    pub required_features: Seq<Seq<char>>,
}

impl View for Target {
    type V = TargetModel;

    open spec fn view(&self) -> TargetModel {
        TargetModel {
            name: self.name@,
            kind: self.kind,
            path: self.path@,
            required_features: self.required_features.deep_view(),
        }
    }
}

impl DeepView for Target {
    type V = TargetModel;

    open spec fn deep_view(&self) -> TargetModel {
        self.view()
    }
}

impl Target {
    /// Field-wise copy; `clone` via `derive` would be opaque to the verifier.
    pub fn duplicate(&self) -> (r: Target)
        ensures
            r@ == self@,
    {
        let r = Target {
            name: self.name.clone(),
            kind: self.kind,
            path: self.path.clone(),
            required_features: self.required_features.clone(),
        };
        proof {
            assert(r.required_features.deep_view() =~= self.required_features.deep_view());
            assert(r@ =~= self@);
        }
        r
    }
}

/// Which matching strategy the session was configured with.
#[derive(Debug, Clone, Copy, PartialEq, Eq, Structural)]
pub enum MatchType {
    Substring,
    Fuzzy,
}

impl Default for MatchType {
    fn default() -> (r: Self)
        ensures
            r == MatchType::Substring,
    {
        MatchType::Substring
    }
}

impl MatchType {
    pub fn matcher(self) -> (r: crate::matcher::Matcher)
        ensures
            self == MatchType::Substring ==> r == crate::matcher::Matcher::Substring,
            self == MatchType::Fuzzy ==> r == crate::matcher::Matcher::Fuzzy,
    {
        match self {
            MatchType::Substring => crate::matcher::Matcher::substring(),
            MatchType::Fuzzy => crate::matcher::Matcher::fuzzy(),
        }
    }
}

/// The binary invocation mode applied to whichever target is confirmed.
#[derive(Debug, Clone, Copy, PartialEq, Eq, Structural)]
pub enum Action {
    Run,
    Build,
}

impl Default for Action {
    fn default() -> (r: Self)
        ensures
            r == Action::Run,
    {
        Action::Run
    }
}

impl Action {
    /// The other invocation mode.
    pub open spec fn toggled(self) -> Action {
        match self {
            Action::Run => Action::Build,
            Action::Build => Action::Run,
        }
    }
}

/// Toggling the invocation mode is its own inverse.
pub proof fn lemma_toggle_involution(a: Action)
    ensures
        a.toggled().toggled() == a,
{
}

} // verus!
