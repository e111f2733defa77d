//! Switching the tremolo effect on and off.

use vstd::prelude::*;

use crate::filter::{bits_is_zero, is_zero, FilterSet, TremoloVibrato, UpdateFilter};

verus! {

/// Whether an optional setting is given as zero.
pub open spec fn given_as_zero(v: Option<u64>) -> bool {
    match v {
        Some(b) => is_zero(b),
        None => false,
    }
}

fn option_is_zero(v: Option<u64>) -> (r: bool)
    ensures
        r == given_as_zero(v),
{
    match v {
        Some(b) => bits_is_zero(b),
        None => false,
    }
}

/// The effect that switches tremolo on with the given frequency and depth
/// (each unset where not given, so that the player's defaults apply).
#[derive(Clone, Copy, Debug, PartialEq, Eq, Structural)]
pub struct SetTremolo {
    pub frequency: Option<u64>,
    pub depth: Option<u64>,
}

impl SetTremolo {
    /// What [`SetTremolo::new`] gives: nothing where a setting is given as
    /// zero, else the settings as given.
    pub open spec fn spec_new(frequency: Option<u64>, depth: Option<u64>) -> Option<SetTremolo> {
        if given_as_zero(frequency) || given_as_zero(depth) {
            None
        } else {
            Some(SetTremolo { frequency, depth })
        }
    }

    /// Builds the effect; `None` (reject) where frequency or depth is zero.
    pub fn new(frequency: Option<u64>, depth: Option<u64>) -> (r: Option<SetTremolo>)
        ensures
            r == SetTremolo::spec_new(frequency, depth),
    {
        if option_is_zero(frequency) || option_is_zero(depth) {
            None
        } else {
            Some(SetTremolo { frequency, depth })
        }
    }
}

/// `Some` switches tremolo on with its settings, `None` switches it off. Only
/// the tremolo slot changes.
impl UpdateFilter for Option<SetTremolo> {
    open spec fn applied(&self, filter: FilterSet) -> FilterSet {
        match *self {
            Some(t) => FilterSet {
                tremolo: Some(TremoloVibrato { frequency: t.frequency, depth: t.depth }),
                ..filter
            },
            None => FilterSet { tremolo: None, ..filter },
        }
    }

    fn apply(self, filter: FilterSet) -> (r: FilterSet) {
        match self {
            Some(t) => FilterSet {
                tremolo: Some(TremoloVibrato { frequency: t.frequency, depth: t.depth }),
                ..filter
            },
            None => FilterSet { tremolo: None, ..filter },
        }
    }
}

/// The command that switches tremolo on; settings as bit patterns.
#[derive(Clone, Copy, Debug, PartialEq, Eq, Structural)]
pub struct On {
    pub frequency: Option<u64>,
    pub depth: Option<u64>,
}

impl On {
    /// The effect this command applies, or `None` where it is rejected.
    pub fn update(&self) -> (r: Option<Option<SetTremolo>>)
        ensures
            r == match SetTremolo::spec_new(self.frequency, self.depth) {
                Some(t) => Some(Some(t)),
                None => None::<Option<SetTremolo>>,
            },
    {
        match SetTremolo::new(self.frequency, self.depth) {
            Some(t) => Some(Some(t)),
            None => None,
        }
    }
}

/// The command that switches tremolo off.
#[derive(Clone, Copy, Debug, PartialEq, Eq, Structural)]
pub struct Off;

impl Off {
    /// The effect this command applies: tremolo off, never rejected.
    pub fn update(&self) -> (r: Option<SetTremolo>)
        ensures
            r == None::<SetTremolo>,
    {
        None
    }
}

/// The tremolo command group.
#[derive(Clone, Copy, Debug, PartialEq, Eq, Structural)]
pub enum Tremolo {
    On(On),
    Off(Off),
}

impl Tremolo {
    /// The effect the chosen subcommand applies, or `None` where it is
    /// rejected.
    pub fn update(&self) -> (r: Option<Option<SetTremolo>>)
        ensures
            r == match *self {
                Tremolo::On(on) => match SetTremolo::spec_new(on.frequency, on.depth) {
                    Some(t) => Some(Some(t)),
                    None => None::<Option<SetTremolo>>,
                },
                Tremolo::Off(_) => Some(None::<SetTremolo>),
            },
    {
        match self {
            Tremolo::On(on) => on.update(),
            Tremolo::Off(off) => Some(off.update()),
        }
    }
}

} // verus!
