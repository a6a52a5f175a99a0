//! Picking a shirt for a giveaway: the recipient's preference, else one
//! derived from the stock.
use vstd::prelude::*;

use crate::resolve::{resolve, resolved};

verus! {

/// The colours a shirt comes in.
#[derive(Debug, Clone, Copy, PartialEq, Eq, Structural)]
pub enum ShirtColor {
    Red,
    Blue,
}

/// How a shirt is picked when the recipient states no preference.
#[derive(Debug, Clone, Copy, PartialEq, Eq, Structural)]
pub enum Fallback {
    /// The colour stocked most often; on a tie, `Blue`.
    MostStocked,
    /// The colour of the shirt stocked last.
    LastStocked,
}

/// Why no shirt could be picked.
#[derive(Debug, Clone, Copy, PartialEq, Eq, Structural)]
pub enum GiveawayError {
    /// The stock is empty, so there is no last shirt to give away.
    EmptyCollection,
}

/// The shirts in stock, in the order they were stocked.
pub struct Inventory {
    pub shirts: Vec<ShirtColor>,
}

/// How many shirts of colour `c` the sequence `s` holds.
pub open spec fn count_of(s: Seq<ShirtColor>, c: ShirtColor) -> nat
    decreases s.len(),
{
    if s.len() == 0 {
        0
    } else {
        count_of(s.drop_last(), c) + if s.last() == c { 1nat } else { 0nat }
    }
}

/// The colour with strictly more shirts in `s`; `Blue` when the counts tie.
pub open spec fn most_stocked_of(s: Seq<ShirtColor>) -> ShirtColor {
    if count_of(s, ShirtColor::Red) > count_of(s, ShirtColor::Blue) {
        ShirtColor::Red
    } else {
        ShirtColor::Blue
    }
}

/// What a giveaway from stock `s` yields for a preference and a fallback.
pub open spec fn giveaway_outcome(
    s: Seq<ShirtColor>,
    preference: Option<ShirtColor>,
    fallback: Fallback,
) -> Result<ShirtColor, GiveawayError> {
    match preference {
        Some(c) => Ok(c),
        None => match fallback {
            Fallback::MostStocked => Ok(most_stocked_of(s)),
            Fallback::LastStocked => if s.len() == 0 {
                Err(GiveawayError::EmptyCollection)
            } else {
                Ok(s.last())
            },
        },
    }
}

impl Inventory {
    /// The colour stocked most often; `Blue` when the counts tie, and so
    /// also for an empty stock.
    pub fn most_stocked(&self) -> (r: ShirtColor)
        ensures
            r == most_stocked_of(self.shirts@),
    {
        let mut num_red: usize = 0;
        let mut num_blue: usize = 0;
        let mut i: usize = 0;
        while i < self.shirts.len()
            invariant
                i <= self.shirts@.len(),
                num_red == count_of(self.shirts@.subrange(0, i as int), ShirtColor::Red),
                num_blue == count_of(self.shirts@.subrange(0, i as int), ShirtColor::Blue),
                num_red + num_blue == i,
            decreases self.shirts@.len() - i,
        {
            assert(self.shirts@.subrange(0, i as int + 1).drop_last()
                =~= self.shirts@.subrange(0, i as int));
            match self.shirts[i] {
                ShirtColor::Red => num_red += 1,
                ShirtColor::Blue => num_blue += 1,
            }
            i += 1;
        }
        assert(self.shirts@.subrange(0, i as int) =~= self.shirts@);
        if num_red > num_blue {
            ShirtColor::Red
        } else {
            ShirtColor::Blue
        }
    }

    /// The colour of the shirt stocked last.
    pub fn last_stocked(&self) -> (r: ShirtColor)
        requires
            self.shirts@.len() > 0,
        ensures
            r == self.shirts@.last(),
    {
        self.shirts[self.shirts.len() - 1]
    }

    /// The preferred colour when one is given, else the colour of the shirt
    /// stocked last. A giveaway without a preference needs stock.
    pub fn giveaway(&self, user_preference: Option<ShirtColor>) -> (r: ShirtColor)
        requires
            user_preference is Some || self.shirts@.len() > 0,
        ensures
            user_preference is Some ==> r == user_preference->0,
            r == resolved(user_preference, self.shirts@.last()),
    {
        let last = || -> (c: ShirtColor)
            requires
                self.shirts@.len() > 0,
            ensures
                c == self.shirts@.last(),
        {
            self.last_stocked()
        };
        resolve(user_preference, last)
    }

    /// The preferred colour when one is given, else the colour that
    /// `fallback` derives from the stock. Fails only when no preference is
    /// given, the fallback is `LastStocked` and the stock is empty.
    pub fn resolve(
        &self,
        preference: Option<ShirtColor>,
        fallback: Fallback,
    ) -> (r: Result<ShirtColor, GiveawayError>)
        ensures
            r == giveaway_outcome(self.shirts@, preference, fallback),
            r is Err <==> (preference is None && fallback == Fallback::LastStocked
                && self.shirts@.len() == 0),
    {
        match preference {
            Some(c) => Ok(c),
            None => match fallback {
                Fallback::MostStocked => Ok(self.most_stocked()),
                Fallback::LastStocked => if self.shirts.len() == 0 {
                    Err(GiveawayError::EmptyCollection)
                } else {
                    Ok(self.last_stocked())
                },
            },
        }
    }
}

/// An explicit preference always wins: whatever the stock and whichever
/// fallback is configured, a giveaway with preference `c` yields `c`.
pub proof fn lemma_preference_wins(s: Seq<ShirtColor>, c: ShirtColor, fallback: Fallback)
    ensures
        giveaway_outcome(s, Some(c), fallback) == Ok::<ShirtColor, GiveawayError>(c),
{
}

/// A giveaway keeps no state: two stocks holding the same shirts in the same
/// order, with the same preference and fallback, give the same outcome, so
/// repeating a giveaway on an unchanged stock repeats its result.
pub proof fn lemma_giveaway_idempotent(
    s1: Seq<ShirtColor>,
    s2: Seq<ShirtColor>,
    preference: Option<ShirtColor>,
    fallback: Fallback,
)
    requires
        s1 == s2,
    ensures
        giveaway_outcome(s1, preference, fallback) == giveaway_outcome(s2, preference, fallback),
{
}

} // verus!
