//! Character controllers with the last movement they computed: the C side asks for a
//! movement first and reads the result (translation and whether the character ended up
//! grounded) afterwards.

use crate::registry::slot_of;
use crate::world::RprWorld;
use vstd::prelude::*;

verus! {

/// A character controller `K` and the last movement it computed: the translation `D`
/// and whether the character was grounded.
pub struct CharState<K, D> {
    pub controller: K,
    pub last: D,
    pub grounded: bool,
}

impl<K, D> CharState<K, D> {
    /// A controller that has computed nothing yet: `last` is the zero movement given,
    /// and the character is not grounded.
    pub fn new(controller: K, zero: D) -> (s: Self)
        ensures
            s.controller == controller,
            s.last == zero,
            !s.grounded,
    {
        CharState { controller, last: zero, grounded: false }
    }

    /// Keeps the result of a movement computation.
    pub fn record_movement(&mut self, translation: D, grounded: bool)
        ensures
            final(self).controller == old(self).controller,
            final(self).last == translation,
            final(self).grounded == grounded,
    {
        self.last = translation;
        self.grounded = grounded;
    }
}

/// The translation that character `cc` computed last, if `cc` names a character.
pub fn rpr_char_computed_movement<P, V, K, D, M>(w: &RprWorld<P, V, CharState<K, D>, M>, cc: u64) -> (r: Option<&D>)
    ensures
        r == (match slot_of(cc, w.characters.items().len()) {
            Some(k) => Some(&w.characters.items()[k].last),
            None => None,
        }),
{
    match w.characters.get(cc) {
        Some(c) => Some(&c.last),
        None => None,
    }
}

/// 1 when character `cc` was grounded after its last computed movement; 0 when it was
/// not, or when `cc` names no character.
pub fn rpr_char_computed_grounded<P, V, K, D, M>(w: &RprWorld<P, V, CharState<K, D>, M>, cc: u64) -> (r: i32)
    ensures
        r == (match slot_of(cc, w.characters.items().len()) {
            Some(k) => if w.characters.items()[k].grounded { 1i32 } else { 0i32 },
            None => 0i32,
        }),
{
    match w.characters.get(cc) {
        Some(c) => if c.grounded { 1 } else { 0 },
        None => 0,
    }
}

} // verus!
