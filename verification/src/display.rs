//! Which health display is on screen for which actor.
//!
//! A display is known by the handle the renderer gave it and sits at an
//! offset from its actor. When the number changes the display is replaced:
//! the table takes the new handle, hands back the old one to be destroyed,
//! and keeps the offset.

use vstd::prelude::*;
use crate::encounter::Position;
use crate::state::Actor;

verus! {

/// One health display on screen.
#[derive(Clone, Copy, Debug, PartialEq, Eq)]
pub struct HealthDisplay {
    /// The renderer's handle of the display.
    pub handle: u64,
    /// Where the display sits relative to its actor.
    pub offset: Position,
}

/// The health displays on screen, at most one per actor.
#[derive(Clone, Copy, Debug, PartialEq, Eq)]
pub struct HealthDisplays {
    pub player: Option<HealthDisplay>,
    pub enemy: Option<HealthDisplay>,
}

impl HealthDisplays {
    /// The display of an actor, if one is on screen.
    pub open spec fn spec_shown(&self, actor: Actor) -> Option<HealthDisplay> {
        match actor {
            Actor::Player => self.player,
            Actor::Enemy => self.enemy,
        }
    }

    /// The table with the entry of one actor set.
    pub open spec fn with(self, actor: Actor, display: Option<HealthDisplay>) -> HealthDisplays {
        match actor {
            Actor::Player => HealthDisplays { player: display, ..self },
            Actor::Enemy => HealthDisplays { enemy: display, ..self },
        }
    }

    /// The table after the display of `actor` has been replaced by the one
    /// with `handle`: the offset stays; an actor without a display gets none.
    pub open spec fn replaced(self, actor: Actor, handle: u64) -> HealthDisplays {
        match self.spec_shown(actor) {
            Some(display) => self.with(actor, Some(HealthDisplay { handle, offset: display.offset })),
            None => self,
        }
    }

    /// A table with nothing on screen.
    pub fn new() -> (table: HealthDisplays)
        ensures
            table == (HealthDisplays { player: None, enemy: None }),
    {
        HealthDisplays { player: None, enemy: None }
    }

    /// The display of an actor, if one is on screen.
    #[verifier::when_used_as_spec(spec_shown)]
    pub fn shown(&self, actor: Actor) -> (display: Option<HealthDisplay>)
        ensures
            display == self.spec_shown(actor),
    {
        match actor {
            Actor::Player => self.player,
            Actor::Enemy => self.enemy,
        }
    }

    /// Puts a display on screen for `actor` and hands back the handle of
    /// the one it takes the place of.
    pub fn show(&mut self, actor: Actor, handle: u64, offset: Position) -> (stale: Option<u64>)
        ensures
            *final(self) == old(self).with(actor, Some(HealthDisplay { handle, offset })),
            stale == match old(self).spec_shown(actor) {
                Some(display) => Some(display.handle),
                None => None,
            },
    {
        let previous = self.shown(actor);
        let display = Some(HealthDisplay { handle, offset });
        match actor {
            Actor::Player => {
                self.player = display;
            },
            Actor::Enemy => {
                self.enemy = display;
            },
        }
        match previous {
            Some(display) => Some(display.handle),
            None => None,
        }
    }

    /// Replaces the display of `actor` by the one with `handle`, at the
    /// same offset, and hands back the handle of the old one. An actor
    /// without a display keeps none, and `handle` is not taken.
    pub fn replace(&mut self, actor: Actor, handle: u64) -> (stale: Option<u64>)
        ensures
            *final(self) == old(self).replaced(actor, handle),
            stale == match old(self).spec_shown(actor) {
                Some(display) => Some(display.handle),
                None => None,
            },
    {
        match self.shown(actor) {
            Some(display) => self.show(actor, handle, display.offset),
            None => None,
        }
    }

    /// Takes the display of `actor` off the table and hands back its handle.
    pub fn remove(&mut self, actor: Actor) -> (stale: Option<u64>)
        ensures
            *final(self) == old(self).with(actor, None),
            stale == match old(self).spec_shown(actor) {
                Some(display) => Some(display.handle),
                None => None,
            },
    {
        let previous = self.shown(actor);
        match actor {
            Actor::Player => {
                self.player = None;
            },
            Actor::Enemy => {
                self.enemy = None;
            },
        }
        match previous {
            Some(display) => Some(display.handle),
            None => None,
        }
    }
}

/// Replacing a display keeps its offset and the other actor's display,
/// and leaves exactly the new handle on screen for the actor.
pub proof fn lemma_replace_keeps_offset(
    table: HealthDisplays,
    actor: Actor,
    other: Actor,
    handle: u64,
)
    requires
        table.spec_shown(actor) is Some,
        other != actor,
    ensures
        table.replaced(actor, handle).spec_shown(actor) == Some(
            HealthDisplay { handle, offset: table.spec_shown(actor).unwrap().offset },
        ),
        table.replaced(actor, handle).spec_shown(other) == table.spec_shown(other),
{
}

} // verus!
