//! What the simulation hands to whoever paints a frame.

use vstd::prelude::*;
use crate::engine::entity::Entity;
use crate::engine::entity::EntityView;

verus! {

/// The kinds of actor, one sprite image each.
#[derive(Clone, Copy, Debug, PartialEq, Eq)]
pub enum Actor {
    Player,
    Enemy,
    Bullet,
}

/// One sprite to paint: whose image, and where and how it is placed.
#[derive(Clone, Copy, Debug)]
pub struct DrawCall {
    pub actor: Actor,
    pub entity: Entity,
}

/// What a [`DrawCall`] stands for.
pub struct DrawCallView {
    pub actor: Actor,
    pub entity: EntityView,
}

impl View for DrawCall {
    type V = DrawCallView;

    open spec fn view(&self) -> DrawCallView {
        DrawCallView { actor: self.actor, entity: self.entity@ }
    }
}

/// An actor that can be painted.
pub trait Draw {
    /// What painting this actor takes.
    spec fn drawn(&self) -> DrawCallView;

    /// The call that paints this actor as it stands now.
    fn draw(&self) -> (call: DrawCall)
        ensures
            call@ == self.drawn(),
    ;
}

} // verus!
