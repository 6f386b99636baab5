//! The camera side of a wormhole pair: the observer whose viewpoint the
//! illusion is kept consistent with, and the capture camera that renders
//! what the portal shows.

use vstd::prelude::*;

use crate::model::EntityId;

verus! {

/// The main camera used in wormhole rendering.
/// Wormholes are rendered to look correct from this entity's point of view.
#[derive(Debug, Clone, Copy, PartialEq, Eq)]
pub struct WormholeObserver;

/// A camera that renders wormhole surfaces.
/// Exists as the counterpart to a [`WormholeObserver`].
#[derive(Debug, Clone, Copy, PartialEq, Eq)]
pub struct WormholeCamera {
    /// The entity ids of the wormhole pair.
    pub wormholes: [EntityId; 2],
}

} // verus!
