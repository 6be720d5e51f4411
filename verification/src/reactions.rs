//! Likes, favorites and follows.
use vstd::prelude::*;

verus! {

/// What a reaction is on.
#[derive(Clone, Debug, PartialEq, Eq, Structural)]
pub enum ReactionTarget {
    Post(u128),
    Comment(u128),
}

/// The state of a toggled reaction and the resulting count.
#[derive(Clone, Debug, PartialEq, Eq, Structural)]
pub struct ToggleResult {
    pub active: bool,
    pub count: i64,
}

/// Whether one user follows another.
#[derive(Clone, Debug, PartialEq, Eq, Structural)]
pub struct FollowState {
    pub follower_id: u128,
    pub followee_id: u128,
    pub following: bool,
}

/// Writing reactions to storage.
pub struct PostgresReactionRepository;

/// Writing follows to storage.
pub struct PostgresFollowRepository;

} // verus!
