//! Collects a like / dislike judgment for each photo of a feed, then asks a
//! recommendation service for destinations that fit those judgments.
//!
//! The modules hold the state machines of that session: the item feed and the
//! preference collector (`photos`), the recommendation request (`recommendations`)
//! and the lifecycle they share (`fetch`). Network transport and decoding of the
//! service's JSON replies stay with the caller, which hands the decoded values in
//! as messages.
pub mod fetch;
pub mod photos;
pub mod recommendations;
