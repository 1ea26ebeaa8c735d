//! A keyed memoizing compute cache: each key is computed at most once at a
//! time, the first success is kept for good, and a failure leaves the key free
//! for a later retry. Around it stand small building blocks (shapes, counters,
//! a quota tracker, a post workflow) with exact contracts.

pub mod flight;
pub mod runs;
pub mod cache;
pub mod memo;
pub mod shapes;
pub mod adder;
pub mod counting;
pub mod quota;
pub mod blog;
pub mod summary;
pub mod generics;
pub mod restaurant;
pub mod company;
pub mod palette;
