//! What calls promise, stated of their arguments and results.
//!
//! Each law speaks of calls as they return: a result that a call can give for its arguments,
//! or the results of several calls. Flags stand as bits and images by what a dispatch or a
//! create info carries, so a law holds a function to what it is for and not to how it is
//! written down.
pub mod blit;
pub mod creation;
pub mod dispatch;
pub mod engines;
pub mod flags;
pub mod formats;
pub mod interface;
pub mod ngx;
pub mod numbers;
pub mod parts;
pub mod patterns;
pub mod scalers;
