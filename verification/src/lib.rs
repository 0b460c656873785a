//! The verified core of the RustCWB meetup site: identifiers, the meetup
//! domain model, the call-for-papers use cases, decoding of stored past
//! and future meetups, the page presenters and the admin sign-in check.

pub mod ids;
pub mod auth;
pub mod meetups;
pub mod call_for_papers;
pub mod past_meet_ups;
pub mod presenters;
pub mod future_meet_ups;
