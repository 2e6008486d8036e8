//! An HTTP request composer: an ordered parameter set, a builder that turns a
//! request configuration into a transport-ready request, a classifier for
//! completed responses, and the single-slot session that ties them together.

pub mod params;
pub mod present;
pub mod request;
pub mod response;
pub mod session;
