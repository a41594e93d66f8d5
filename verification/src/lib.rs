//! Outage monitoring engine: reads a utility provider's published outage
//! schedule, picks the planned outage that currently matters for one
//! locality, and renders the notice that goes to subscribers.

pub mod delivery;
pub mod engine;
pub mod markup;
pub mod notice;
pub mod record;
pub mod relevance;
pub mod text;
pub mod time;
