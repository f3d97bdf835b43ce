//! Aggregation core of a combat-encounter meter.
//!
//! Decoded game events are folded into a model of the running encounter:
//! who takes part, their vitals, the status effects in force, the damage
//! dealt and taken, and where the encounter stands. Four trackers (identity,
//! party, status effects, entities) feed the encounter state; a session ties
//! them together and says when a filtered copy is due for display.
//!
//! Every operation states what it does over a mathematical view of the
//! component it changes, and is proved to do so.

pub mod clock;
pub mod encounter_laws;
pub mod encounter_state;
pub mod entity_tracker;
pub mod events;
pub mod id_tracker;
pub mod lookup;
pub mod models;
pub mod names;
pub mod party_tracker;
pub mod session;
pub mod session_laws;
pub mod status_tracker;

