//! Open-loop six-step commutation for a three-phase power stage.
//!
//! The crate holds the commutation engine only: the table of duty-cycle
//! triples for one electrical revolution, the rule that decides which
//! half-bridges are driven and which are floated, and the cyclic counter
//! that walks the table once per timer period. Hardware bring-up and the
//! register writes themselves belong to the firmware around it.

pub mod channel;
pub mod pwm;
pub mod sequencer;
pub mod table;
