//! Rules that decide how a block producer shares its rewards and what it does
//! with the packets it has buffered.

pub mod clock;
pub mod config_map;
pub mod decision_laws;
pub mod decision_maker;
pub mod distribution_config_parser;
pub mod distribution_laws;
pub mod poh;
