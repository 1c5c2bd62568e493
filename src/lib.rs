//! Host environment of an EVM frame: action parameters, world state,
//! transaction substate and the externalities that an interpreter consults.

pub mod primitives;
pub mod action_params;
pub mod state;
pub mod substate;
pub mod env;
pub mod creation;
pub mod externalities;
