//! What the exchanges with the service come to. The requests themselves
//! are made by the surrounding program.

pub mod check_auth;
pub mod exchange;
pub mod gen_coords;
pub mod get_user_details;
pub mod join_class;
pub mod login;
