//! Exercises in single-owner records and access discipline:
//! a user record with a constructor and field overwrite, a cell that
//! tracks shared and exclusive access at run time, a text buffer whose
//! derived offsets are guarded against staleness, and small geometry
//! helpers.

pub mod borrow;
pub mod rect;
pub mod text;
pub mod user;
