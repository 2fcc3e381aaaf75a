//! Core logic of Stake, a small desktop front end that forges web apps with `pake`.
//!
//! The graphical shell lives outside this crate; everything it decides on plain
//! values (form validation, the command it launches, the status it shows, the
//! colours and fades it paints, the hero texture it uploads) is here, with
//! contracts checked by Verus.
pub mod text;
pub mod pake;
pub mod form;
pub mod texture;
pub mod style;
