//! Runtime dispatch over a shared capability: animals that speak.
//!
//! Each animal kind implements [`animal::Animal`], whose `speak` returns the
//! line the animal says. The dispatcher in [`dispatch`] works through
//! `&dyn Animal` and never looks at the concrete kind; [`demo`] builds the
//! lines of a short demonstration, and [`laws`] states what holds of them.
pub mod animal;
pub mod demo;
pub mod dispatch;
pub mod laws;
