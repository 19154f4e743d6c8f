//! Lifecycle of a two-stage GPU shader pipeline, written without any driver
//! access of its own.
//!
//! The library decides which driver call comes next and what each answer
//! means; the embedding program performs the calls. Every operation either
//! yields a [`driver::Command`] or consumes a [`driver::Reply`].
//!
//! * [`driver`]: the calls, the replies, and the rule that tells an
//!   accepted reply from a bridge fault.
//! * [`text`]: logs and files as text, and the wording of diagnostics.
//! * [`compile`]: one compilation unit, from source to compiled shader.
//! * [`program`]: the link of two units into a program.
//! * [`shader`]: the facade, and the build that leads to it.
//! * [`session`]: whole runs of a build, and what holds of all of them.
//! * [`stages`]: what each stage of a build adds to a session.
//! * [`outcomes`]: the four ways in which a build can go.

pub mod compile;
pub mod driver;
pub mod outcomes;
pub mod program;
pub mod session;
pub mod shader;
pub mod stages;
pub mod text;
