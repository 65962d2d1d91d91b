//! Eight drills on POSIX processes (fork, wait, pipes, shared descriptors,
//! exec), each written as a state machine that decides and never acts.
//!
//! A drill is a function from where the process stands and what the operating
//! system last reported to where it stands next and what to ask for next. The
//! driver around it performs the request and hands the report back.

pub mod call;
pub mod text;
pub mod run;
pub mod descriptors;
pub mod q1;
pub mod q2;
pub mod offset;
pub mod q3;
pub mod q4;
pub mod q5;
pub mod q6;
pub mod q7;
pub mod q8;
