//! The rules of an interactive password generator.
//!
//! The generator asks how many passwords are wanted, how long they are to
//! be, and which classes of characters they may hold, and then draws the
//! passwords at random. This crate holds what it decides and computes:
//!
//! - [`number`]: what a line typed in answer to "how many?" amounts to;
//! - [`choice`]: what a line typed in answer to a yes-or-no question
//!   amounts to, for the tokens that the question accepts;
//! - [`component`]: the classes of characters on offer, and the pool that
//!   the chosen ones make up;
//! - [`builder`]: the passwords drawn from a pool;
//! - [`error`]: what can go wrong on the way;
//! - [`text`]: texts as sequences of characters.
//!
//! Putting the questions on a terminal and printing the passwords is left to
//! the program that uses the crate.

pub mod builder;
pub mod choice;
pub mod component;
pub mod error;
pub mod number;
pub mod text;
