//! The decisions of the user interface: what each message changes, and
//! which message or which piece of outside work follows from it. Drawing is
//! left to the program that uses the library.

pub mod application;
pub mod message;
pub mod pages;
