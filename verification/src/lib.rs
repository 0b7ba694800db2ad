//! A single-module compilation driver.
//!
//! The driver takes the text of one module, a target address and an ordered
//! set of already compiled dependency modules, runs the stages load, parse and
//! compile in sequence, and hands back the compiled module together with its
//! source map, or the error of the first stage that failed.
pub mod error;
pub mod source;
pub mod driver;
pub mod resolution;
pub mod util;
