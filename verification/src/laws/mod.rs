//! What the library is for, stated of its functions as a whole.
pub mod choosing;
pub mod converting;
pub mod encoding;
pub mod finalizing;
pub mod naming;
pub mod reading;
pub mod reporting;
pub mod retrying;
pub mod running;
pub mod words;
