//! What the handlers answer with, and the text they put into their answers.

pub mod responses;
pub mod text;
