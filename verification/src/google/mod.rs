//! Mail as the Gmail API delivers it.

pub mod codec;
pub mod gmail;
