//! Parts that several pages lay out alike.

pub mod top;
