//! Finds live broadcasts of one category whose title holds a search term:
//! decoding of listing pages, the title filter, the result line and the
//! decisions of the interactive session.

pub mod text;
pub mod clock;
pub mod model;
pub mod json;
pub mod decode;
pub mod filter;
pub mod present;
pub mod select;
pub mod session;
