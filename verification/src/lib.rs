//! Logo templating and rendering for a terminal system-information display:
//! colour palettes per distribution, placeholder-aware logo lines, and the
//! composition of a logo with a panel of host facts.

pub mod assets;
pub mod color;
pub mod compose;
pub mod disks;
pub mod facts;
pub mod laws;
pub mod logo;
pub mod order;
pub mod palette;
pub mod parse;
pub mod resolve;
pub mod sysinfo;
pub mod table;
pub mod table_order;
pub mod template;
pub mod text;
pub mod words;
