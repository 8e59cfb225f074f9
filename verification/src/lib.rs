//! Font resolution and line composition for a terminal.
//!
//! Three parts, leaves first:
//!
//! - The catalog ([`library`]) holds the loaded faces in slot order: regular, italic, bold,
//!   bold italic, the faces of the fallback families, the extra faces, and the embedded
//!   symbol face. Emoji faces are registered to be loaded later.
//! - The resolver ([`context`]) tells which slot renders a cluster in a style. It holds at
//!   most one emoji face and drops it once it has been idle for four seconds.
//! - The compositor ([`compositor`]) lays out the cells of a grid line as glyph sections and
//!   rectangles, counted in cells.
//!
//! The library reads no file and no clock. Its host asks the font index and reads the files
//! for the requests that the catalog plans, hands in the time in milliseconds, and loads the
//! emoji face when the resolver or the compositor asks for it.

pub mod charmap;
pub mod cluster;
pub mod compositor;
pub mod context;
pub mod font;
pub mod fonts;
pub mod glyph;
pub mod library;
pub mod ui;
