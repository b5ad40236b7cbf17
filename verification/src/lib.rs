//! The deciding half of a rendering bridge between an editor's frames and a
//! retained-mode compositor.
//!
//! - [`output`]: the scene of a frame, from the first drawing call to the
//!   presented frame that seeds the next scene.
//! - [`cache`]: which fonts and font instances are registered with the
//!   compositor, so that none is registered twice.
//! - [`font_db`]: font descriptors, generic families, and what to ask of the
//!   system to get a font's bytes.
//! - [`font`]: matching font specs, opening fonts, glyph codes and text
//!   extents.
//! - [`face`]: what is read of a parsed font face.
//! - [`scale`]: glyph sizes and the scaling of font units to pixels.
//! - [`text`]: the string helpers the others share.
//!
//! Windows, the GPU, the compositor, the system font provider and the font
//! parser's reading of files are not touched here: every function takes
//! plain values, or a face already parsed, and gives plain values back, and
//! says in its contract which. No function of this library panics.

pub mod cache;
pub mod face;
pub mod font;
pub mod font_db;
pub mod output;
pub mod scale;
pub mod text;
