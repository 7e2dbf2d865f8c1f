//! A text console on a linear framebuffer.
//!
//! The console owns a raw pixel buffer together with a description of its
//! layout, keeps a cursor in pixel coordinates, and draws glyphs of a fixed
//! bitmap font as shades of gray. Every operation is specified against a
//! mathematical model of the console ([`console::Console`]), and conditions
//! that would halt a kernel are reported as a [`fault::Fault`] value.
pub mod console;
pub mod fault;
pub mod geometry;
pub mod glyph;
pub mod pixel;
pub mod registry;
pub mod vga;
