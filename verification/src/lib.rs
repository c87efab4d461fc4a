/*!
A font-atlas texture synchroniser for a 2D renderer, with the surrounding
graphics and windowing vocabulary.

The heart of the crate is [`fons`]: it keeps a GPU-resident glyph-atlas
texture in step with the bitmap of an external glyph rasterizer, coalescing
any number of dirty signals per frame into at most one texture upload.
*/

pub mod app;
pub mod fons;
pub mod gfx;
pub mod glue;
