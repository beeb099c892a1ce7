//! Text console on a linear framebuffer, using an 8x16 bitmap font.
//!
//! The writer keeps a character cursor; each printable byte is drawn
//! into its 8x16 cell (white on black) and the cursor advances, wrapping
//! at the right edge and scrolling the screen up one text row at the
//! bottom. The framebuffer's bytes are handed in as a slice.
use vstd::prelude::*;
use vstd::arithmetic::div_mod::{
    lemma_div_pos_is_pos, lemma_fundamental_div_mod, lemma_fundamental_div_mod_converse, lemma_mod_pos_bound,
};
use crate::wire::{copy_at, sub_vec, zeros};
use vstd::string::StringSliceAdditionalSpecFns;

verus! {

/// Glyph width in pixels.
pub const GLYPH_W: usize = 8;

/// Glyph height in pixels.
pub const GLYPH_H: usize = 16;

/// Minimal 8x16 bitmap font covering printable ASCII (0x20..0x7E), one
/// byte per row, most significant bit leftmost. Characters without a
/// drawing are blank.
pub const FONT: [[u8; 16]; 95] = [
    [0x00, 0x00, 0x00, 0x00, 0x00, 0x00, 0x00, 0x00, 0x00, 0x00, 0x00, 0x00, 0x00, 0x00, 0x00, 0x00],
    [0x00, 0x00, 0x18, 0x18, 0x18, 0x18, 0x18, 0x18, 0x18, 0x00, 0x18, 0x18, 0x00, 0x00, 0x00, 0x00],
    [0x00, 0x00, 0x6C, 0x6C, 0x6C, 0x00, 0x00, 0x00, 0x00, 0x00, 0x00, 0x00, 0x00, 0x00, 0x00, 0x00],
    [0x00, 0x00, 0x00, 0x00, 0x00, 0x00, 0x00, 0x00, 0x00, 0x00, 0x00, 0x00, 0x00, 0x00, 0x00, 0x00],
    [0x00, 0x00, 0x00, 0x00, 0x00, 0x00, 0x00, 0x00, 0x00, 0x00, 0x00, 0x00, 0x00, 0x00, 0x00, 0x00],
    [0x00, 0x00, 0x00, 0x00, 0x00, 0x00, 0x00, 0x00, 0x00, 0x00, 0x00, 0x00, 0x00, 0x00, 0x00, 0x00],
    [0x00, 0x00, 0x00, 0x00, 0x00, 0x00, 0x00, 0x00, 0x00, 0x00, 0x00, 0x00, 0x00, 0x00, 0x00, 0x00],
    [0x00, 0x00, 0x00, 0x00, 0x00, 0x00, 0x00, 0x00, 0x00, 0x00, 0x00, 0x00, 0x00, 0x00, 0x00, 0x00],
    [0x00, 0x00, 0x0C, 0x18, 0x18, 0x30, 0x30, 0x30, 0x18, 0x18, 0x0C, 0x00, 0x00, 0x00, 0x00, 0x00],
    [0x00, 0x00, 0x30, 0x18, 0x18, 0x0C, 0x0C, 0x0C, 0x18, 0x18, 0x30, 0x00, 0x00, 0x00, 0x00, 0x00],
    [0x00, 0x00, 0x00, 0x00, 0x66, 0x3C, 0xFF, 0x3C, 0x66, 0x00, 0x00, 0x00, 0x00, 0x00, 0x00, 0x00],
    [0x00, 0x00, 0x00, 0x00, 0x18, 0x18, 0x7E, 0x18, 0x18, 0x00, 0x00, 0x00, 0x00, 0x00, 0x00, 0x00],
    [0x00, 0x00, 0x00, 0x00, 0x00, 0x00, 0x00, 0x00, 0x00, 0x18, 0x18, 0x08, 0x10, 0x00, 0x00, 0x00],
    [0x00, 0x00, 0x00, 0x00, 0x00, 0x00, 0x00, 0x7E, 0x00, 0x00, 0x00, 0x00, 0x00, 0x00, 0x00, 0x00],
    [0x00, 0x00, 0x00, 0x00, 0x00, 0x00, 0x00, 0x00, 0x00, 0x18, 0x18, 0x00, 0x00, 0x00, 0x00, 0x00],
    [0x00, 0x00, 0x02, 0x06, 0x0C, 0x0C, 0x18, 0x18, 0x30, 0x30, 0x60, 0x00, 0x00, 0x00, 0x00, 0x00],
    [0x00, 0x00, 0x3C, 0x66, 0x66, 0x6E, 0x76, 0x66, 0x66, 0x66, 0x3C, 0x00, 0x00, 0x00, 0x00, 0x00],
    [0x00, 0x00, 0x18, 0x38, 0x18, 0x18, 0x18, 0x18, 0x18, 0x18, 0x7E, 0x00, 0x00, 0x00, 0x00, 0x00],
    [0x00, 0x00, 0x3C, 0x66, 0x06, 0x06, 0x0C, 0x18, 0x30, 0x60, 0x7E, 0x00, 0x00, 0x00, 0x00, 0x00],
    [0x00, 0x00, 0x3C, 0x66, 0x06, 0x1C, 0x06, 0x06, 0x06, 0x66, 0x3C, 0x00, 0x00, 0x00, 0x00, 0x00],
    [0x00, 0x00, 0x0C, 0x1C, 0x3C, 0x6C, 0x6C, 0x7E, 0x0C, 0x0C, 0x0C, 0x00, 0x00, 0x00, 0x00, 0x00],
    [0x00, 0x00, 0x7E, 0x60, 0x60, 0x7C, 0x06, 0x06, 0x06, 0x66, 0x3C, 0x00, 0x00, 0x00, 0x00, 0x00],
    [0x00, 0x00, 0x1C, 0x30, 0x60, 0x7C, 0x66, 0x66, 0x66, 0x66, 0x3C, 0x00, 0x00, 0x00, 0x00, 0x00],
    [0x00, 0x00, 0x7E, 0x06, 0x0C, 0x0C, 0x18, 0x18, 0x18, 0x18, 0x18, 0x00, 0x00, 0x00, 0x00, 0x00],
    [0x00, 0x00, 0x3C, 0x66, 0x66, 0x3C, 0x66, 0x66, 0x66, 0x66, 0x3C, 0x00, 0x00, 0x00, 0x00, 0x00],
    [0x00, 0x00, 0x3C, 0x66, 0x66, 0x66, 0x3E, 0x06, 0x06, 0x0C, 0x38, 0x00, 0x00, 0x00, 0x00, 0x00],
    [0x00, 0x00, 0x00, 0x00, 0x18, 0x18, 0x00, 0x00, 0x18, 0x18, 0x00, 0x00, 0x00, 0x00, 0x00, 0x00],
    [0x00, 0x00, 0x00, 0x00, 0x00, 0x00, 0x00, 0x00, 0x00, 0x00, 0x00, 0x00, 0x00, 0x00, 0x00, 0x00],
    [0x00, 0x00, 0x00, 0x00, 0x00, 0x00, 0x00, 0x00, 0x00, 0x00, 0x00, 0x00, 0x00, 0x00, 0x00, 0x00],
    [0x00, 0x00, 0x00, 0x00, 0x00, 0x7E, 0x00, 0x7E, 0x00, 0x00, 0x00, 0x00, 0x00, 0x00, 0x00, 0x00],
    [0x00, 0x00, 0x00, 0x00, 0x00, 0x00, 0x00, 0x00, 0x00, 0x00, 0x00, 0x00, 0x00, 0x00, 0x00, 0x00],
    [0x00, 0x00, 0x3C, 0x66, 0x06, 0x0C, 0x18, 0x18, 0x18, 0x00, 0x18, 0x18, 0x00, 0x00, 0x00, 0x00],
    [0x00, 0x00, 0x00, 0x00, 0x00, 0x00, 0x00, 0x00, 0x00, 0x00, 0x00, 0x00, 0x00, 0x00, 0x00, 0x00],
    [0x00, 0x00, 0x18, 0x3C, 0x66, 0x66, 0x7E, 0x66, 0x66, 0x66, 0x66, 0x00, 0x00, 0x00, 0x00, 0x00],
    [0x00, 0x00, 0x7C, 0x66, 0x66, 0x7C, 0x66, 0x66, 0x66, 0x66, 0x7C, 0x00, 0x00, 0x00, 0x00, 0x00],
    [0x00, 0x00, 0x3C, 0x66, 0x60, 0x60, 0x60, 0x60, 0x60, 0x66, 0x3C, 0x00, 0x00, 0x00, 0x00, 0x00],
    [0x00, 0x00, 0x78, 0x6C, 0x66, 0x66, 0x66, 0x66, 0x66, 0x6C, 0x78, 0x00, 0x00, 0x00, 0x00, 0x00],
    [0x00, 0x00, 0x7E, 0x60, 0x60, 0x7C, 0x60, 0x60, 0x60, 0x60, 0x7E, 0x00, 0x00, 0x00, 0x00, 0x00],
    [0x00, 0x00, 0x7E, 0x60, 0x60, 0x7C, 0x60, 0x60, 0x60, 0x60, 0x60, 0x00, 0x00, 0x00, 0x00, 0x00],
    [0x00, 0x00, 0x3C, 0x66, 0x60, 0x60, 0x6E, 0x66, 0x66, 0x66, 0x3E, 0x00, 0x00, 0x00, 0x00, 0x00],
    [0x00, 0x00, 0x66, 0x66, 0x66, 0x7E, 0x66, 0x66, 0x66, 0x66, 0x66, 0x00, 0x00, 0x00, 0x00, 0x00],
    [0x00, 0x00, 0x3C, 0x18, 0x18, 0x18, 0x18, 0x18, 0x18, 0x18, 0x3C, 0x00, 0x00, 0x00, 0x00, 0x00],
    [0x00, 0x00, 0x00, 0x00, 0x00, 0x00, 0x00, 0x00, 0x00, 0x00, 0x00, 0x00, 0x00, 0x00, 0x00, 0x00],
    [0x00, 0x00, 0x66, 0x6C, 0x78, 0x70, 0x78, 0x6C, 0x66, 0x66, 0x66, 0x00, 0x00, 0x00, 0x00, 0x00],
    [0x00, 0x00, 0x60, 0x60, 0x60, 0x60, 0x60, 0x60, 0x60, 0x60, 0x7E, 0x00, 0x00, 0x00, 0x00, 0x00],
    [0x00, 0x00, 0x63, 0x77, 0x7F, 0x6B, 0x63, 0x63, 0x63, 0x63, 0x63, 0x00, 0x00, 0x00, 0x00, 0x00],
    [0x00, 0x00, 0x66, 0x76, 0x7E, 0x7E, 0x6E, 0x66, 0x66, 0x66, 0x66, 0x00, 0x00, 0x00, 0x00, 0x00],
    [0x00, 0x00, 0x3C, 0x66, 0x66, 0x66, 0x66, 0x66, 0x66, 0x66, 0x3C, 0x00, 0x00, 0x00, 0x00, 0x00],
    [0x00, 0x00, 0x7C, 0x66, 0x66, 0x7C, 0x60, 0x60, 0x60, 0x60, 0x60, 0x00, 0x00, 0x00, 0x00, 0x00],
    [0x00, 0x00, 0x00, 0x00, 0x00, 0x00, 0x00, 0x00, 0x00, 0x00, 0x00, 0x00, 0x00, 0x00, 0x00, 0x00],
    [0x00, 0x00, 0x7C, 0x66, 0x66, 0x7C, 0x6C, 0x66, 0x66, 0x66, 0x66, 0x00, 0x00, 0x00, 0x00, 0x00],
    [0x00, 0x00, 0x3C, 0x66, 0x60, 0x3C, 0x06, 0x06, 0x06, 0x66, 0x3C, 0x00, 0x00, 0x00, 0x00, 0x00],
    [0x00, 0x00, 0x7E, 0x18, 0x18, 0x18, 0x18, 0x18, 0x18, 0x18, 0x18, 0x00, 0x00, 0x00, 0x00, 0x00],
    [0x00, 0x00, 0x66, 0x66, 0x66, 0x66, 0x66, 0x66, 0x66, 0x66, 0x3C, 0x00, 0x00, 0x00, 0x00, 0x00],
    [0x00, 0x00, 0x66, 0x66, 0x66, 0x66, 0x66, 0x66, 0x3C, 0x18, 0x18, 0x00, 0x00, 0x00, 0x00, 0x00],
    [0x00, 0x00, 0x00, 0x00, 0x00, 0x00, 0x00, 0x00, 0x00, 0x00, 0x00, 0x00, 0x00, 0x00, 0x00, 0x00],
    [0x00, 0x00, 0x00, 0x00, 0x00, 0x00, 0x00, 0x00, 0x00, 0x00, 0x00, 0x00, 0x00, 0x00, 0x00, 0x00],
    [0x00, 0x00, 0x00, 0x00, 0x00, 0x00, 0x00, 0x00, 0x00, 0x00, 0x00, 0x00, 0x00, 0x00, 0x00, 0x00],
    [0x00, 0x00, 0x00, 0x00, 0x00, 0x00, 0x00, 0x00, 0x00, 0x00, 0x00, 0x00, 0x00, 0x00, 0x00, 0x00],
    [0x00, 0x00, 0x1E, 0x18, 0x18, 0x18, 0x18, 0x18, 0x18, 0x18, 0x1E, 0x00, 0x00, 0x00, 0x00, 0x00],
    [0x00, 0x00, 0x00, 0x00, 0x00, 0x00, 0x00, 0x00, 0x00, 0x00, 0x00, 0x00, 0x00, 0x00, 0x00, 0x00],
    [0x00, 0x00, 0x78, 0x18, 0x18, 0x18, 0x18, 0x18, 0x18, 0x18, 0x78, 0x00, 0x00, 0x00, 0x00, 0x00],
    [0x00, 0x00, 0x00, 0x00, 0x00, 0x00, 0x00, 0x00, 0x00, 0x00, 0x00, 0x00, 0x00, 0x00, 0x00, 0x00],
    [0x00, 0x00, 0x00, 0x00, 0x00, 0x00, 0x00, 0x00, 0x00, 0x00, 0x00, 0x00, 0x00, 0x7E, 0x00, 0x00],
    [0x00, 0x00, 0x00, 0x00, 0x00, 0x00, 0x00, 0x00, 0x00, 0x00, 0x00, 0x00, 0x00, 0x00, 0x00, 0x00],
    [0x00, 0x00, 0x00, 0x00, 0x00, 0x3C, 0x06, 0x3E, 0x66, 0x66, 0x3E, 0x00, 0x00, 0x00, 0x00, 0x00],
    [0x00, 0x00, 0x60, 0x60, 0x60, 0x7C, 0x66, 0x66, 0x66, 0x66, 0x7C, 0x00, 0x00, 0x00, 0x00, 0x00],
    [0x00, 0x00, 0x00, 0x00, 0x00, 0x3C, 0x66, 0x60, 0x60, 0x66, 0x3C, 0x00, 0x00, 0x00, 0x00, 0x00],
    [0x00, 0x00, 0x06, 0x06, 0x06, 0x3E, 0x66, 0x66, 0x66, 0x66, 0x3E, 0x00, 0x00, 0x00, 0x00, 0x00],
    [0x00, 0x00, 0x00, 0x00, 0x00, 0x3C, 0x66, 0x7E, 0x60, 0x66, 0x3C, 0x00, 0x00, 0x00, 0x00, 0x00],
    [0x00, 0x00, 0x1C, 0x30, 0x30, 0x7C, 0x30, 0x30, 0x30, 0x30, 0x30, 0x00, 0x00, 0x00, 0x00, 0x00],
    [0x00, 0x00, 0x00, 0x00, 0x00, 0x00, 0x00, 0x00, 0x00, 0x00, 0x00, 0x00, 0x00, 0x00, 0x00, 0x00],
    [0x00, 0x00, 0x60, 0x60, 0x60, 0x7C, 0x66, 0x66, 0x66, 0x66, 0x66, 0x00, 0x00, 0x00, 0x00, 0x00],
    [0x00, 0x00, 0x18, 0x00, 0x00, 0x38, 0x18, 0x18, 0x18, 0x18, 0x3C, 0x00, 0x00, 0x00, 0x00, 0x00],
    [0x00, 0x00, 0x00, 0x00, 0x00, 0x00, 0x00, 0x00, 0x00, 0x00, 0x00, 0x00, 0x00, 0x00, 0x00, 0x00],
    [0x00, 0x00, 0x00, 0x00, 0x00, 0x00, 0x00, 0x00, 0x00, 0x00, 0x00, 0x00, 0x00, 0x00, 0x00, 0x00],
    [0x00, 0x00, 0x38, 0x18, 0x18, 0x18, 0x18, 0x18, 0x18, 0x18, 0x3C, 0x00, 0x00, 0x00, 0x00, 0x00],
    [0x00, 0x00, 0x00, 0x00, 0x00, 0x76, 0x7F, 0x6B, 0x6B, 0x63, 0x63, 0x00, 0x00, 0x00, 0x00, 0x00],
    [0x00, 0x00, 0x00, 0x00, 0x00, 0x7C, 0x66, 0x66, 0x66, 0x66, 0x66, 0x00, 0x00, 0x00, 0x00, 0x00],
    [0x00, 0x00, 0x00, 0x00, 0x00, 0x3C, 0x66, 0x66, 0x66, 0x66, 0x3C, 0x00, 0x00, 0x00, 0x00, 0x00],
    [0x00, 0x00, 0x00, 0x00, 0x00, 0x7C, 0x66, 0x66, 0x66, 0x7C, 0x60, 0x60, 0x60, 0x00, 0x00, 0x00],
    [0x00, 0x00, 0x00, 0x00, 0x00, 0x00, 0x00, 0x00, 0x00, 0x00, 0x00, 0x00, 0x00, 0x00, 0x00, 0x00],
    [0x00, 0x00, 0x00, 0x00, 0x00, 0x3E, 0x66, 0x60, 0x60, 0x60, 0x60, 0x00, 0x00, 0x00, 0x00, 0x00],
    [0x00, 0x00, 0x00, 0x00, 0x00, 0x3E, 0x60, 0x3C, 0x06, 0x06, 0x7C, 0x00, 0x00, 0x00, 0x00, 0x00],
    [0x00, 0x00, 0x18, 0x18, 0x18, 0x7E, 0x18, 0x18, 0x18, 0x18, 0x0E, 0x00, 0x00, 0x00, 0x00, 0x00],
    [0x00, 0x00, 0x00, 0x00, 0x00, 0x66, 0x66, 0x66, 0x66, 0x66, 0x3E, 0x00, 0x00, 0x00, 0x00, 0x00],
    [0x00, 0x00, 0x00, 0x00, 0x00, 0x66, 0x66, 0x66, 0x3C, 0x18, 0x18, 0x00, 0x00, 0x00, 0x00, 0x00],
    [0x00, 0x00, 0x00, 0x00, 0x00, 0x63, 0x63, 0x6B, 0x7F, 0x36, 0x36, 0x00, 0x00, 0x00, 0x00, 0x00],
    [0x00, 0x00, 0x00, 0x00, 0x00, 0x66, 0x66, 0x3C, 0x3C, 0x66, 0x66, 0x00, 0x00, 0x00, 0x00, 0x00],
    [0x00, 0x00, 0x00, 0x00, 0x00, 0x66, 0x66, 0x66, 0x3E, 0x06, 0x06, 0x3C, 0x00, 0x00, 0x00, 0x00],
    [0x00, 0x00, 0x00, 0x00, 0x00, 0x00, 0x00, 0x00, 0x00, 0x00, 0x00, 0x00, 0x00, 0x00, 0x00, 0x00],
    [0x00, 0x00, 0x00, 0x00, 0x00, 0x00, 0x00, 0x00, 0x00, 0x00, 0x00, 0x00, 0x00, 0x00, 0x00, 0x00],
    [0x00, 0x00, 0x00, 0x00, 0x00, 0x00, 0x00, 0x00, 0x00, 0x00, 0x00, 0x00, 0x00, 0x00, 0x00, 0x00],
    [0x00, 0x00, 0x00, 0x00, 0x00, 0x00, 0x00, 0x00, 0x00, 0x00, 0x00, 0x00, 0x00, 0x00, 0x00, 0x00],
    [0x00, 0x00, 0x00, 0x00, 0x00, 0x00, 0x00, 0x00, 0x00, 0x00, 0x00, 0x00, 0x00, 0x00, 0x00, 0x00],];

/// Index of a byte's glyph in `FONT`: printable ASCII maps to itself,
/// everything else to '?'.
pub open spec fn glyph_index(c: u8) -> int {
    if c < 0x20 || c > 0x7E {
        0x3F - 0x20
    } else {
        c - 0x20
    }
}

/// Bitmap of a byte's glyph.
pub fn get_glyph(c: u8) -> (g: [u8; 16])
    ensures
        g == FONT[glyph_index(c)],
{
    if c < 0x20 || c > 0x7E {
        return FONT[(0x3F - 0x20) as usize];
    }
    FONT[(c - 0x20) as usize]
}

/// Where the cursor goes for a byte, and what is drawn.
#[derive(Debug, Clone, Copy)]
pub struct CursorStep {
    /// The screen scrolls up one text row first.
    pub scroll: bool,
    /// The cell the glyph is drawn into, if any.
    pub draw: Option<(usize, usize)>,
    /// Cursor afterwards.
    pub col: usize,
    pub row: usize,
}

/// Cursor movement for byte `c` at (`col`, `row`) on a `cols` × `rows`
/// text screen. A newline goes to the start of the next row and a
/// carriage return to the start of the row; any other byte is drawn at
/// the cursor, after wrapping to the next row when the cursor is past the
/// right edge. Moving below the last row scrolls and stays on the last row.
pub open spec fn cursor_step(cols: usize, rows: usize, col: usize, row: usize, c: u8) -> CursorStep {
    if c == 0x0A {
        if row + 1 >= rows {
            CursorStep { scroll: true, draw: None, col: 0, row: (rows - 1) as usize }
        } else {
            CursorStep { scroll: false, draw: None, col: 0, row: (row + 1) as usize }
        }
    } else if c == 0x0D {
        CursorStep { scroll: false, draw: None, col: 0, row }
    } else if col >= cols {
        if row + 1 >= rows {
            CursorStep { scroll: true, draw: Some((0, (rows - 1) as usize)), col: 1, row: (rows - 1) as usize }
        } else {
            CursorStep { scroll: false, draw: Some((0, (row + 1) as usize)), col: 1, row: (row + 1) as usize }
        }
    } else {
        CursorStep { scroll: false, draw: Some((col, row)), col: (col + 1) as usize, row }
    }
}

/// Cursor after writing `bytes` from (`col`, `row`).
pub open spec fn cursor_after(cols: usize, rows: usize, col: usize, row: usize, bytes: Seq<u8>) -> (usize, usize)
    decreases bytes.len(),
{
    if bytes.len() == 0 {
        (col, row)
    } else {
        let prev = cursor_after(cols, rows, col, row, bytes.drop_last());
        let st = cursor_step(cols, rows, prev.0, prev.1, bytes.last());
        (st.col, st.row)
    }
}

/// Writer and frame after writing `bytes` from writer `w` on frame `fb`,
/// byte by byte.
pub open spec fn text_after(w: FramebufferWriter, fb: Seq<u8>, bytes: Seq<u8>) -> (FramebufferWriter, Seq<u8>)
    decreases bytes.len(),
{
    if bytes.len() == 0 {
        (w, fb)
    } else {
        let prev = text_after(w, fb, bytes.drop_last());
        (prev.0.after_char(bytes.last()), prev.0.frame_after_char(prev.1, bytes.last()))
    }
}

/// Byte offset of pixel (x, y).
pub open spec fn pixel_offset(stride: usize, bpp: usize, x: int, y: int) -> int {
    (y * stride + x) * bpp
}

/// Bit (gx, gy) of a glyph bitmap is set.
pub open spec fn glyph_bit(g: [u8; 16], gx: int, gy: int) -> bool {
    (g[gy] >> ((7 - gx) as u8)) & 1u8 != 0
}

/// Bytes written for a pixel: three (colour channels) for a lit pixel,
/// four for a dark one, never more than the pixel has.
pub open spec fn pixel_bytes(bpp: usize, on: bool) -> int {
    let n = if on {
        3
    } else {
        4
    };
    if (bpp as int) < n {
        bpp as int
    } else {
        n
    }
}

/// Byte `i` of pixel (px + gx, py + gy).
pub open spec fn cell_byte(fb: Seq<u8>, stride: usize, bpp: usize, px: int, py: int, gx: int, gy: int, i: int) -> u8 {
    fb[pixel_offset(stride, bpp, px + gx, py + gy) + i]
}

/// Glyph `g` is drawn white on black in the 8x16 cell whose top-left
/// pixel is (px, py).
pub open spec fn cell_drawn(fb: Seq<u8>, stride: usize, bpp: usize, px: int, py: int, g: [u8; 16]) -> bool {
    forall|gx: int, gy: int, i: int|
        0 <= gx < 8 && 0 <= gy < 16 && 0 <= i < pixel_bytes(bpp, glyph_bit(g, gx, gy)) ==> #[trigger] cell_byte(
            fb,
            stride,
            bpp,
            px,
            py,
            gx,
            gy,
            i,
        ) == if glyph_bit(g, gx, gy) {
            0xFFu8
        } else {
            0u8
        }
}

/// Pixel and byte that byte `j` of the frame belongs to: (x, y, byte).
pub open spec fn pixel_of(stride: usize, bpp: usize, j: int) -> (int, int, int) {
    ((j / bpp as int) % (stride as int), (j / bpp as int) / (stride as int), j % (bpp as int))
}

/// Byte `j` belongs to a pixel of the 8x16 cell at (px, py) that glyph `g`
/// draws: one of its first `pixel_bytes` bytes.
pub open spec fn in_cell(stride: usize, bpp: usize, px: int, py: int, g: [u8; 16], j: int) -> bool {
    let (x, y, k) = pixel_of(stride, bpp, j);
    &&& px <= x < px + 8
    &&& py <= y < py + 16
    &&& k < pixel_bytes(bpp, glyph_bit(g, x - px, y - py))
}

/// Value glyph `g` gives byte `j` of its cell: white for a set bit, black
/// otherwise.
pub open spec fn cell_value(stride: usize, bpp: usize, px: int, py: int, g: [u8; 16], j: int) -> u8 {
    let (x, y, k) = pixel_of(stride, bpp, j);
    if glyph_bit(g, x - px, y - py) {
        0xFFu8
    } else {
        0u8
    }
}

/// The frame `fb` with glyph `g` drawn in the cell at (px, py); every
/// other byte as it was.
pub open spec fn draw_cell(fb: Seq<u8>, stride: usize, bpp: usize, px: int, py: int, g: [u8; 16]) -> Seq<u8> {
    Seq::new(
        fb.len(),
        |j: int|
            if in_cell(stride, bpp, px, py, g, j) {
                cell_value(stride, bpp, px, py, g, j)
            } else {
                fb[j]
            },
    )
}

/// The frame `fb` with the pixels of glyph `g`'s cell at (px, py) drawn
/// up to glyph pixel (gx, gy), row by row: rows above `gy`, and pixels left
/// of `gx` in row `gy`.
pub open spec fn drawn_upto(fb: Seq<u8>, stride: usize, bpp: usize, px: int, py: int, g: [u8; 16], gx: int, gy: int) -> Seq<
    u8,
> {
    Seq::new(
        fb.len(),
        |j: int|
            {
                let (x, y, k) = pixel_of(stride, bpp, j);
                if in_cell(stride, bpp, px, py, g, j) && (y - py < gy || (y - py == gy && x - px < gx)) {
                    cell_value(stride, bpp, px, py, g, j)
                } else {
                    fb[j]
                }
            },
    )
}

/// Byte `i` of pixel (x, y) decodes back to that pixel and byte.
pub proof fn lemma_pixel_of(stride: usize, bpp: usize, x: int, y: int, i: int)
    requires
        0 <= x < stride,
        0 <= y,
        0 <= i < bpp,
    ensures
        pixel_of(stride, bpp, pixel_offset(stride, bpp, x, y) + i) == (x, y, i),
{
    let p = y * stride + x;
    lemma_fundamental_div_mod_converse(pixel_offset(stride, bpp, x, y) + i, bpp as int, p, i);
    lemma_fundamental_div_mod_converse(p, stride as int, y, x);
}

/// Every byte of the frame is a byte of the pixel it decodes to.
pub proof fn lemma_pixel_of_inverse(stride: usize, bpp: usize, j: int)
    requires
        0 <= j,
        stride >= 1,
        bpp >= 1,
    ensures
        ({
            let (x, y, k) = pixel_of(stride, bpp, j);
            &&& 0 <= x < stride
            &&& 0 <= y
            &&& 0 <= k < bpp
            &&& j == pixel_offset(stride, bpp, x, y) + k
        }),
{
    let q = j / bpp as int;
    lemma_fundamental_div_mod(j, bpp as int);
    lemma_fundamental_div_mod(q, stride as int);
    lemma_div_pos_is_pos(j, bpp as int);
    lemma_div_pos_is_pos(q, stride as int);
    lemma_mod_pos_bound(j, bpp as int);
    lemma_mod_pos_bound(q, stride as int);
    let (x, y, k) = pixel_of(stride, bpp, j);
    assert(q == stride * y + x);
    assert(j == bpp * q + k);
    assert(pixel_offset(stride, bpp, x, y) + k == (y * stride + x) * bpp + k);
    assert((y * stride + x) * bpp == bpp * (stride * y + x)) by (nonlinear_arith);
}

/// Distinct pixels of a row-major framebuffer never share a byte.
pub proof fn lemma_pixels_disjoint(stride: usize, bpp: usize, x1: int, y1: int, i1: int, x2: int, y2: int, i2: int)
    requires
        0 <= x1 < stride,
        0 <= x2 < stride,
        0 <= y1,
        0 <= y2,
        0 <= i1 < bpp,
        0 <= i2 < bpp,
        x1 != x2 || y1 != y2,
    ensures
        pixel_offset(stride, bpp, x1, y1) + i1 != pixel_offset(stride, bpp, x2, y2) + i2,
{
    let p1 = y1 * stride + x1;
    let p2 = y2 * stride + x2;
    assert(p1 != p2) by (nonlinear_arith)
        requires
            p1 == y1 * stride + x1,
            p2 == y2 * stride + x2,
            0 <= x1 < stride,
            0 <= x2 < stride,
            x1 != x2 || y1 != y2,
    {
        if y1 == y2 {
        } else if y1 < y2 {
            assert(y2 * stride >= (y1 + 1) * stride);
        } else {
            assert(y1 * stride >= (y2 + 1) * stride);
        }
    }
    assert(p1 * bpp + i1 != p2 * bpp + i2) by (nonlinear_arith)
        requires
            p1 != p2,
            0 <= i1 < bpp,
            0 <= i2 < bpp,
    {
        if p1 < p2 {
            assert(p2 * bpp >= (p1 + 1) * bpp);
        } else {
            assert(p1 * bpp >= (p2 + 1) * bpp);
        }
    }
}

/// Pixel offsets inside the frame: every intermediate of the offset
/// computation, and the end of the pixel, stay within the frame size.
pub proof fn lemma_offset_in_frame(stride: int, bpp: int, height: int, x: int, y: int)
    requires
        0 <= x < stride,
        0 <= y < height,
        bpp >= 1,
    ensures
        y * stride <= stride * bpp * height,
        y * stride + x + 1 <= stride * bpp * height,
        (y * stride + x) * bpp + bpp <= stride * bpp * height,
{
    assert(y * stride + x + 1 <= height * stride) by (nonlinear_arith)
        requires
            0 <= x < stride,
            0 <= y < height,
    {
        assert((y + 1) * stride <= height * stride);
    }
    assert(height * stride <= stride * bpp * height) by (nonlinear_arith)
        requires
            bpp >= 1,
            height >= 0,
            stride >= 0,
    ;
    assert((y * stride + x) * bpp + bpp <= stride * bpp * height) by (nonlinear_arith)
        requires
            y * stride + x + 1 <= height * stride,
            bpp >= 1,
    {
        assert((y * stride + x + 1) * bpp <= (height * stride) * bpp);
    }
}

/// Text console on a linear framebuffer: geometry and cursor.
pub struct FramebufferWriter {
    pub width: usize,
    pub height: usize,
    pub stride: usize,
    pub bpp: usize,
    pub col: usize,
    pub row: usize,
}

impl FramebufferWriter {
    /// Geometry the writer can draw on: at least one text cell, rows no
    /// wider than the stride, pixels of at least one byte, the whole
    /// frame addressable; the cursor on screen.
    pub open spec fn wf(&self) -> bool {
        &&& self.width >= 8
        &&& self.height >= 16
        &&& self.width <= self.stride
        &&& self.bpp >= 1
        &&& self.stride * self.bpp * self.height <= usize::MAX
        &&& self.col <= self.width / 8
        &&& self.row < self.height / 16
    }

    /// Bytes of the whole frame.
    pub open spec fn frame_len(&self) -> int {
        self.stride * self.bpp * self.height
    }

    /// Writer for a `width` × `height` framebuffer with `stride` pixels per
    /// row and `bpp` bytes per pixel, cursor at the top left.
    pub fn new(width: usize, height: usize, stride: usize, bpp: usize) -> (w: Self)
        ensures
            w.width == width,
            w.height == height,
            w.stride == stride,
            w.bpp == bpp,
            w.col == 0,
            w.row == 0,
    {
        FramebufferWriter { width, height, stride, bpp, col: 0, row: 0 }
    }

    /// Columns of text.
    pub fn cols(&self) -> (n: usize)
        ensures
            n == self.width / 8,
    {
        self.width / GLYPH_W
    }

    /// Rows of text.
    pub fn rows(&self) -> (n: usize)
        ensures
            n == self.height / 16,
    {
        self.height / GLYPH_H
    }

    /// Scroll the screen up by one text row (16 pixel rows): everything
    /// below the first text row moves up, the last text row is cleared.
    pub fn scroll(&self, fb: &mut [u8])
        requires
            self.wf(),
            old(fb)@.len() >= self.frame_len(),
        ensures
            final(fb)@.len() == old(fb)@.len(),
            ({
                let row_bytes = self.stride * self.bpp * 16;
                let total = self.frame_len();
                final(fb)@ == old(fb)@.subrange(row_bytes, total) + zeros(row_bytes) + old(fb)@.subrange(
                    total,
                    old(fb)@.len() as int,
                )
            }),
    {
        proof {
            assert(self.stride * self.bpp * 16 <= self.stride * self.bpp * self.height) by (nonlinear_arith)
                requires
                    self.height >= 16,
            ;
        }
        let row_bytes = self.stride * self.bpp * 16;
        let total = self.stride * self.bpp * self.height;
        let rest = sub_vec(fb, row_bytes, total - row_bytes);
        let ghost f0 = fb@;
        copy_at(fb, 0, rest.as_slice());
        let mut z: Vec<u8> = Vec::new();
        crate::wire::append_zeros(&mut z, row_bytes);
        copy_at(fb, total - row_bytes, z.as_slice());
        assert(fb@ =~= f0.subrange(row_bytes as int, total as int) + zeros(row_bytes as int) + f0.subrange(
            total as int,
            f0.len() as int,
        ));
    }

    /// Draw the glyph of `c` in text cell (`col`, `row`).
    pub fn draw_glyph(&self, fb: &mut [u8], c: u8, col: usize, row: usize)
        requires
            self.wf(),
            col < self.width / 8,
            row < self.height / 16,
            old(fb)@.len() >= self.frame_len(),
        ensures
            final(fb)@.len() == old(fb)@.len(),
            cell_drawn(final(fb)@, self.stride, self.bpp, (col * 8) as int, (row * 16) as int, FONT[glyph_index(c)]),
            final(fb)@ == draw_cell(
                old(fb)@,
                self.stride,
                self.bpp,
                (col * 8) as int,
                (row * 16) as int,
                FONT[glyph_index(c)],
            ),
    {
        let glyph = get_glyph(c);
        let px = col * GLYPH_W;
        let py = row * GLYPH_H;
        let stride = self.stride;
        let bpp = self.bpp;
        proof {
            assert(px + 8 <= self.width) by (nonlinear_arith)
                requires
                    col < self.width / 8,
                    px == col * 8,
            ;
            assert(py + 16 <= self.height) by (nonlinear_arith)
                requires
                    row < self.height / 16,
                    py == row * 16,
            ;
        }
        let ghost lim = |on: bool| pixel_bytes(bpp, on);
        let ghost fb0 = fb@;
        assert(fb@ =~= drawn_upto(fb0, stride, bpp, px as int, py as int, glyph, 0, 0));
        let mut gy: usize = 0;
        while gy < GLYPH_H
            invariant
                gy <= 16,
                self.wf(),
                stride == self.stride,
                bpp == self.bpp,
                px + 8 <= self.width,
                py + 16 <= self.height,
                glyph == FONT[glyph_index(c)],
                fb@.len() == old(fb)@.len(),
                fb@.len() >= self.frame_len(),
                fb0 == old(fb)@,
                fb@ == drawn_upto(fb0, stride, bpp, px as int, py as int, glyph, 0, gy as int),
                forall|gx: int, yy: int, i: int|
                    0 <= gx < 8 && 0 <= yy < gy && 0 <= i < pixel_bytes(bpp, glyph_bit(glyph, gx, yy)) ==> #[trigger] cell_byte(
                        fb@,
                        stride,
                        bpp,
                        px as int,
                        py as int,
                        gx,
                        yy,
                        i,
                    ) == if glyph_bit(glyph, gx, yy) {
                        0xFFu8
                    } else {
                        0u8
                    },
            decreases 16 - gy,
        {
            let row_bits = glyph[gy];
            let mut gx: usize = 0;
            while gx < GLYPH_W
                invariant
                    gx <= 8,
                    gy < 16,
                    self.wf(),
                    stride == self.stride,
                    bpp == self.bpp,
                    px + 8 <= self.width,
                    py + 16 <= self.height,
                    glyph == FONT[glyph_index(c)],
                    row_bits == glyph[gy as int],
                    fb@.len() == old(fb)@.len(),
                    fb@.len() >= self.frame_len(),
                    fb0 == old(fb)@,
                    fb@ == drawn_upto(fb0, stride, bpp, px as int, py as int, glyph, gx as int, gy as int),
                    forall|xx: int, yy: int, i: int|
                        0 <= xx < 8 && 0 <= yy < 16 && (yy < gy || (yy == gy && xx < gx)) && 0 <= i < pixel_bytes(
                            bpp,
                            glyph_bit(glyph, xx, yy),
                        ) ==> #[trigger] cell_byte(fb@, stride, bpp, px as int, py as int, xx, yy, i) == if glyph_bit(
                            glyph,
                            xx,
                            yy,
                        ) {
                            0xFFu8
                        } else {
                            0u8
                        },
                decreases 8 - gx,
            {
                let on = (row_bits >> ((7 - gx) as u8)) & 1 != 0;
                proof {
                    assert(on == glyph_bit(glyph, gx as int, gy as int));
                    lemma_offset_in_frame(
                        stride as int,
                        bpp as int,
                        self.height as int,
                        (px + gx) as int,
                        (py + gy) as int,
                    );
                }
                let off = ((py + gy) * stride + (px + gx)) * bpp;
                let n: usize = if on {
                    if bpp < 3 {
                        bpp
                    } else {
                        3
                    }
                } else {
                    if bpp < 4 {
                        bpp
                    } else {
                        4
                    }
                };
                let val: u8 = if on {
                    0xFF
                } else {
                    0
                };
                let ghost before = fb@;
                let mut i: usize = 0;
                while i < n
                    invariant
                        i <= n,
                        n == pixel_bytes(bpp, on),
                        n <= bpp,
                        off == pixel_offset(stride, bpp, (px + gx) as int, (py + gy) as int),
                        off + bpp <= fb@.len(),
                        fb@.len() == before.len(),
                        forall|k: int| off <= k < off + i ==> #[trigger] fb@[k] == val,
                        forall|k: int| 0 <= k < fb@.len() && !(off <= k < off + i) ==> fb@[k] == before[k],
                    decreases n - i,
                {
                    fb[off + i] = val;
                    i = i + 1;
                }
                proof {
                    assert forall|xx: int, yy: int, k: int|
                        0 <= xx < 8 && 0 <= yy < 16 && (yy < gy || (yy == gy && xx < gx + 1)) && 0 <= k
                            < pixel_bytes(bpp, glyph_bit(glyph, xx, yy)) implies #[trigger] cell_byte(
                        fb@,
                        stride,
                        bpp,
                        px as int,
                        py as int,
                        xx,
                        yy,
                        k,
                    ) == if glyph_bit(glyph, xx, yy) {
                        0xFFu8
                    } else {
                        0u8
                    } by {
                        lemma_offset_in_frame(stride as int, bpp as int, self.height as int, px + xx, py + yy);
                        if yy == gy && xx == gx {
                            assert(pixel_offset(stride, bpp, px + xx, py + yy) == off);
                            assert(fb@[off + k] == val);
                        } else {
                            let q = pixel_offset(stride, bpp, px + xx, py + yy) + k;
                            assert(cell_byte(before, stride, bpp, px as int, py as int, xx, yy, k) == if glyph_bit(
                                glyph,
                                xx,
                                yy,
                            ) {
                                0xFFu8
                            } else {
                                0u8
                            });
                            if off <= q < off + n {
                                lemma_pixels_disjoint(
                                    stride,
                                    bpp,
                                    px + xx,
                                    py + yy,
                                    k,
                                    (px + gx) as int,
                                    (py + gy) as int,
                                    q - off,
                                );
                            }
                            assert(fb@[q] == before[q]);
                        }
                    }
                }
                proof {
                    assert forall|j: int| 0 <= j < fb@.len() implies fb@[j] == drawn_upto(
                        fb0,
                        stride,
                        bpp,
                        px as int,
                        py as int,
                        glyph,
                        gx + 1,
                        gy as int,
                    )[j] by {
                        assert(before == drawn_upto(fb0, stride, bpp, px as int, py as int, glyph, gx as int, gy as int));
                        if off <= j < off + n {
                            lemma_pixel_of(stride, bpp, (px + gx) as int, (py + gy) as int, j - off);
                            assert(pixel_of(stride, bpp, j) == ((px + gx) as int, (py + gy) as int, j - off));
                            assert(fb@[j] == val);
                            assert(in_cell(stride, bpp, px as int, py as int, glyph, j));
                            assert(cell_value(stride, bpp, px as int, py as int, glyph, j) == val);
                        } else {
                            lemma_pixel_of_inverse(stride, bpp, j);
                            assert(fb@[j] == before[j]);
                            let (x, y, k) = pixel_of(stride, bpp, j);
                            if in_cell(stride, bpp, px as int, py as int, glyph, j) && y - py == gy && x - px == gx {
                                assert(j == off + k);
                                assert(false);
                            }
                        }
                    }
                    assert(fb@ =~= drawn_upto(fb0, stride, bpp, px as int, py as int, glyph, gx + 1, gy as int));
                }
                gx = gx + 1;
            }
            assert(fb@ =~= drawn_upto(fb0, stride, bpp, px as int, py as int, glyph, 0, gy + 1));
            gy = gy + 1;
        }
        assert(fb@ =~= draw_cell(fb0, stride, bpp, px as int, py as int, glyph));
    }

    /// The frame after scrolling up one text row.
    pub open spec fn scrolled(&self, fb: Seq<u8>) -> Seq<u8> {
        let row_bytes = self.stride * self.bpp * 16;
        let total = self.frame_len();
        fb.subrange(row_bytes, total) + zeros(row_bytes) + fb.subrange(total, fb.len() as int)
    }

    /// The frame after writing byte `c` at the cursor: scrolled first when
    /// the cursor moves below the last row, then the glyph drawn where
    /// `cursor_step` says; every other byte as it was.
    pub open spec fn frame_after_char(&self, fb: Seq<u8>, c: u8) -> Seq<u8> {
        let st = cursor_step(self.width / 8, self.height / 16, self.col, self.row, c);
        let f1 = if st.scroll {
            self.scrolled(fb)
        } else {
            fb
        };
        match st.draw {
            Some((dc, dr)) => draw_cell(f1, self.stride, self.bpp, (dc * 8) as int, (dr * 16) as int, FONT[glyph_index(c)]),
            None => f1,
        }
    }

    /// The writer after byte `c`: the cursor moved as `cursor_step` says.
    pub open spec fn after_char(self, c: u8) -> FramebufferWriter {
        let st = cursor_step(self.width / 8, self.height / 16, self.col, self.row, c);
        FramebufferWriter { col: st.col, row: st.row, ..self }
    }

    /// Write a single character at the cursor: newline and carriage return
    /// move the cursor, any other byte is drawn (unknown bytes as '?'),
    /// wrapping and scrolling as `cursor_step` says.
    pub fn put_char(&mut self, fb: &mut [u8], c: u8)
        requires
            old(self).wf(),
            old(fb)@.len() >= old(self).frame_len(),
        ensures
            final(self).wf(),
            final(self).width == old(self).width,
            final(self).height == old(self).height,
            final(self).stride == old(self).stride,
            final(self).bpp == old(self).bpp,
            final(fb)@.len() == old(fb)@.len(),
            *final(self) == old(self).after_char(c),
            final(fb)@ == old(self).frame_after_char(old(fb)@, c),
            ({
                let st = cursor_step(old(self).width / 8, old(self).height / 16, old(self).col, old(self).row, c);
                &&& final(self).col == st.col
                &&& final(self).row == st.row
                &&& match st.draw {
                    Some((dc, dr)) => cell_drawn(
                        final(fb)@,
                        old(self).stride,
                        old(self).bpp,
                        (dc * 8) as int,
                        (dr * 16) as int,
                        FONT[glyph_index(c)],
                    ),
                    None => final(fb)@ == if st.scroll {
                        old(self).scrolled(old(fb)@)
                    } else {
                        old(fb)@
                    },
                }
            }),
    {
        let cols = self.cols();
        let rows = self.rows();
        if c == 0x0A {
            self.col = 0;
            if self.row + 1 >= rows {
                self.scroll(fb);
                self.row = rows - 1;
            } else {
                self.row = self.row + 1;
            }
            return;
        }
        if c == 0x0D {
            self.col = 0;
            return;
        }
        if self.col >= cols {
            self.col = 0;
            if self.row + 1 >= rows {
                self.scroll(fb);
                self.row = rows - 1;
            } else {
                self.row = self.row + 1;
            }
        }
        proof {
            assert(self.width / 8 >= 1 && self.height / 16 >= 1) by (nonlinear_arith)
                requires
                    self.width >= 8,
                    self.height >= 16,
            ;
        }
        self.draw_glyph(fb, c, self.col, self.row);
        self.col = self.col + 1;
    }

    /// Write a string, byte by byte.
    pub fn write_str(&mut self, fb: &mut [u8], s: &str)
        requires
            old(self).wf(),
            old(fb)@.len() >= old(self).frame_len(),
        ensures
            final(self).wf(),
            final(self).width == old(self).width,
            final(self).height == old(self).height,
            final(self).stride == old(self).stride,
            final(self).bpp == old(self).bpp,
            final(fb)@.len() == old(fb)@.len(),
            (final(self).col, final(self).row) == cursor_after(
                old(self).width / 8,
                old(self).height / 16,
                old(self).col,
                old(self).row,
                s.spec_bytes(),
            ),
            *final(self) == text_after(*old(self), old(fb)@, s.spec_bytes()).0,
            final(fb)@ == text_after(*old(self), old(fb)@, s.spec_bytes()).1,
    {
        let bytes = s.as_bytes();
        let mut i: usize = 0;
        while i < bytes.len()
            invariant
                i <= bytes@.len(),
                bytes@ == s.spec_bytes(),
                self.wf(),
                self.width == old(self).width,
                self.height == old(self).height,
                self.stride == old(self).stride,
                self.bpp == old(self).bpp,
                fb@.len() == old(fb)@.len(),
                fb@.len() >= self.frame_len(),
                (self.col, self.row) == cursor_after(
                    old(self).width / 8,
                    old(self).height / 16,
                    old(self).col,
                    old(self).row,
                    bytes@.subrange(0, i as int),
                ),
                (*self, fb@) == text_after(*old(self), old(fb)@, bytes@.subrange(0, i as int)),
            decreases bytes@.len() - i,
        {
            proof {
                assert(bytes@.subrange(0, i + 1).drop_last() =~= bytes@.subrange(0, i as int));
            }
            self.put_char(fb, bytes[i]);
            i = i + 1;
        }
        assert(bytes@.subrange(0, bytes@.len() as int) =~= bytes@);
    }


}

} // verus!
