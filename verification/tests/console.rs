use embclox::framebuffer::{get_glyph, FramebufferWriter, FONT};
use embclox::tulip_eeprom::{device_mac, eeprom_read, random_mac, read_mac, srom_word, SromStep};

const W: usize = 16;
const H: usize = 32;
const BPP: usize = 4;

fn frame() -> Vec<u8> {
    vec![0x55u8; W * H * BPP]
}

/// The glyph of `c` is drawn white on black in cell (col, row).
fn assert_cell(fb: &[u8], c: u8, col: usize, row: usize) {
    let g = get_glyph(c);
    for gy in 0..16 {
        for gx in 0..8 {
            let off = ((row * 16 + gy) * W + col * 8 + gx) * BPP;
            if (g[gy] >> (7 - gx)) & 1 != 0 {
                assert_eq!(&fb[off..off + 3], &[0xFF, 0xFF, 0xFF], "pixel {gx},{gy}");
            } else {
                assert_eq!(&fb[off..off + 4], &[0, 0, 0, 0], "pixel {gx},{gy}");
            }
        }
    }
}

#[test]
fn glyph_lookup() {
    assert_eq!(get_glyph(b' '), FONT[0]);
    assert_eq!(get_glyph(b'A'), FONT[0x21]);
    assert_eq!(get_glyph(b'~'), FONT[94]);
    // Bytes without a glyph show as '?'.
    assert_eq!(get_glyph(0x07), get_glyph(b'?'));
    assert_eq!(get_glyph(0xC3), get_glyph(b'?'));
    assert_ne!(get_glyph(b'A'), get_glyph(b'B'));
}

#[test]
fn writer_geometry() {
    let w = FramebufferWriter::new(W, H, W, BPP);
    assert_eq!((w.cols(), w.rows()), (2, 2));
    assert_eq!((w.col, w.row), (0, 0));
    let w = FramebufferWriter::new(1024, 768, 1024, 4);
    assert_eq!((w.cols(), w.rows()), (128, 48));
}

#[test]
fn put_char_draws_and_advances() {
    let mut w = FramebufferWriter::new(W, H, W, BPP);
    let mut fb = frame();
    w.put_char(&mut fb, b'A');
    assert_eq!((w.col, w.row), (1, 0));
    assert_cell(&fb, b'A', 0, 0);
    // The other cells are untouched.
    assert_eq!(fb[(0 * W + 8) * BPP], 0x55);
    assert_eq!(fb[(16 * W) * BPP], 0x55);
    w.put_char(&mut fb, b'B');
    assert_cell(&fb, b'B', 1, 0);
    assert_eq!((w.col, w.row), (2, 0));
    // Past the right edge the next glyph wraps to the next row.
    w.put_char(&mut fb, b'C');
    assert_cell(&fb, b'C', 0, 1);
    assert_eq!((w.col, w.row), (1, 1));
}

#[test]
fn control_characters_move_the_cursor() {
    let mut w = FramebufferWriter::new(W, H, W, BPP);
    let mut fb = frame();
    w.put_char(&mut fb, b'x');
    w.put_char(&mut fb, b'\r');
    assert_eq!((w.col, w.row), (0, 0));
    w.put_char(&mut fb, b'\n');
    assert_eq!((w.col, w.row), (0, 1));
    let before = fb.clone();
    w.put_char(&mut fb, b'\r');
    assert_eq!(fb, before);
}

#[test]
fn newline_on_last_row_scrolls() {
    let mut w = FramebufferWriter::new(W, H, W, BPP);
    let mut fb = frame();
    w.write_str(&mut fb, "ab\ncd");
    assert_eq!((w.col, w.row), (2, 1));
    let row_bytes = W * BPP * 16;
    let second_row = fb[row_bytes..].to_vec();
    w.put_char(&mut fb, b'\n');
    assert_eq!((w.col, w.row), (0, 1));
    assert_eq!(&fb[..row_bytes], second_row.as_slice());
    assert!(fb[row_bytes..].iter().all(|b| *b == 0));
}

#[test]
fn scroll_moves_rows_up() {
    let w = FramebufferWriter::new(W, H, W, BPP);
    let row_bytes = W * BPP * 16;
    let mut fb: Vec<u8> = (0..W * H * BPP + 3).map(|i| (i % 251) as u8).collect();
    let before = fb.clone();
    w.scroll(&mut fb);
    assert_eq!(&fb[..row_bytes], &before[row_bytes..2 * row_bytes]);
    assert!(fb[row_bytes..2 * row_bytes].iter().all(|b| *b == 0));
    assert_eq!(&fb[2 * row_bytes..], &before[2 * row_bytes..]);
}

#[test]
fn write_str_wraps_long_lines() {
    let mut w = FramebufferWriter::new(W, H, W, BPP);
    let mut fb = frame();
    w.write_str(&mut fb, "hello");
    // Two columns, two rows: "he" / "ll" then "o" scrolls to the last row.
    assert_eq!((w.col, w.row), (1, 1));
    assert_cell(&fb, b'l', 0, 0);
    assert_cell(&fb, b'l', 1, 0);
    assert_cell(&fb, b'o', 0, 1);
    w.draw_glyph(&mut fb, b'Z', 1, 1);
    assert_cell(&fb, b'Z', 1, 1);
}

#[test]
fn srom_read_transaction() {
    let p = eeprom_read(0);
    // Select, nine command bits of three writes, sixteen data bits of four steps, deselect.
    assert_eq!(p.len(), 1 + 27 + 64 + 1);
    assert_eq!(p[0], SromStep::Write(0x800));
    // Word 0: the nine command bits are 0b000000110, sent from bit 8 down.
    assert_eq!(p[1], SromStep::Write(0x800 | 0x4000));
    assert_eq!(p[2], SromStep::Write(0x800 | 0x4000 | 0x1));
    assert_eq!(p[3], SromStep::Write(0x800 | 0x4000));
    assert_eq!(p[19], SromStep::Write(0x800 | 0x4000 | 0x4));
    assert_eq!(p[22], SromStep::Write(0x800 | 0x4000 | 0x4));
    assert_eq!(p[25], SromStep::Write(0x800 | 0x4000));
    assert_eq!(p[28], SromStep::Write(0x800 | 0x4000));
    assert_eq!(p[30], SromStep::Sample);
    assert_eq!(p[92], SromStep::Write(0));
    assert_eq!(p.iter().filter(|s| **s == SromStep::Sample).count(), 16);
    // Word 0x3F: the address sits above the opcode bits.
    let q = eeprom_read(0x3F);
    assert_eq!(q[1], SromStep::Write(0x800 | 0x4000 | 0x4));
    assert_eq!(q[10], SromStep::Write(0x800 | 0x4000 | 0x4));
    assert_eq!(q[25], SromStep::Write(0x800 | 0x4000));
}

#[test]
fn srom_word_assembly() {
    let mut samples = vec![0u32; 16];
    samples[0] = 0x8;
    samples[15] = 0x8 | 0x1;
    assert_eq!(srom_word(&samples), 0x8001);
    assert_eq!(srom_word(&[0x8; 16]), 0xFFFF);
    assert_eq!(srom_word(&[]), 0);
}

#[test]
fn srom_mac_words() {
    assert_eq!(read_mac(0x0200, 0x0403, 0x0605), Some([0x00, 0x02, 0x03, 0x04, 0x05, 0x06]));
    assert_eq!(read_mac(0, 0, 0), None);
    assert_eq!(read_mac(0xFFFF, 0xFFFF, 0xFFFF), None);
    assert_eq!(read_mac(0xFFFF, 0xFFFF, 0xFFFE), Some([0xFF, 0xFF, 0xFF, 0xFF, 0xFE, 0xFF]));
}

#[test]
fn random_mac_is_local_unicast() {
    assert_eq!(random_mac(0), [0x4E, 0x81, 0x67, 0xF7, 0x7E, 0x7B]);
    assert_eq!(random_mac(1)[0], 0x7E);
    for seed in [0usize, 1, 2, 0xDEAD_BEEF, usize::MAX] {
        assert_eq!(random_mac(seed)[0] & 0x03, 0x02);
    }
}

#[test]
fn device_mac_falls_back_to_random() {
    assert_eq!(device_mac(0x0200, 0x0403, 0x0605), [0x00, 0x02, 0x03, 0x04, 0x05, 0x06]);
    assert_eq!(device_mac(0, 0, 0), random_mac(0xDEC2_1140));
    assert_eq!(device_mac(0xFFFF, 0xFFFF, 0xFFFF), random_mac(0xDEC2_1140));
    assert_eq!(device_mac(0, 0, 0)[0] & 0x03, 0x02);
}
