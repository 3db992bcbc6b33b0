use bitmirror::engine::BitReversalEngine;

#[test]
fn mirror_byte_known_values() {
    let e = BitReversalEngine::new();
    assert_eq!(e.mirror_byte(0x00), 0x00);
    assert_eq!(e.mirror_byte(0x01), 0x80);
    assert_eq!(e.mirror_byte(0x80), 0x01);
    assert_eq!(e.mirror_byte(0xFF), 0xFF);
    assert_eq!(e.mirror_byte(0x02), 0x40);
    assert_eq!(e.mirror_byte(0x0F), 0xF0);
    assert_eq!(e.mirror_byte(0xA5), 0xA5);
    assert_eq!(e.mirror_byte(0x12), 0x48);
}

#[test]
fn mirror_byte_reverses_each_bit() {
    let e = BitReversalEngine::new();
    for v in 0..=255u8 {
        let m = e.mirror_byte(v);
        for i in 0..8u32 {
            assert_eq!((m >> i) & 1, (v >> (7 - i)) & 1);
        }
    }
}

#[test]
fn mirror_byte_involution() {
    let e = BitReversalEngine::new();
    for v in 0..=255u8 {
        assert_eq!(e.mirror_byte(e.mirror_byte(v)), v);
    }
}

#[test]
fn mirror_word_keeps_byte_positions() {
    let e = BitReversalEngine::new();
    assert_eq!(e.mirror_word(0x0102), 0x8040);
    assert_eq!(e.mirror_word(0x00FF), 0x00FF);
    assert_eq!(e.mirror_word(0xFF00), 0xFF00);
    assert_eq!(e.mirror_word(0x0001), 0x0080);
    assert_eq!(e.mirror_word(0x0100), 0x8000);
}

#[test]
fn mirror_word_involution() {
    let e = BitReversalEngine::new();
    for v in [0x0000u16, 0x0001, 0x0102, 0x1234, 0x8000, 0xFFFF, 0xA5C3] {
        assert_eq!(e.mirror_word(e.mirror_word(v)), v);
    }
}

#[test]
fn mirror_dword_known_values() {
    let e = BitReversalEngine::new();
    assert_eq!(e.mirror_dword(0x00000000), 0x00000000);
    assert_eq!(e.mirror_dword(0x00000001), 0x00000080);
    assert_eq!(e.mirror_dword(0xFFFFFFFF), 0xFFFFFFFF);
    // 0x12 -> 0x48, 0x34 -> 0x2C, 0x56 -> 0x6A, 0x78 -> 0x1E, each in place
    assert_eq!(e.mirror_dword(0x12345678), 0x482C6A1E);
}

#[test]
fn mirror_dword_involution() {
    let e = BitReversalEngine::new();
    for v in [0x00000000u32, 0x00000001, 0x12345678, 0x80000000, 0xFFFFFFFF, 0xDEADBEEF] {
        assert_eq!(e.mirror_dword(e.mirror_dword(v)), v);
    }
}

#[test]
fn mirror_qword_known_values() {
    let e = BitReversalEngine::new();
    assert_eq!(e.mirror_qword(0x0000000000000000), 0x0000000000000000);
    assert_eq!(e.mirror_qword(0x0000000000000001), 0x0000000000000080);
    assert_eq!(e.mirror_qword(0xFFFFFFFFFFFFFFFF), 0xFFFFFFFFFFFFFFFF);
    assert_eq!(e.mirror_qword(0x0102030405060708), 0x8040C020A060E010);
}

#[test]
fn mirror_qword_involution() {
    let e = BitReversalEngine::new();
    for v in [
        0x0000000000000000u64,
        0x0000000000000001,
        0x0102030405060708,
        0x8000000000000000,
        0xFFFFFFFFFFFFFFFF,
        0xDEADBEEFCAFEF00D,
    ] {
        assert_eq!(e.mirror_qword(e.mirror_qword(v)), v);
    }
}

#[test]
fn mirror_bytes_empty() {
    let e = BitReversalEngine::new();
    let out = e.mirror_bytes(&[]);
    assert_eq!(out, Vec::<u8>::new());
}

#[test]
fn mirror_bytes_preserves_length() {
    let e = BitReversalEngine::new();
    for n in [0usize, 1, 2, 7, 256, 1000] {
        let buf = vec![0x5Au8; n];
        assert_eq!(e.mirror_bytes(&buf).len(), n);
    }
}

#[test]
fn mirror_bytes_elementwise() {
    let e = BitReversalEngine::new();
    let buf: Vec<u8> = (0..=255u8).collect();
    let out = e.mirror_bytes(&buf);
    assert_eq!(out.len(), buf.len());
    for (i, &b) in buf.iter().enumerate() {
        assert_eq!(out[i], e.mirror_byte(b));
    }
}

#[test]
fn mirror_bytes_known_values() {
    let e = BitReversalEngine::new();
    let out = e.mirror_bytes(&[0x00, 0x01, 0x80, 0xFF, 0x0F]);
    assert_eq!(out, vec![0x00, 0x80, 0x01, 0xFF, 0xF0]);
}

#[test]
fn mirror_bytes_involution() {
    let e = BitReversalEngine::new();
    let buf: Vec<u8> = (0..=255u8).cycle().take(600).collect();
    let once = e.mirror_bytes(&buf);
    let twice = e.mirror_bytes(&once);
    assert_eq!(twice, buf);
}

#[test]
fn mirror_bytes_leaves_input_unchanged() {
    let e = BitReversalEngine::new();
    let buf = vec![0x01u8, 0x02, 0x03];
    let copy = buf.clone();
    let _ = e.mirror_bytes(&buf);
    assert_eq!(buf, copy);
}
