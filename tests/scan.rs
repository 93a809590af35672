use libsekiro::aob::{find_aobs, resolve, Aob, AddressingMode};
use libsekiro::pattern::{into_needle, naive_search, parse_token};

#[test]
fn needle_from_text() {
    assert_eq!(
        into_needle("48 8B 05 ?? ?? ? C3"),
        Some(vec![Some(0x48), Some(0x8B), Some(0x05), None, None, None, Some(0xC3)])
    );
}

#[test]
fn needle_tokens_split_on_any_whitespace() {
    assert_eq!(into_needle("48  8b\t??\n 0F "), Some(vec![Some(0x48), Some(0x8B), None, Some(0x0F)]));
}

#[test]
fn malformed_patterns_do_not_compile() {
    assert_eq!(into_needle("zz 0f"), None);
    assert_eq!(into_needle("1FF"), None);
    assert_eq!(into_needle("a b"), None);
    assert_eq!(into_needle("???"), None);
    assert_eq!(into_needle(""), None);
    assert_eq!(into_needle("   "), None);
}

#[test]
fn token_forms() {
    assert_eq!(parse_token(&['f', 'F']), Some(Some(0xFF)));
    assert_eq!(parse_token(&['0', '7']), Some(Some(7)));
    assert_eq!(parse_token(&['?']), Some(None));
    assert_eq!(parse_token(&['?', '?']), Some(None));
    assert_eq!(parse_token(&['+', '7']), None);
    assert_eq!(parse_token(&['7']), None);
    assert_eq!(parse_token(&['0', '0', '1']), None);
}

#[test]
fn malformed_alternative_matches_nothing() {
    let image = [0u8, 1, 2];
    let aob = Aob::new("X", &["GG", "01"], 0, 0, false);
    assert_eq!(aob.patterns[0], None);
    assert_eq!(aob.find(&image), Some(("X".to_string(), 1)));
    let bad = Aob::new("Y", &["0 1"], 0, 0, false);
    assert_eq!(bad.find(&image), None);
}

#[test]
fn search_finds_first_occurrence() {
    let buf = [1u8, 2, 3, 1, 2, 3];
    assert_eq!(naive_search(&buf, &[Some(2), Some(3)]), Some(1));
    assert_eq!(naive_search(&buf, &[Some(3), None, Some(2)]), Some(2));
    assert_eq!(naive_search(&buf, &[Some(3), Some(3)]), None);
    assert_eq!(naive_search(&buf, &[Some(3), Some(1), Some(2), Some(3), Some(4)]), None);
}

#[test]
fn wildcards_match_at_start() {
    let buf = [9u8, 8, 7];
    assert_eq!(naive_search(&buf, &[None]), Some(0));
    assert_eq!(naive_search(&buf, &[None, None, None]), Some(0));
    assert_eq!(naive_search(&buf, &[None, None, None, None]), None);
    assert_eq!(naive_search(&buf, &[]), Some(0));
    assert_eq!(naive_search(&[], &[None]), None);
    assert_eq!(naive_search(&[], &[]), Some(0));
}

#[test]
fn exact_pattern_is_first_substring() {
    let buf = b"abcabcabd";
    let pat: Vec<Option<u8>> = b"abd".iter().map(|b| Some(*b)).collect();
    assert_eq!(naive_search(buf, &pat), Some(6));
    let pat: Vec<Option<u8>> = b"bca".iter().map(|b| Some(*b)).collect();
    assert_eq!(naive_search(buf, &pat), Some(1));
    let pat: Vec<Option<u8>> = b"cc".iter().map(|b| Some(*b)).collect();
    assert_eq!(naive_search(buf, &pat), None);
}

#[test]
fn direct_resolution_adds_offset() {
    let buf = [0u8; 8];
    assert_eq!(resolve(&buf, 10, 3, AddressingMode::Direct), Some(13));
    assert_eq!(resolve(&buf, usize::MAX, 1, AddressingMode::Direct), None);
}

#[test]
fn indirect_resolution_of_planted_displacement() {
    let mut buf = vec![0u8; 64];
    let m = 16usize;
    let off = 3usize;
    for d in [0x1234i32, -5, 0, -16] {
        buf[m + off..m + off + 4].copy_from_slice(&d.to_le_bytes());
        let r = resolve(&buf, m, off, AddressingMode::Indirect { deref_offset: 7 });
        assert_eq!(r, Some((m as i64 + 7 + d as i64) as usize));
    }
    buf[m + off..m + off + 4].copy_from_slice(&(-100i32).to_le_bytes());
    assert_eq!(resolve(&buf, m, off, AddressingMode::Indirect { deref_offset: 7 }), None);
}

#[test]
fn indirect_twice_adds_field_offset() {
    let mut buf = vec![0u8; 32];
    buf[4..8].copy_from_slice(&0x100i32.to_le_bytes());
    let mode = AddressingMode::IndirectTwice { deref_offset: 8, field_offset: 0x20 };
    assert_eq!(resolve(&buf, 2, 2, mode), Some(2 + 8 + 0x100 + 0x20));
}

#[test]
fn displacement_out_of_buffer_is_a_miss() {
    let buf = [0u8; 6];
    assert_eq!(resolve(&buf, 2, 3, AddressingMode::Indirect { deref_offset: 7 }), None);
}

#[test]
fn aob_tries_alternatives_in_order() {
    let mut image = vec![0u8; 48];
    image[20..23].copy_from_slice(&[0x80, 0x3D, 0x11]);
    image[23..27].copy_from_slice(&0x40i32.to_le_bytes());
    let aob = Aob::new("RenderWorld", &["AA BB", "80 3D ?? ?? ?? ?? ??"], 2, 7, true);
    assert_eq!(aob.name, "RenderWorld");
    assert_eq!(aob.find(&image), Some(("RenderWorld".to_string(), 20 + 7 + 0x11 + (0x40 << 8))));
    let direct = Aob::new("NoLogo", &["3D 11"], 1, 0, false);
    assert_eq!(direct.find(&image), Some(("NoLogo".to_string(), 22)));
    let absent = Aob::new("Absent", &["3D 12"], 1, 0, false);
    assert_eq!(absent.find(&image), None);
}

#[test]
fn scan_report_lists_found_and_missing() {
    let image = vec![1u8, 2, 3, 4, 5, 6];
    let aobs = vec![
        Aob::new("First", &["03 04"], 1, 0, false),
        Aob::new("Absent", &["07"], 0, 0, false),
        Aob::new("Last", &["?? 06"], 0, 0, false),
    ];
    let report = find_aobs(&aobs, &image);
    assert_eq!(report.found, vec![("First".to_string(), 3), ("Last".to_string(), 4)]);
    assert_eq!(report.missing, vec!["Absent".to_string()]);
}

#[test]
fn aob_with_field_offset() {
    let mut image = vec![0u8; 32];
    image[4..7].copy_from_slice(&[0x48, 0x8B, 0x05]);
    image[7..11].copy_from_slice(&0x10i32.to_le_bytes());
    let mode = AddressingMode::IndirectTwice { deref_offset: 7, field_offset: 0x23C };
    let aob = Aob::with_mode("Quitout", &["48 8B 05"], 3, mode);
    assert_eq!(aob.mode, mode);
    assert_eq!(aob.find(&image), Some(("Quitout".to_string(), 4 + 7 + 0x10 + 0x23C)));
}

#[test]
fn first_matching_alternative_decides() {
    let mut image = vec![0u8; 16];
    image[0..2].copy_from_slice(&[0x80, 0x3D]);
    image[2..6].copy_from_slice(&0x20i32.to_le_bytes());
    image[13..16].copy_from_slice(&[0xC3, 0x80, 0x3D]);
    let aob = Aob::new("Late", &["C3 80 3D", "80 3D"], 2, 6, true);
    assert_eq!(aob.find(&image), None);
    let aob = Aob::new("Early", &["80 3D", "C3 80 3D"], 2, 6, true);
    assert_eq!(aob.find(&image), Some(("Early".to_string(), 6 + 0x20)));
}
