use tailor_resume::tarball::{create_tarball, octal_field};

fn octal_value(field: &[u8]) -> u64 {
    field.iter().fold(0u64, |acc, &b| acc * 8 + (b - b'0') as u64)
}

#[test]
fn octal_fields_are_zero_padded() {
    assert_eq!(octal_field(5, 11), b"00000000005".to_vec());
    assert_eq!(octal_field(8, 3), b"010".to_vec());
    assert_eq!(octal_field(0o777, 3), b"777".to_vec());
    assert_eq!(octal_field(7, 0), Vec::<u8>::new());
}

#[test]
fn archive_layout_for_small_file() {
    let content = b"hello";
    let tar = create_tarball("resume.tex", content);
    assert_eq!(tar.len(), 512 + 512 + 1024);
    assert_eq!(tar.len() % 512, 0);
    assert_eq!(&tar[0..10], b"resume.tex");
    assert!(tar[10..100].iter().all(|&b| b == 0));
    assert_eq!(&tar[100..108], b"0000644\0");
    assert_eq!(&tar[124..136], b"00000000005\0");
    assert_eq!(&tar[136..148], b"00000000000\0");
    assert_eq!(tar[156], b'0');
    assert_eq!(&tar[257..265], b"ustar\x0000");
    assert_eq!(&tar[265..270], b"root\0");
    assert_eq!(&tar[297..302], b"root\0");
    assert_eq!(&tar[512..517], content);
    assert!(tar[517..].iter().all(|&b| b == 0));
}

#[test]
fn checksum_matches_header() {
    let tar = create_tarball("resume.tex", b"\\documentclass{article}");
    let mut header = tar[0..512].to_vec();
    let stored = octal_value(&header[148..154]);
    assert_eq!(header[154], 0);
    assert_eq!(header[155], b' ');
    for b in &mut header[148..156] {
        *b = b' ';
    }
    let sum: u64 = header.iter().map(|&b| b as u64).sum();
    assert_eq!(stored, sum);
}

#[test]
fn block_aligned_content_gets_no_padding() {
    let content = vec![7u8; 1024];
    let tar = create_tarball("a", &content);
    assert_eq!(tar.len(), 512 + 1024 + 1024);
    assert_eq!(octal_value(&tar[124..135]), 1024);
}

#[test]
fn long_names_are_cut_to_one_hundred_bytes() {
    let name = "n".repeat(150);
    let tar = create_tarball(&name, b"");
    assert!(tar[0..100].iter().all(|&b| b == b'n'));
    assert_eq!(&tar[100..108], b"0000644\0");
    assert_eq!(tar.len(), 512 + 1024);
}
