use image_camera::sink::fill_region;

#[test]
fn undersized_region_gets_truncated_prefix_without_error() {
    // a 640x480 BGRA frame is 1,228,800 bytes; the region holds 500,000
    let src: Vec<u8> = (0..1_228_800u32).map(|i| (i % 251) as u8).collect();
    let mut dest = vec![0xAAu8; 500_000];
    let copied = fill_region(&mut dest, &src);
    assert_eq!(copied, 500_000);
    assert_eq!(&dest[..], &src[..500_000]);
}

#[test]
fn oversized_region_keeps_its_tail() {
    let src = vec![7u8; 16];
    let mut dest = vec![1u8; 20];
    let copied = fill_region(&mut dest, &src);
    assert_eq!(copied, 16);
    assert_eq!(&dest[..16], &src[..]);
    assert_eq!(&dest[16..], &[1u8, 1, 1, 1]);
}

#[test]
fn exact_fit_copies_whole_frame() {
    let src: Vec<u8> = (0u32..1024).map(|i| (i % 256) as u8).collect();
    let mut dest = vec![0u8; 1024];
    let copied = fill_region(&mut dest, &src);
    assert_eq!(copied, 1024);
    assert_eq!(dest, src);
}

#[test]
fn empty_region_copies_nothing() {
    let src = vec![5u8; 8];
    let mut dest: Vec<u8> = Vec::new();
    assert_eq!(fill_region(&mut dest, &src), 0);
    assert!(dest.is_empty());
}
