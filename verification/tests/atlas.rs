use grr_glyph::atlas::AtlasCache;

#[test]
fn upload_emits_packed_copy_command() {
    let mut atlas = AtlasCache::new(256, 256);
    assert_eq!(atlas.width(), 256);
    assert_eq!(atlas.height(), 256);
    let data = vec![1u8, 2, 3, 4, 5, 6];
    let cmd = atlas.upload(10, 20, 3, 2, &data);
    assert_eq!(cmd.x, 10);
    assert_eq!(cmd.y, 20);
    assert_eq!(cmd.width, 3);
    assert_eq!(cmd.height, 2);
    // rows are packed: the pitch is the rectangle width, no padding
    assert_eq!(cmd.row_pitch, 3);
}

#[test]
fn several_uploads_per_frame() {
    // the layout engine may rasterize several new glyphs before one frame
    // resolves; every upload is accepted and keeps its own rectangle
    let mut atlas = AtlasCache::new(64, 64);
    let a = atlas.upload(0, 0, 2, 2, &vec![9u8; 4]);
    let b = atlas.upload(62, 62, 2, 2, &vec![7u8; 4]);
    assert_eq!((a.x, a.y), (0, 0));
    assert_eq!((b.x, b.y), (62, 62));
    assert_eq!(b.row_pitch, 2);
}
