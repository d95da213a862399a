use froginity::renderer::{sprite_rgba, PhysicalSize, SurfaceExtent};

#[test]
fn sprite_texels_follow_the_palette_row_by_row() {
    let sprite: [[u8; 3]; 2] = [[0, 1, 2], [2, 2, 0]];
    let palette: [[u8; 4]; 3] = [[0, 0, 0, 0], [10, 20, 30, 255], [200, 100, 50, 128]];
    let data = sprite_rgba(&sprite, &palette);
    assert_eq!(data.len(), 4 * 3 * 2);
    assert_eq!(
        data,
        vec![
            0, 0, 0, 0, 10, 20, 30, 255, 200, 100, 50, 128, //
            200, 100, 50, 128, 200, 100, 50, 128, 0, 0, 0, 0,
        ]
    );
    for r in 0..2 {
        for c in 0..3 {
            let at = 4 * (r * 3 + c);
            assert_eq!(&data[at..at + 4], &palette[sprite[r][c] as usize][..]);
        }
    }
}

#[test]
fn empty_sprite_has_no_texels() {
    let sprite: [[u8; 4]; 0] = [];
    let palette: [[u8; 4]; 1] = [[1, 2, 3, 4]];
    assert!(sprite_rgba(&sprite, &palette).is_empty());
}

#[test]
fn new_extent_clamps_zero_dimensions() {
    let e = SurfaceExtent::new(PhysicalSize { width: 0, height: 0 });
    assert_eq!(e.size(), PhysicalSize { width: 0, height: 0 });
    assert_eq!(e.config_size(), PhysicalSize { width: 1, height: 1 });
    let e = SurfaceExtent::new(PhysicalSize { width: 800, height: 0 });
    assert_eq!(e.config_size(), PhysicalSize { width: 800, height: 1 });
    let e = SurfaceExtent::new(PhysicalSize { width: 1024, height: 768 });
    assert_eq!(e.config_size(), PhysicalSize { width: 1024, height: 768 });
}

#[test]
fn resize_takes_nonzero_sizes() {
    let mut e = SurfaceExtent::new(PhysicalSize { width: 800, height: 600 });
    assert!(e.resize(PhysicalSize { width: 1280, height: 720 }));
    assert_eq!(e.size(), PhysicalSize { width: 1280, height: 720 });
    assert_eq!(e.config_size(), PhysicalSize { width: 1280, height: 720 });
}

#[test]
fn resize_ignores_zero_sizes() {
    let mut e = SurfaceExtent::new(PhysicalSize { width: 800, height: 600 });
    assert!(!e.resize(PhysicalSize { width: 0, height: 720 }));
    assert!(!e.resize(PhysicalSize { width: 1280, height: 0 }));
    assert!(!e.resize(PhysicalSize { width: 0, height: 0 }));
    assert_eq!(e.size(), PhysicalSize { width: 800, height: 600 });
    assert_eq!(e.config_size(), PhysicalSize { width: 800, height: 600 });
}
