//! Texture creation: vertical flip and upload commands.

use glrender::commands::GpuCmd;
use glrender::texture::{flip_rows, Texture};

#[test]
fn flip_swaps_rows_exactly() {
    // A 2x2 image: top row pixels A B, bottom row pixels C D.
    let rgba: Vec<u8> = vec![
        1, 2, 3, 4, 5, 6, 7, 8, // row 0: A B
        9, 10, 11, 12, 13, 14, 15, 16, // row 1: C D
    ];
    let flipped = flip_rows(2, 2, &rgba);
    assert_eq!(
        flipped,
        vec![
            9, 10, 11, 12, 13, 14, 15, 16, // row 1 first
            1, 2, 3, 4, 5, 6, 7, 8,
        ]
    );
}

#[test]
fn flip_of_one_row_is_identity() {
    let rgba: Vec<u8> = (0..12).collect();
    assert_eq!(flip_rows(3, 1, &rgba), rgba);
}

#[test]
fn flip_of_empty_image_is_empty() {
    let rgba: Vec<u8> = Vec::new();
    assert_eq!(flip_rows(0, 0, &rgba), rgba);
}

#[test]
fn texture_build_emits_flipped_upload() {
    let rgba: Vec<u8> = vec![
        1, 2, 3, 4, // row 0
        5, 6, 7, 8, // row 1
    ];
    let (_, cmds) = Texture::new(9, 1, 2, &rgba);
    assert_eq!(cmds.len(), 6);
    assert_eq!(cmds[0], GpuCmd::ActiveTextureUnit { unit: 0 });
    assert_eq!(cmds[1], GpuCmd::BindTexture2d { texture: 9 });
    assert_eq!(cmds[2], GpuCmd::SetMinFilterNearest);
    assert_eq!(cmds[3], GpuCmd::SetMagFilterNearest);
    assert_eq!(
        cmds[4],
        GpuCmd::UploadTexture2d { width: 1, height: 2, rgba: vec![5, 6, 7, 8, 1, 2, 3, 4] }
    );
    assert_eq!(cmds[5], GpuCmd::GenerateMipmaps { texture: 9 });
}

#[test]
fn use_texture_binds_its_handle() {
    let rgba = vec![0u8; 4];
    let (texture, _) = Texture::new(31, 1, 1, &rgba);
    assert_eq!(texture.use_texture(), GpuCmd::BindTexture2d { texture: 31 });
}

#[test]
fn destroy_releases_the_texture_handle() {
    let rgba = vec![0u8; 4];
    let (texture, _) = Texture::new(12, 1, 1, &rgba);
    assert_eq!(texture.destroy(), GpuCmd::DeleteTexture { texture: 12 });
}
