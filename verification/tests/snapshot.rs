use xcb_util_cursor::{ScreenAttributes, ScreenSnapshot};

fn sample_attributes() -> ScreenAttributes {
    ScreenAttributes {
        root: 0x12d,
        default_colormap: 0x20,
        white_pixel: 0x00ff_ffff,
        black_pixel: 0x0000_0000,
        current_input_masks: 0x0068_0000,
        width_in_pixels: 1920,
        height_in_pixels: 1080,
        width_in_millimeters: 508,
        height_in_millimeters: 285,
        min_installed_maps: 1,
        max_installed_maps: 1,
        root_visual: 0x21,
        backing_stores: 1,
        save_unders: false,
        root_depth: 24,
        allowed_depths_len: 7,
    }
}

#[test]
fn snapshot_copies_every_field() {
    let attrs = sample_attributes();
    let snap = ScreenSnapshot::from_attributes(&attrs);
    assert_eq!(snap.root, 0x12d);
    assert_eq!(snap.default_colormap, 0x20);
    assert_eq!(snap.white_pixel, 0x00ff_ffff);
    assert_eq!(snap.black_pixel, 0);
    assert_eq!(snap.current_input_masks, 0x0068_0000);
    assert_eq!(snap.width_in_pixels, 1920);
    assert_eq!(snap.height_in_pixels, 1080);
    assert_eq!(snap.width_in_millimeters, 508);
    assert_eq!(snap.height_in_millimeters, 285);
    assert_eq!(snap.min_installed_maps, 1);
    assert_eq!(snap.max_installed_maps, 1);
    assert_eq!(snap.root_visual, 0x21);
    assert_eq!(snap.backing_stores, 1);
    assert_eq!(snap.save_unders, 0);
    assert_eq!(snap.root_depth, 24);
    assert_eq!(snap.allowed_depths_len, 7);
}

#[test]
fn save_unders_flag_encodes_as_one_byte() {
    let mut attrs = sample_attributes();
    attrs.save_unders = true;
    assert_eq!(ScreenSnapshot::from_attributes(&attrs).save_unders, 1);
    attrs.save_unders = false;
    assert_eq!(ScreenSnapshot::from_attributes(&attrs).save_unders, 0);
}

#[test]
fn oversized_backing_store_code_is_truncated() {
    // The narrowing to one byte is documented, not validated.
    let mut attrs = sample_attributes();
    attrs.backing_stores = 258;
    assert_eq!(ScreenSnapshot::from_attributes(&attrs).backing_stores, 2);
}

#[test]
fn oversized_depth_count_is_truncated() {
    let mut attrs = sample_attributes();
    attrs.allowed_depths_len = 300;
    assert_eq!(ScreenSnapshot::from_attributes(&attrs).allowed_depths_len, 44);
}

#[test]
fn snapshots_of_equal_attributes_are_equal() {
    let attrs = sample_attributes();
    assert_eq!(
        ScreenSnapshot::from_attributes(&attrs),
        ScreenSnapshot::from_attributes(&attrs.clone())
    );
}
