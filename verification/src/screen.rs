//! The screen-attribute snapshot handed to the native resolver.
//!
//! The native constructor wants the attributes of one X11 screen as a flat
//! value structure with fixed field widths. [`ScreenAttributes`] holds the
//! attributes as the connection library reports them; [`ScreenSnapshot`]
//! is the flat structure in the native layout, produced by a pure, total
//! copy in which three fields are narrowed to a single byte. The narrowing
//! is documented, not validated: a caller whose values do not fit a byte
//! gets the truncated value, exactly as stated in the contract.

use vstd::prelude::*;

verus! {

/// The attributes of one X11 screen, read once from the connection
/// library's screen descriptor. No reference into the descriptor is
/// retained: these are plain copied values.
#[derive(Clone, Copy, Debug, PartialEq, Eq, Structural)]
pub struct ScreenAttributes {
    /// Resource id of the screen's root window.
    pub root: u32,
    /// Resource id of the screen's default colormap.
    pub default_colormap: u32,
    /// The screen's white pixel value.
    pub white_pixel: u32,
    /// The screen's black pixel value.
    pub black_pixel: u32,
    /// The event mask currently selected on the root window, as raw bits.
    pub current_input_masks: u32,
    /// Screen width in pixels.
    pub width_in_pixels: u16,
    /// Screen height in pixels.
    pub height_in_pixels: u16,
    /// Screen width in millimeters.
    pub width_in_millimeters: u16,
    /// Screen height in millimeters.
    pub height_in_millimeters: u16,
    /// Minimum number of installed colormaps.
    pub min_installed_maps: u16,
    /// Maximum number of installed colormaps.
    pub max_installed_maps: u16,
    /// Resource id of the root window's visual.
    pub root_visual: u32,
    /// The screen's backing-store policy, as the protocol's numeric code.
    pub backing_stores: u32,
    /// Whether save-unders are supported on this screen.
    pub save_unders: bool,
    /// Bit depth of the root window.
    pub root_depth: u8,
    /// Number of allowed-depth records the screen advertises.
    pub allowed_depths_len: usize,
}

/// The flat screen structure in the native resolver's expected layout,
/// field for field with its exact integer widths.
#[derive(Clone, Copy, Debug, PartialEq, Eq, Structural)]
pub struct ScreenSnapshot {
    /// Resource id of the screen's root window.
    pub root: u32,
    /// Resource id of the screen's default colormap.
    pub default_colormap: u32,
    /// The screen's white pixel value.
    pub white_pixel: u32,
    /// The screen's black pixel value.
    pub black_pixel: u32,
    /// The event mask currently selected on the root window, as raw bits.
    pub current_input_masks: u32,
    /// Screen width in pixels.
    pub width_in_pixels: u16,
    /// Screen height in pixels.
    pub height_in_pixels: u16,
    /// Screen width in millimeters.
    pub width_in_millimeters: u16,
    /// Screen height in millimeters.
    pub height_in_millimeters: u16,
    /// Minimum number of installed colormaps.
    pub min_installed_maps: u16,
    /// Maximum number of installed colormaps.
    pub max_installed_maps: u16,
    /// Resource id of the root window's visual.
    pub root_visual: u32,
    /// Backing-store policy, narrowed to the native single-byte encoding.
    pub backing_stores: u8,
    /// Save-unders flag, encoded as 1 for true and 0 for false.
    pub save_unders: u8,
    /// Bit depth of the root window.
    pub root_depth: u8,
    /// Allowed-depth count, narrowed to the native single-byte encoding.
    pub allowed_depths_len: u8,
}

impl ScreenSnapshot {
    /// Says that `self` is exactly the snapshot of `attrs`: every field
    /// copied unchanged, except the three documented narrowings to one
    /// byte (truncation for the backing-store code and the allowed-depth
    /// count, 1/0 for the save-unders flag).
    pub open spec fn is_snapshot_of(self, attrs: ScreenAttributes) -> bool {
        &&& self.root == attrs.root
        &&& self.default_colormap == attrs.default_colormap
        &&& self.white_pixel == attrs.white_pixel
        &&& self.black_pixel == attrs.black_pixel
        &&& self.current_input_masks == attrs.current_input_masks
        &&& self.width_in_pixels == attrs.width_in_pixels
        &&& self.height_in_pixels == attrs.height_in_pixels
        &&& self.width_in_millimeters == attrs.width_in_millimeters
        &&& self.height_in_millimeters == attrs.height_in_millimeters
        &&& self.min_installed_maps == attrs.min_installed_maps
        &&& self.max_installed_maps == attrs.max_installed_maps
        &&& self.root_visual == attrs.root_visual
        &&& self.backing_stores == attrs.backing_stores as u8
        &&& self.save_unders == (if attrs.save_unders { 1u8 } else { 0u8 })
        &&& self.root_depth == attrs.root_depth
        &&& self.allowed_depths_len == attrs.allowed_depths_len as u8
    }

    /// Materializes the native value structure from a screen's attributes.
    /// A pure, total transformation with no failure mode.
    pub fn from_attributes(attrs: &ScreenAttributes) -> (s: ScreenSnapshot)
        ensures
            s.is_snapshot_of(*attrs),
    {
        ScreenSnapshot {
            root: attrs.root,
            default_colormap: attrs.default_colormap,
            white_pixel: attrs.white_pixel,
            black_pixel: attrs.black_pixel,
            current_input_masks: attrs.current_input_masks,
            width_in_pixels: attrs.width_in_pixels,
            height_in_pixels: attrs.height_in_pixels,
            width_in_millimeters: attrs.width_in_millimeters,
            height_in_millimeters: attrs.height_in_millimeters,
            min_installed_maps: attrs.min_installed_maps,
            max_installed_maps: attrs.max_installed_maps,
            root_visual: attrs.root_visual,
            backing_stores: #[verifier::truncate] (attrs.backing_stores as u8),
            save_unders: if attrs.save_unders { 1 } else { 0 },
            root_depth: attrs.root_depth,
            allowed_depths_len: #[verifier::truncate] (attrs.allowed_depths_len as u8),
        }
    }
}

} // verus!
