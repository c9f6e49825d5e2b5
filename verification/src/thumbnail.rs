//! Turning a video's thumbnail into an image that the terminal can show.
use vstd::prelude::*;
use image::DynamicImage;
use ratatui::layout::Size;
use ratatui_image::picker::Picker;
use ratatui_image::protocol::Protocol;
use ratatui_image::Resize;
use crate::results::ThumbnailInfo;

verus! {

#[verifier::external_type_specification]
#[verifier::external_body]
pub struct ExDynamicImage(DynamicImage);

#[verifier::external_type_specification]
#[verifier::external_body]
pub struct ExPicker(Picker);

/// Calls `image::load_from_memory`. Nothing is claimed of the result:
/// which formats are recognised depends on detection hooks that the process
/// may register at any time, so whether given bytes decode is not a function
/// of the bytes alone.
#[verifier::external_body]
fn load_from_memory(bytes: &[u8]) -> Option<DynamicImage> {
    image::load_from_memory(bytes).ok()
}

/// Calls `Picker::font_size` and returns the font's cell width and height in
/// pixels. Nothing is claimed of the values.
#[verifier::external_body]
fn picker_font_size(picker: &Picker) -> (u16, u16) {
    let font = picker.font_size();
    (font.width, font.height)
}

/// A terminal image picker together with its font's cell size in pixels,
/// read from the picker when this value is made. A picker's font size never
/// changes, and the fields are private, so the recorded size stays the
/// picker's own.
pub struct FontPicker {
    picker: Picker,
    font_width: u16,
    font_height: u16,
}

impl FontPicker {
    /// The recorded cell width of the picker's font.
    pub closed spec fn cell_width(&self) -> u16 {
        self.font_width
    }

    /// The recorded cell height of the picker's font.
    pub closed spec fn cell_height(&self) -> u16 {
        self.font_height
    }

    /// Wraps a picker, recording its font size.
    pub fn new(picker: Picker) -> (r: FontPicker) {
        let font: (u16, u16) = picker_font_size(&picker);
        FontPicker { picker, font_width: font.0, font_height: font.1 }
    }

    /// The cell width of the picker's font in pixels.
    pub fn font_width(&self) -> (r: u16)
        ensures
            r == self.cell_width(),
    {
        self.font_width
    }

    /// The cell height of the picker's font in pixels.
    pub fn font_height(&self) -> (r: u16)
        ensures
            r == self.cell_height(),
    {
        self.font_height
    }
}

/// How an image is resized into its target: fitted keeping its proportions,
/// cropped, or scaled keeping its proportions even when it is smaller.
#[derive(Debug, Clone, Copy, PartialEq, Eq, Structural)]
pub enum ResizeMode {
    Fit,
    Crop,
    Scale,
}

/// A thumbnail encoded for the terminal: the size in cells that it covers,
/// and the size and resize mode it was asked to fit.
pub struct FittedThumbnail {
    pub protocol: Protocol,
    pub width: u16,
    pub height: u16,
    pub requested_width: u16,
    pub requested_height: u16,
    pub mode: ResizeMode,
}

/// The conditions under which an encoded image is sure to fit into a target
/// of `width` by `height` cells: the target and the font's cells are not
/// empty, and the target measured in pixels fits into 16 bits.
pub open spec fn fit_is_exact(width: u16, height: u16, font_width: u16, font_height: u16) -> bool {
    &&& width >= 1
    &&& height >= 1
    &&& font_width >= 1
    &&& font_height >= 1
    &&& width * font_width <= u16::MAX
    &&& height * font_height <= u16::MAX
}

/// Calls `Picker::new_protocol` with a `Size` of the given width and height
/// and the `Resize` variant of `mode` (with its default options), and reports
/// the encoded protocol's size (`Protocol::size`) with what was asked. The
/// `requires` leaves out the targets on which the crate's resizing asserts
/// that the size exceeds the target. The contract claims that the protocol
/// fits into the given size and records the request; nothing is claimed of
/// whether encoding succeeds, which depends on the picker's terminal
/// protocol, nor of the image data (the Kitty protocol gives each image a
/// random id).
#[verifier::external_body]
fn new_protocol(picker: &FontPicker, image: DynamicImage, width: u16, height: u16, mode: ResizeMode) -> (r: Option<
    FittedThumbnail,
>)
    requires
        fit_is_exact(width, height, picker.cell_width(), picker.cell_height()),
    ensures
        r matches Some(t) ==> t.width <= width && t.height <= height && t.requested_width == width
            && t.requested_height == height && t.mode == mode,
{
    let resize = match mode {
        ResizeMode::Fit => Resize::Fit(None),
        ResizeMode::Crop => Resize::Crop(None),
        ResizeMode::Scale => Resize::Scale(None),
    };
    match picker.picker.new_protocol(image, Size::new(width, height), resize) {
        Ok(protocol) => {
            let size = protocol.size();
            Some(FittedThumbnail { protocol, width: size.width, height: size.height, requested_width: width, requested_height: height, mode })
        },
        Err(_) => None,
    }
}

/// Where a video's thumbnail is downloaded from, and the size in cells that
/// it is fitted into.
#[derive(Debug)]
pub struct ThumbnailTarget {
    pub url: String,
    pub width: u16,
    pub height: u16,
}

/// The thumbnail to show for a video: the first one offered, if any, with
/// its pixel width and height truncated to 16 bits.
pub fn thumbnail_target(thumbnails: &Vec<ThumbnailInfo>) -> (r: Option<ThumbnailTarget>)
    ensures
        thumbnails@.len() == 0 ==> r is None,
        thumbnails@.len() > 0 ==> (r matches Some(t) && t.url@ == thumbnails@[0].url@
            && t.width == thumbnails@[0].width as u16 && t.height == thumbnails@[0].height as u16),
{
    if thumbnails.len() == 0 {
        return None;
    }
    let first = &thumbnails[0];
    Some(
        ThumbnailTarget {
            url: first.url.clone(),
            width: first.width as u16,
            height: first.height as u16,
        },
    )
}

/// The image to show for a downloaded thumbnail: the bytes are decoded and
/// the image is fitted, keeping its proportions, into the target's width and
/// height in cells. No image comes back when the target does not fit (see
/// `fit_is_exact`); otherwise none comes back when the bytes do not decode or
/// the picker cannot encode the image, which the outside calls decide.
pub fn thumbnail_protocol(picker: &FontPicker, bytes: &[u8], target: &ThumbnailTarget) -> (r: Option<
    FittedThumbnail,
>)
    ensures
        !fit_is_exact(target.width, target.height, picker.cell_width(), picker.cell_height())
            ==> r is None,
        r matches Some(t) ==> {
            &&& fit_is_exact(target.width, target.height, picker.cell_width(), picker.cell_height())
            &&& t.requested_width == target.width
            &&& t.requested_height == target.height
            &&& t.mode == ResizeMode::Fit
            &&& t.width <= target.width
            &&& t.height <= target.height
        },
{
    let font_width = picker.font_width();
    let font_height = picker.font_height();
    let w: u64 = target.width as u64;
    let h: u64 = target.height as u64;
    let fw: u64 = font_width as u64;
    let fh: u64 = font_height as u64;
    assert(w * fw <= 65535 * 65535 && h * fh <= 65535 * 65535) by (nonlinear_arith)
        requires
            w <= 65535,
            fw <= 65535,
            h <= 65535,
            fh <= 65535,
    ;
    if !(w >= 1 && h >= 1 && fw >= 1 && fh >= 1 && w * fw <= 65535 && h * fh <= 65535) {
        return None;
    }
    let image = match load_from_memory(bytes) {
        Some(image) => image,
        None => return None,
    };
    new_protocol(picker, image, target.width, target.height, ResizeMode::Fit)
}

} // verus!
