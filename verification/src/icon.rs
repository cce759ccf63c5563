//! Tray-icon image resolution: try to decode the bundled image bytes; on any
//! decode failure fall back to the host's default window icon, so that tray
//! creation never fails on a bad resource.

use vstd::prelude::*;

verus! {

/// What decoding an image byte stream yields: `None` when the bytes do not
/// decode, otherwise the RGBA pixel buffer with its width and height. The
/// outcome depends on the bytes alone.
pub uninterp spec fn decoded_image(bytes: Seq<u8>) -> Option<(Seq<u8>, u32, u32)>;

/// Relies on `image::load_from_memory` (decoding depends on the byte stream
/// alone), `image::DynamicImage::{width, height, into_rgba8}` and
/// `image::ImageBuffer::into_vec`: the returned buffer holds the image's RGBA
/// pixels, four bytes per pixel.
#[verifier::external_body]
fn decode_rgba(bytes: &[u8]) -> (r: Option<(Vec<u8>, u32, u32)>)
    ensures
        r is Some <==> decoded_image(bytes@) is Some,
        r matches Some(t) ==> decoded_image(bytes@) matches Some(d) && t.0@ == d.0 && t.1 == d.1
            && t.2 == d.2 && t.0@.len() == 4 * t.1 * t.2,
{
    match image::load_from_memory(bytes) {
        Ok(img) => {
            let width = img.width();
            let height = img.height();
            Some((img.into_rgba8().into_vec(), width, height))
        },
        Err(_) => None,
    }
}

/// The image the tray icon is built from: pixels decoded from the bundled
/// resource, or the host's default window icon.
#[derive(Debug, PartialEq, Eq)]
pub enum TrayIconSource {
    Decoded { rgba: Vec<u8>, width: u32, height: u32 },
    HostDefault,
}

/// Resolve the tray icon from the bundled image bytes. Decode failure is not
/// an error: the tray is still created, with the host's default icon.
pub fn resolve_tray_icon(bytes: &[u8]) -> (r: TrayIconSource)
    ensures
        decoded_image(bytes@) matches Some(d) ==> r matches TrayIconSource::Decoded {
            rgba,
            width,
            height,
        } && rgba@ == d.0 && width == d.1 && height == d.2 && rgba@.len() == 4 * width * height,
        decoded_image(bytes@) is None ==> r is HostDefault,
{
    match decode_rgba(bytes) {
        Some((rgba, width, height)) => TrayIconSource::Decoded { rgba, width, height },
        None => TrayIconSource::HostDefault,
    }
}

} // verus!
