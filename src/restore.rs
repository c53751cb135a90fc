use vstd::prelude::*;

use crate::imaging::{decode_image, decoded_pixels, PixelBuffer};
use crate::model::{ContentType, EntryView};
use crate::store::{entry_with_id, Database};

verus! {

/// Content to put back on the clipboard.
pub enum ClipboardPayload {
    Text(String),
    /// Red, green, blue, alpha pixels.
    Image(PixelBuffer),
}

/// Why an entry could not be put back on the clipboard.
#[derive(Debug, Clone, Copy, PartialEq, Eq, Structural)]
pub enum RestoreError {
    /// The entry has no payload of its type, or no longer exists.
    NoContent,
    /// The stored image cannot be decoded.
    Undecodable,
}

pub open spec fn bytes_opt(o: Option<&[u8]>) -> Option<Seq<u8>> {
    match o {
        Some(b) => Some(b@),
        None => None,
    }
}

/// The encoded image to restore: the one at hand, or else the stored one.
pub open spec fn image_to_restore(rows: Seq<EntryView>, id: i64, at_hand: Option<Seq<u8>>) -> Option<Seq<u8>> {
    match at_hand {
        Some(b) => Some(b),
        None => match entry_with_id(rows, id) {
            Some(e) => e.image_data,
            None => None,
        },
    }
}

/// Works out what to put back on the clipboard for a history entry: its
/// text, or its image decoded to pixels. An image that is not at hand is
/// read from the store.
pub fn restore_content(
    db: &Database,
    id: i64,
    content_type: ContentType,
    text_content: Option<&str>,
    image_data: Option<&[u8]>,
) -> (r: Result<ClipboardPayload, RestoreError>)
    requires
        db.well_formed(),
    ensures
        content_type == ContentType::Text ==> match text_content {
            Some(t) => r matches Ok(ClipboardPayload::Text(s)) && s@ == t@,
            None => r matches Err(RestoreError::NoContent),
        },
        content_type == ContentType::Image ==> match image_to_restore(db@, id, bytes_opt(image_data)) {
            None => r matches Err(RestoreError::NoContent),
            Some(b) => match decoded_pixels(b) {
                Some((w, h, px)) => r matches Ok(ClipboardPayload::Image(img)) && img.width == w
                    && img.height == h && img.pixels@ == px,
                None => r matches Err(RestoreError::Undecodable),
            },
        },
{
    match content_type {
        ContentType::Text => match text_content {
            Some(t) => Ok(ClipboardPayload::Text(t.to_owned())),
            None => Err(RestoreError::NoContent),
        },
        ContentType::Image => {
            let stored;
            let bytes: &[u8] = match image_data {
                Some(b) => b,
                None => {
                    stored = match db.get_entry(id) {
                        Ok(Some(e)) => e.image_data,
                        _ => None,
                    };
                    match &stored {
                        Some(v) => v.as_slice(),
                        None => {
                            return Err(RestoreError::NoContent);
                        },
                    }
                },
            };
            match decode_image(bytes) {
                Ok(img) => Ok(ClipboardPayload::Image(img)),
                Err(_) => Err(RestoreError::Undecodable),
            }
        },
    }
}

} // verus!
