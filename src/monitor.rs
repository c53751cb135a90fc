use vstd::prelude::*;

use std::collections::hash_map::DefaultHasher;
use std::hash::Hasher;
use vstd::std_specs::hash::DefaultHasherAdditionalSpecFns;

use crate::imaging::{encode_png, png_encoding, thumbnail_or_default, thumbnail_or_empty};
use crate::model::text_view;

verus! {

/// The poll interval while the clipboard keeps changing, in milliseconds.
pub const BASE_POLL_MS: u64 = 750;

/// The poll interval once the clipboard has stayed the same for a while.
pub const IDLE_POLL_MS: u64 = 1000;

/// Cycles without a change after which polling slows down.
pub const IDLE_AFTER_CYCLES: u32 = 5;

/// The fast hash that tells repeated clipboard content apart from new.
pub open spec fn content_hash(data: Seq<u8>) -> u64 {
    DefaultHasher::spec_finish(seq![data])
}

/// The hash of a text's UTF-8 bytes.
pub open spec fn text_hash(text: Seq<char>) -> u64 {
    content_hash(vstd::utf8::encode_utf8(text))
}

/// Hashes a byte buffer with the standard library's default hasher.
pub fn calculate_hash(data: &[u8]) -> (r: u64)
    ensures
        r == content_hash(data@),
{
    let mut hasher = DefaultHasher::new();
    hasher.write(data);
    hasher.finish()
}

/// The monitor's memory between cycles: the hash of the last text and of the
/// last image taken from the clipboard, and how many cycles in a row found
/// nothing new.
#[derive(Debug, Clone, Copy, PartialEq, Eq, Structural)]
pub struct MonitorState {
    pub last_text_hash: Option<u64>,
    pub last_image_hash: Option<u64>,
    pub no_change_count: u32,
}

/// The poll interval that follows `no_change_count` quiet cycles.
pub open spec fn poll_interval(no_change_count: u32) -> u64 {
    if no_change_count > IDLE_AFTER_CYCLES {
        IDLE_POLL_MS
    } else {
        BASE_POLL_MS
    }
}

/// An image as the clipboard hands it over: red, green, blue, alpha bytes.
pub struct ClipboardImage {
    pub width: usize,
    pub height: usize,
    pub bytes: Vec<u8>,
}

/// What the monitor does with the clipboard's image in one cycle.
#[derive(Debug, Clone, Copy, PartialEq, Eq, Structural)]
pub enum ImageDecision {
    /// No image, an empty one, or the one seen last.
    Unchanged,
    /// A new image that cannot be encoded; it is not offered again.
    Unreadable(u64),
    /// A new image to store.
    Store(u64),
}

/// The hash of the text to store this cycle, if there is new text.
pub open spec fn text_decision(s: MonitorState, text: Option<Seq<char>>) -> Option<u64> {
    match text {
        Some(t) => if t.len() > 0 && s.last_text_hash != Some(text_hash(t)) {
            Some(text_hash(t))
        } else {
            None
        },
        None => None,
    }
}

/// The PNG encoding of a clipboard image, when it has one.
pub open spec fn clipboard_png(width: usize, height: usize, bytes: Seq<u8>) -> Option<Seq<u8>> {
    if width <= u32::MAX && height <= u32::MAX && bytes.len() == width * height * 4 {
        png_encoding(bytes, width as u32, height as u32)
    } else {
        None
    }
}

/// What becomes of the clipboard's image this cycle.
pub open spec fn image_decision(s: MonitorState, image: Option<(usize, usize, Seq<u8>)>) -> ImageDecision {
    match image {
        Some((w, h, b)) => if b.len() > 0 && s.last_image_hash != Some(content_hash(b)) {
            if clipboard_png(w, h, b) is Some {
                ImageDecision::Store(content_hash(b))
            } else {
                ImageDecision::Unreadable(content_hash(b))
            }
        } else {
            ImageDecision::Unchanged
        },
        None => ImageDecision::Unchanged,
    }
}

/// The state after a cycle: a hash is remembered once its content is stored
/// (or found unreadable), and the quiet-cycle count restarts whenever new
/// content turned up.
pub open spec fn after_cycle(
    s: MonitorState,
    text: Option<u64>,
    text_stored: bool,
    image: ImageDecision,
    image_stored: bool,
) -> MonitorState {
    let changed = text is Some || !(image is Unchanged);
    MonitorState {
        last_text_hash: match text {
            Some(h) => if text_stored {
                Some(h)
            } else {
                s.last_text_hash
            },
            None => s.last_text_hash,
        },
        last_image_hash: match image {
            ImageDecision::Store(h) => if image_stored {
                Some(h)
            } else {
                s.last_image_hash
            },
            ImageDecision::Unreadable(h) => Some(h),
            ImageDecision::Unchanged => s.last_image_hash,
        },
        no_change_count: if changed {
            0
        } else if s.no_change_count == u32::MAX {
            u32::MAX
        } else {
            (s.no_change_count + 1) as u32
        },
    }
}

/// Text seen in two consecutive cycles is stored at most once: the first
/// cycle stores it exactly when it differs from the text seen before, and
/// once that write has succeeded the second cycle stores nothing, whatever
/// happened to the image in between.
pub proof fn lemma_text_seen_twice_stored_once(
    s: MonitorState,
    t: Seq<char>,
    image: ImageDecision,
    image_stored: bool,
)
    requires
        t.len() > 0,
    ensures
        ({
            let first = text_decision(s, Some(t));
            let s1 = after_cycle(s, first, true, image, image_stored);
            let second = text_decision(s1, Some(t));
            &&& (first is Some <==> s.last_text_hash != Some(text_hash(t)))
            &&& second is None
            &&& (if first is Some { 1int } else { 0int }) + (if second is Some { 1int } else { 0int })
                == (if s.last_text_hash == Some(text_hash(t)) { 0int } else { 1int })
        }),
{
}

/// An image seen in two consecutive cycles is stored at most once: the first
/// cycle stores it exactly when it differs from the image seen before and can
/// be encoded, and once that write has succeeded the second cycle stores
/// nothing, whatever happened to the text in between.
pub proof fn lemma_image_seen_twice_stored_once(
    s: MonitorState,
    width: usize,
    height: usize,
    bytes: Seq<u8>,
    text: Option<u64>,
    text_stored: bool,
)
    requires
        bytes.len() > 0,
    ensures
        ({
            let first = image_decision(s, Some((width, height, bytes)));
            let s1 = after_cycle(s, text, text_stored, first, true);
            let second = image_decision(s1, Some((width, height, bytes)));
            &&& (first is Store <==> s.last_image_hash != Some(content_hash(bytes))
                && clipboard_png(width, height, bytes) is Some)
            &&& second is Unchanged
        }),
{
}

/// The text write that a cycle asks for.
pub enum TextStep {
    Unchanged,
    Store { text: String, hash: u64 },
}

/// The image write that a cycle asks for.
pub enum ImageStep {
    Unchanged,
    Unreadable { hash: u64 },
    Store { hash: u64, png: Vec<u8>, thumbnail: Vec<u8> },
}

impl TextStep {
    pub open spec fn decision(&self) -> Option<u64> {
        match self {
            TextStep::Unchanged => None,
            TextStep::Store { hash, .. } => Some(*hash),
        }
    }
}

impl ImageStep {
    pub open spec fn decision(&self) -> ImageDecision {
        match self {
            ImageStep::Unchanged => ImageDecision::Unchanged,
            ImageStep::Unreadable { hash } => ImageDecision::Unreadable(*hash),
            ImageStep::Store { hash, .. } => ImageDecision::Store(*hash),
        }
    }
}

/// The writes that one cycle asks of the caller.
pub struct CyclePlan {
    pub text: TextStep,
    pub image: ImageStep,
}

pub open spec fn image_view(image: Option<ClipboardImage>) -> Option<(usize, usize, Seq<u8>)> {
    match image {
        Some(i) => Some((i.width, i.height, i.bytes@)),
        None => None,
    }
}

impl MonitorState {
    /// The state at start-up: nothing seen yet.
    pub fn new() -> (r: MonitorState)
        ensures
            r.last_text_hash is None,
            r.last_image_hash is None,
            r.no_change_count == 0,
    {
        MonitorState { last_text_hash: None, last_image_hash: None, no_change_count: 0 }
    }

    /// How long to sleep before the next cycle.
    pub fn poll_interval_ms(&self) -> (r: u64)
        ensures
            r == poll_interval(self.no_change_count),
    {
        if self.no_change_count > IDLE_AFTER_CYCLES {
            IDLE_POLL_MS
        } else {
            BASE_POLL_MS
        }
    }

    /// Decides what to store from what the clipboard held this cycle: text
    /// is stored when it is not empty and differs from the last text, and an
    /// image likewise, once encoded with its thumbnail.
    pub fn plan_cycle(&self, text: Option<String>, image: Option<ClipboardImage>) -> (r: CyclePlan)
        ensures
            r.text.decision() == text_decision(*self, text_view(text)),
            r.text matches TextStep::Store { text: t, .. } ==> text_view(text) == Some(t@),
            r.image.decision() == image_decision(*self, image_view(image)),
            r.image matches ImageStep::Store { png, thumbnail, .. } ==> ({
                let (w, h, b) = image_view(image)->0;
                &&& clipboard_png(w, h, b) == Some(png@)
                &&& thumbnail@ == thumbnail_or_empty(png@)
            }),
    {
        let text_step = match text {
            Some(t) => {
                if t.as_str().unicode_len() > 0 {
                    let hash = calculate_hash(t.as_str().as_bytes());
                    if self.last_text_hash != Some(hash) {
                        TextStep::Store { text: t, hash }
                    } else {
                        TextStep::Unchanged
                    }
                } else {
                    TextStep::Unchanged
                }
            },
            None => TextStep::Unchanged,
        };
        let image_step = match image {
            Some(img) => {
                if img.bytes.len() > 0 {
                    let hash = calculate_hash(img.bytes.as_slice());
                    if self.last_image_hash != Some(hash) {
                        if img.width <= u32::MAX as usize && img.height <= u32::MAX as usize {
                            match encode_png(img.bytes.as_slice(), img.width as u32, img.height as u32) {
                                Ok(png) => {
                                    let thumbnail = thumbnail_or_default(png.as_slice());
                                    ImageStep::Store { hash, png, thumbnail }
                                },
                                Err(_) => ImageStep::Unreadable { hash },
                            }
                        } else {
                            ImageStep::Unreadable { hash }
                        }
                    } else {
                        ImageStep::Unchanged
                    }
                } else {
                    ImageStep::Unchanged
                }
            },
            None => ImageStep::Unchanged,
        };
        CyclePlan { text: text_step, image: image_step }
    }

    /// Records how the cycle's writes went.
    pub fn complete_cycle(&mut self, plan: &CyclePlan, text_stored: bool, image_stored: bool)
        ensures
            *final(self) == after_cycle(
                *old(self),
                plan.text.decision(),
                text_stored,
                plan.image.decision(),
                image_stored,
            ),
    {
        let mut changed = false;
        match &plan.text {
            TextStep::Store { hash, .. } => {
                changed = true;
                if text_stored {
                    self.last_text_hash = Some(*hash);
                }
            },
            TextStep::Unchanged => {},
        }
        match &plan.image {
            ImageStep::Store { hash, .. } => {
                changed = true;
                if image_stored {
                    self.last_image_hash = Some(*hash);
                }
            },
            ImageStep::Unreadable { hash } => {
                changed = true;
                self.last_image_hash = Some(*hash);
            },
            ImageStep::Unchanged => {},
        }
        if changed {
            self.no_change_count = 0;
        } else {
            self.no_change_count = self.no_change_count.saturating_add(1);
        }
    }
}

} // verus!
