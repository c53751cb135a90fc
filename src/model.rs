use vstd::prelude::*;

verus! {

/// The kind of payload that a history entry carries.
#[derive(Debug, Clone, Copy, PartialEq, Eq, Structural)]
pub enum ContentType {
    Image,
    Text,
}

/// The stored name of each content type.
pub open spec fn content_type_name(ct: ContentType) -> Seq<char> {
    match ct {
        ContentType::Image => "image"@,
        ContentType::Text => "text"@,
    }
}

/// Relies on `chrono::Utc::now` and `DateTime::timestamp`: the current time
/// in seconds since the epoch. Nothing is known of the value.
#[verifier::external_body]
pub(crate) fn unix_now() -> i64 {
    chrono::Utc::now().timestamp()
}

/// Character-wise equality of two string slices.
pub fn same_text(a: &str, b: &str) -> (r: bool)
    ensures
        r == (a@ == b@),
{
    let n = a.unicode_len();
    let m = b.unicode_len();
    if n != m {
        return false;
    }
    let mut i: usize = 0;
    while i < n
        invariant
            n == a@.len(),
            m == b@.len(),
            n == m,
            i <= n,
            forall|k: int| 0 <= k < i ==> a@[k] == b@[k],
        decreases n - i,
    {
        if a.get_char(i) != b.get_char(i) {
            return false;
        }
        i = i + 1;
    }
    assert(a@ =~= b@);
    true
}

/// The content type that a stored name stands for.
pub open spec fn content_type_named(s: Seq<char>) -> Option<ContentType> {
    if s == "image"@ {
        Some(ContentType::Image)
    } else if s == "text"@ {
        Some(ContentType::Text)
    } else {
        None
    }
}

impl ContentType {
    /// Parses the stored name of a content type.
    pub fn from_str(s: &str) -> (r: Option<ContentType>)
        ensures
            r == content_type_named(s@),
    {
        if same_text(s, "image") {
            Some(ContentType::Image)
        } else if same_text(s, "text") {
            Some(ContentType::Text)
        } else {
            None
        }
    }

    /// The stored name of this content type.
    pub fn to_str(&self) -> (r: &'static str)
        ensures
            r@ == content_type_name(*self),
    {
        match self {
            ContentType::Image => "image",
            ContentType::Text => "text",
        }
    }
}

/// Parsing the stored name of a content type gives the type back.
pub proof fn lemma_content_type_name_round_trip(ct: ContentType)
    ensures
        content_type_named(content_type_name(ct)) == Some(ct),
{
    reveal_strlit("image");
    reveal_strlit("text");
    assert("image"@ != "text"@) by {
        assert("image"@.len() != "text"@.len());
    }
}

/// A single entry in the clipboard history.
#[derive(Debug, Clone)]
pub struct HistoryEntry {
    pub id: i64,
    pub content_type: ContentType,
    pub image_data: Option<Vec<u8>>,
    pub thumbnail: Option<Vec<u8>>,
    pub text_content: Option<String>,
    pub created_at: i64,
    pub file_size: i64,
}

/// The mathematical value of a history entry.
pub struct EntryView {
    pub id: i64,
    pub content_type: ContentType,
    pub image_data: Option<Seq<u8>>,
    pub thumbnail: Option<Seq<u8>>,
    pub text_content: Option<Seq<char>>,
    pub created_at: i64,
    pub file_size: i64,
}

pub open spec fn bytes_view(o: Option<Vec<u8>>) -> Option<Seq<u8>> {
    match o {
        Some(v) => Some(v@),
        None => None,
    }
}

pub open spec fn text_view(o: Option<String>) -> Option<Seq<char>> {
    match o {
        Some(s) => Some(s@),
        None => None,
    }
}

impl View for HistoryEntry {
    type V = EntryView;

    open spec fn view(&self) -> EntryView {
        EntryView {
            id: self.id,
            content_type: self.content_type,
            image_data: bytes_view(self.image_data),
            thumbnail: bytes_view(self.thumbnail),
            text_content: text_view(self.text_content),
            created_at: self.created_at,
            file_size: self.file_size,
        }
    }
}

/// The payload rule of the store: an image row carries image bytes and no
/// text, a text row carries text and neither image bytes nor a thumbnail.
pub open spec fn payload_matches_type(e: EntryView) -> bool {
    match e.content_type {
        ContentType::Image => e.image_data is Some && e.text_content is None,
        ContentType::Text => e.text_content is Some && e.image_data is None && e.thumbnail is None,
    }
}

fn copy_bytes(o: &Option<Vec<u8>>) -> (r: Option<Vec<u8>>)
    ensures
        bytes_view(r) == bytes_view(*o),
{
    match o {
        Some(v) => Some(vstd::slice::slice_to_vec(v.as_slice())),
        None => None,
    }
}

fn copy_text(o: &Option<String>) -> (r: Option<String>)
    ensures
        text_view(r) == text_view(*o),
{
    match o {
        Some(s) => Some(s.clone()),
        None => None,
    }
}

impl HistoryEntry {
    /// A copy of this entry with the same value.
    pub fn duplicate(&self) -> (r: HistoryEntry)
        ensures
            r@ == self@,
    {
        HistoryEntry {
            id: self.id,
            content_type: self.content_type,
            image_data: copy_bytes(&self.image_data),
            thumbnail: copy_bytes(&self.thumbnail),
            text_content: copy_text(&self.text_content),
            created_at: self.created_at,
            file_size: self.file_size,
        }
    }

    /// Whether the payload columns agree with the content type.
    pub fn has_valid_payload(&self) -> (r: bool)
        ensures
            r == payload_matches_type(self@),
    {
        match self.content_type {
            ContentType::Image => self.image_data.is_some() && self.text_content.is_none(),
            ContentType::Text => {
                self.text_content.is_some() && self.image_data.is_none() && self.thumbnail.is_none()
            },
        }
    }
}

/// A rectangular screen region.
#[derive(Debug, Clone, Copy, PartialEq, Eq, Structural)]
pub struct Rectangle {
    pub x: i32,
    pub y: i32,
    pub width: u32,
    pub height: u32,
}

/// Information about a monitor.
#[derive(Debug, Clone, Copy, PartialEq, Eq, Structural)]
pub struct Monitor {
    pub x: i16,
    pub y: i16,
    pub width: u16,
    pub height: u16,
}

} // verus!
