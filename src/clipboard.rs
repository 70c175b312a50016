//! The clipboard codec: a text plus optional metadata, stored in three slots
//! of a system clipboard (plain text, content hash, metadata). The hash binds
//! the metadata to the text it was written with, so that a text put there by
//! another process never comes back with stale metadata.
use vstd::prelude::*;
use vstd::utf8::{decode_utf8, encode_utf8, valid_utf8};
use crate::text::{decode_lossy, decode_strict, lossy_text};
use crate::hash::{be_bytes, be_value, fnv1a, hash_from_be_bytes, hash_to_be_bytes, stable_hash_bytes, lemma_be_round_trip};

verus! {

broadcast use {vstd::utf8::encode_utf8_valid_utf8, vstd::utf8::encode_utf8_decode_utf8};

/// A text and the metadata that travels with it.
#[derive(Debug)]
pub struct ClipboardItem {
    pub text: String,
    pub metadata: Option<String>,
}

pub struct ClipboardItemView {
    pub text: Seq<char>,
    pub metadata: Option<Seq<char>>,
}

pub open spec fn option_string_view(s: Option<String>) -> Option<Seq<char>> {
    match s {
        Some(s) => Some(s@),
        None => None,
    }
}

impl View for ClipboardItem {
    type V = ClipboardItemView;

    open spec fn view(&self) -> ClipboardItemView {
        ClipboardItemView { text: self.text@, metadata: option_string_view(self.metadata) }
    }
}

/// Whether two texts are equal, compared by their UTF-8 bytes.
pub fn same_text(a: &str, b: &str) -> (r: bool)
    ensures
        r == (a@ == b@),
{
    let x = a.as_bytes();
    let y = b.as_bytes();
    proof {
        assert(decode_utf8(encode_utf8(a@)) == a@);
        assert(decode_utf8(encode_utf8(b@)) == b@);
    }
    if x.len() != y.len() {
        return false;
    }
    let mut i: usize = 0;
    while i < x.len()
        invariant
            x@ == encode_utf8(a@),
            y@ == encode_utf8(b@),
            x@.len() == y@.len(),
            i <= x@.len(),
            forall|k: int| 0 <= k < i ==> x@[k] == y@[k],
        decreases x@.len() - i,
    {
        if x[i] != y[i] {
            assert(x@[i as int] != y@[i as int]);
            assert(x@ != y@);
            return false;
        }
        i = i + 1;
    }
    assert(x@ =~= y@);
    true
}

impl PartialEq for ClipboardItem {
    fn eq(&self, other: &ClipboardItem) -> (r: bool) {
        let same_meta = match (&self.metadata, &other.metadata) {
            (Some(a), Some(b)) => same_text(a.as_str(), b.as_str()),
            (None, None) => true,
            _ => false,
        };
        same_text(self.text.as_str(), other.text.as_str()) && same_meta
    }
}

impl vstd::std_specs::cmp::PartialEqSpecImpl for ClipboardItem {
    open spec fn obeys_eq_spec() -> bool {
        true
    }

    open spec fn eq_spec(&self, other: &ClipboardItem) -> bool {
        self@ == other@
    }
}

impl ClipboardItem {
    /// An item with no metadata.
    pub fn new(text: String) -> (r: Self)
        ensures
            r@ == (ClipboardItemView { text: text@, metadata: None }),
    {
        ClipboardItem { text, metadata: None }
    }

    /// The same item with `metadata` attached.
    pub fn with_metadata(self, metadata: String) -> (r: Self)
        ensures
            r@ == (ClipboardItemView { text: self.text@, metadata: Some(metadata@) }),
    {
        ClipboardItem { text: self.text, metadata: Some(metadata) }
    }

    pub fn text(&self) -> (r: &String)
        ensures
            r@ == self.text@,
    {
        &self.text
    }

    pub fn metadata(&self) -> (r: &Option<String>)
        ensures
            option_string_view(*r) == option_string_view(self.metadata),
    {
        &self.metadata
    }
}

/// The stable hash of a text: FNV-1a over its UTF-8 bytes.
pub open spec fn stable_hash(text: Seq<char>) -> u64 {
    fnv1a(encode_utf8(text))
}

/// Hashes a text by its UTF-8 bytes.
pub fn text_hash(text: &str) -> (h: u64)
    ensures
        h == stable_hash(text@),
{
    stable_hash_bytes(text.as_bytes())
}

/// The bytes in the clipboard's three slots; `None` is a slot with no data.
pub struct PasteboardSlots {
    pub text: Option<Vec<u8>>,
    pub text_hash: Option<Vec<u8>>,
    pub metadata: Option<Vec<u8>>,
}

pub struct PasteboardView {
    pub text: Option<Seq<u8>>,
    pub text_hash: Option<Seq<u8>>,
    pub metadata: Option<Seq<u8>>,
}

pub open spec fn option_bytes_view(b: Option<Vec<u8>>) -> Option<Seq<u8>> {
    match b {
        Some(b) => Some(b@),
        None => None,
    }
}

impl View for PasteboardSlots {
    type V = PasteboardView;

    open spec fn view(&self) -> PasteboardView {
        PasteboardView {
            text: option_bytes_view(self.text),
            text_hash: option_bytes_view(self.text_hash),
            metadata: option_bytes_view(self.metadata),
        }
    }
}

/// The slots after writing `item`: the text always; the hash of the text and
/// the metadata only where there is metadata.
pub open spec fn slots_for(item: ClipboardItemView) -> PasteboardView {
    PasteboardView {
        text: Some(encode_utf8(item.text)),
        text_hash: match item.metadata {
            Some(_) => Some(be_bytes(stable_hash(item.text))),
            None => None,
        },
        metadata: match item.metadata {
            Some(m) => Some(encode_utf8(m)),
            None => None,
        },
    }
}

/// Whether the hash slot and the metadata slot hold valid metadata for `text`.
pub open spec fn metadata_matches(p: PasteboardView, text: Seq<char>) -> bool {
    &&& p.text_hash is Some
    &&& p.text_hash->0.len() == 8
    &&& be_value(p.text_hash->0) == stable_hash(text)
    &&& p.metadata is Some
    &&& valid_utf8(p.metadata->0)
}

/// The item that the slots hold: none without a text slot; the metadata only
/// where the stored hash is that of the text now present.
pub open spec fn item_from(p: PasteboardView) -> Option<ClipboardItemView> {
    match p.text {
        None => None,
        Some(b) => {
            let text = lossy_text(b);
            Some(
                ClipboardItemView {
                    text,
                    metadata: if metadata_matches(p, text) {
                        Some(decode_utf8(p.metadata->0))
                    } else {
                        None
                    },
                },
            )
        },
    }
}

pub open spec fn option_item_view(r: Option<ClipboardItem>) -> Option<ClipboardItemView> {
    match r {
        Some(i) => Some(i@),
        None => None,
    }
}

fn string_bytes(s: &String) -> (r: Vec<u8>)
    ensures
        r@ == encode_utf8(s@),
{
    vstd::slice::slice_to_vec(s.as_str().as_bytes())
}

impl PasteboardSlots {
    /// A clipboard with all three slots empty.
    pub fn new() -> (r: Self)
        ensures
            r@ == (PasteboardView { text: None, text_hash: None, metadata: None }),
    {
        PasteboardSlots { text: None, text_hash: None, metadata: None }
    }

    /// Clears all three slots, then stores the text, and, where the item has
    /// metadata, the text's hash (big-endian) and the metadata.
    pub fn write_to_clipboard(&mut self, item: &ClipboardItem)
        ensures
            final(self)@ == slots_for(item@),
    {
        self.text = None;
        self.text_hash = None;
        self.metadata = None;
        self.text = Some(string_bytes(&item.text));
        match &item.metadata {
            Some(metadata) => {
                let h = text_hash(item.text.as_str());
                self.text_hash = Some(hash_to_be_bytes(h));
                self.metadata = Some(string_bytes(metadata));
            },
            None => {},
        }
    }

    /// Reads the item back: the text decoded lossily, with the metadata only
    /// where the stored hash is that of the text now present.
    pub fn read_from_clipboard(&self) -> (r: Option<ClipboardItem>)
        ensures
            option_item_view(r) == item_from(self@),
    {
        match &self.text {
            None => None,
            Some(text_bytes) => {
                let text = decode_lossy(text_bytes.as_slice());
                let hash = match &self.text_hash {
                    Some(b) => hash_from_be_bytes(b.as_slice()),
                    None => None,
                };
                let metadata = match &self.metadata {
                    Some(b) => decode_strict(b.as_slice()),
                    None => None,
                };
                let current = text_hash(text.as_str());
                let metadata = match (hash, metadata) {
                    (Some(h), Some(m)) => if h == current {
                        Some(m)
                    } else {
                        None
                    },
                    _ => None,
                };
                Some(ClipboardItem { text, metadata })
            },
        }
    }
}

/// Writing an item and reading it back gives the same text and metadata.
pub proof fn lemma_clipboard_round_trip(item: ClipboardItemView)
    ensures
        item_from(slots_for(item)) == Some(item),
{
    lemma_be_round_trip(stable_hash(item.text));
    let p = slots_for(item);
    assert(lossy_text(encode_utf8(item.text)) == item.text);
    match item.metadata {
        Some(m) => {
            assert(metadata_matches(p, item.text));
            assert(decode_utf8(encode_utf8(m)) == m);
        },
        None => {},
    }
}

/// Where another process overwrites the text slot after an item was written,
/// leaving the hash and metadata slots, the read gives the new text with no
/// metadata, unless the new text has the same hash as the old one.
pub proof fn lemma_overwritten_text_drops_metadata(item: ClipboardItemView, other: Seq<u8>)
    requires
        stable_hash(lossy_text(other)) != stable_hash(item.text),
    ensures
        item_from(PasteboardView { text: Some(other), ..slots_for(item) }) == Some(
            ClipboardItemView { text: lossy_text(other), metadata: None },
        ),
{
    lemma_be_round_trip(stable_hash(item.text));
}

/// A clipboard whose text slot was never set holds no item.
pub proof fn lemma_empty_clipboard(p: PasteboardView)
    requires
        p.text is None,
    ensures
        item_from(p) is None,
{
}

} // verus!
