//! UI generation.
//!
//! Creates nodes for generated content and for notes.

use crate::canvas::node::{Node, NodeId, NodeType, NodeTypeView, NodeView};
use crate::scalar::Scalar;
use vstd::prelude::*;
use vstd::string::StrSliceExecFns;
use vstd::string::StringExecFns;
use vstd::string::StringSliceAdditionalSpecFns;
use vstd::utf8::{decode_utf8, encode_utf8, is_char_boundary, valid_utf8};

verus! {

broadcast use vstd::string::group_string_axioms;

/// The id of the first node that a generator makes.
pub const FIRST_NODE_ID: NodeId = 1000;

/// The length in bytes to which the label of a generated node is cut.
pub const LABEL_LENGTH: usize = 30;

/// The bit pattern of the width of a generated node, `400.0`.
pub const GENERATED_WIDTH_BITS: u64 = 0x4079_0000_0000_0000;

/// The bit pattern of the height of a generated node, `300.0`.
pub const GENERATED_HEIGHT_BITS: u64 = 0x4072_C000_0000_0000;

/// The bit pattern of the width of a note, `300.0`.
pub const NOTE_WIDTH_BITS: u64 = 0x4072_C000_0000_0000;

/// The bit pattern of the height of a note, `200.0`.
pub const NOTE_HEIGHT_BITS: u64 = 0x4069_0000_0000_0000;

/// The last character boundary of `bytes` at or before `target`, zero if
/// there is no other.
pub open spec fn boundary_at_or_before(bytes: Seq<u8>, target: int) -> int
    decreases target,
{
    if target <= 0 {
        0
    } else if is_char_boundary(bytes, target) {
        target
    } else {
        boundary_at_or_before(bytes, target - 1)
    }
}

/// The text cut to at most `max_len` bytes.
///
/// A text that fits is left as it is. A longer one is cut at the last
/// character boundary that leaves room for three dots, which take the
/// place of what was cut. A limit below four has no room for dots: then the
/// first `max_len` characters are kept.
pub open spec fn spec_truncate(s: Seq<char>, max_len: usize) -> Seq<char> {
    let bytes = encode_utf8(s);
    if max_len < 4 {
        if s.len() <= max_len {
            s
        } else {
            s.take(max_len as int)
        }
    } else if bytes.len() <= max_len {
        s
    } else {
        let end = boundary_at_or_before(bytes, max_len - 3);
        decode_utf8(bytes.subrange(0, end)) + "..."@
    }
}

/// Safely truncate a string respecting UTF-8 character boundaries.
pub fn truncate(s: &str, max_len: usize) -> (cut: String)
    ensures
        cut@ == spec_truncate(s@, max_len),
{
    if max_len < 4 {
        let chars = s.unicode_len();
        let keep = if chars <= max_len { chars } else { max_len };
        let head = s.substring_char(0, keep);
        assert(s@.subrange(0, s@.len() as int) =~= s@);
        return head.to_owned();
    }
    let bytes = s.as_bytes();
    if bytes.len() <= max_len {
        return s.to_owned();
    }
    // Find a valid UTF-8 boundary for truncation
    let target = max_len - 3;
    let mut end = target;
    // Walk back to find a valid char boundary
    while end > 0 && !s.is_char_boundary(end)
        invariant
            end <= target,
            boundary_at_or_before(s.spec_bytes(), target as int) == boundary_at_or_before(
                s.spec_bytes(),
                end as int,
            ),
        decreases end,
    {
        end -= 1;
    }
    if end == 0 {
        proof {
            assert(s.spec_bytes().subrange(0, 0) =~= Seq::<u8>::empty());
            assert(decode_utf8(Seq::<u8>::empty()) =~= Seq::<char>::empty());
            assert(Seq::<char>::empty() + "..."@ =~= "..."@);
        }
        return "...".to_owned();
    }
    let (head, _) = s.split_at(end);
    proof {
        vstd::utf8::encode_utf8_decode_utf8(head@);
    }
    String::from_str(head).concat("...")
}

/// The encoding of two texts, one after the other, is the encoding of the
/// first followed by the encoding of the second.
pub proof fn lemma_encode_concat(a: Seq<char>, b: Seq<char>)
    ensures
        encode_utf8(a + b) == encode_utf8(a) + encode_utf8(b),
    decreases a.len(),
{
    if a.len() == 0 {
        assert(a + b =~= b);
        assert(encode_utf8(a) + encode_utf8(b) =~= encode_utf8(b));
    } else {
        lemma_encode_concat(a.drop_first(), b);
        assert((a + b).drop_first() =~= a.drop_first() + b);
        assert(encode_utf8(a + b) =~= encode_utf8(a) + encode_utf8(b));
    }
}

/// The place where a text is cut is a character boundary at or before the
/// target.
pub proof fn lemma_boundary_at_or_before(bytes: Seq<u8>, target: int)
    requires
        valid_utf8(bytes),
    ensures
        is_char_boundary(bytes, boundary_at_or_before(bytes, target)),
        0 <= boundary_at_or_before(bytes, target),
        target >= 0 ==> boundary_at_or_before(bytes, target) <= target,
    decreases target,
{
    if target > 0 && !is_char_boundary(bytes, target) {
        lemma_boundary_at_or_before(bytes, target - 1);
    }
}

/// A text that is too long, cut to a limit of four or more bytes, is a
/// prefix of the text followed by three dots, and it is within the limit.
pub proof fn lemma_truncate_is_dotted_prefix(s: Seq<char>, max_len: usize)
    requires
        max_len >= 4,
        encode_utf8(s).len() > max_len,
    ensures
        exists|k: int| 0 <= k <= s.len() && #[trigger] s.take(k) + "..."@ == spec_truncate(s, max_len),
        encode_utf8(spec_truncate(s, max_len)).len() <= max_len,
{
    let bytes = encode_utf8(s);
    let end = boundary_at_or_before(bytes, max_len - 3);
    let head = bytes.subrange(0, end);
    vstd::utf8::encode_utf8_valid_utf8(s);
    lemma_boundary_at_or_before(bytes, max_len - 3);
    vstd::utf8::valid_utf8_split(bytes, end);
    vstd::utf8::decode_utf8_split(bytes, end);
    vstd::utf8::encode_utf8_decode_utf8(s);
    vstd::utf8::decode_utf8_encode_utf8(head);
    let kept = decode_utf8(head);
    assert(s.take(kept.len() as int) =~= kept);
    lemma_encode_concat(kept, "..."@);
    assert(encode_utf8("..."@).len() == 3) by {
        reveal_strlit("...");
        reveal_with_fuel(encode_utf8, 5);
    }
}

/// Makes nodes, each with an id of its own.
pub struct UiGenerator {
    next_node_id: NodeId,
}

impl UiGenerator {
    /// The id that the next node gets.
    pub closed spec fn next_id(&self) -> NodeId {
        self.next_node_id
    }

    /// The value of a node generated for `content` at `(x, y)`.
    pub open spec fn generated(id: NodeId, content: Seq<char>, x: Scalar, y: Scalar) -> NodeView {
        NodeView {
            id,
            node_type: NodeTypeView::Generated { content },
            x,
            y,
            width: Scalar { bits: GENERATED_WIDTH_BITS },
            height: Scalar { bits: GENERATED_HEIGHT_BITS },
            scale: Scalar { bits: crate::canvas::node::DEFAULT_SCALE_BITS },
            label: Some(spec_truncate(content, LABEL_LENGTH)),
        }
    }

    /// The value of a note with `text` at `(x, y)`.
    pub open spec fn note(id: NodeId, text: Seq<char>, x: Scalar, y: Scalar) -> NodeView {
        NodeView {
            id,
            node_type: NodeTypeView::Note { text },
            x,
            y,
            width: Scalar { bits: NOTE_WIDTH_BITS },
            height: Scalar { bits: NOTE_HEIGHT_BITS },
            scale: Scalar { bits: crate::canvas::node::DEFAULT_SCALE_BITS },
            label: None,
        }
    }

    /// A generator whose first node gets the id [`FIRST_NODE_ID`].
    pub fn new() -> (generator: UiGenerator)
        ensures
            generator.next_id() == FIRST_NODE_ID,
    {
        UiGenerator { next_node_id: FIRST_NODE_ID }
    }

    /// Hands out the next id, unless it is `u64::MAX`: that one is never
    /// handed out, and the generator is exhausted.
    pub fn allocate_node_id(&mut self) -> (id: Option<NodeId>)
        ensures
            match id {
                Some(id) => id == old(self).next_id() && id < u64::MAX && final(self).next_id()
                    == id + 1,
                None => old(self).next_id() == u64::MAX && final(self).next_id() == u64::MAX,
            },
    {
        let id = self.next_node_id;
        match self.next_node_id.checked_add(1) {
            Some(next) => {
                self.next_node_id = next;
                Some(id)
            },
            None => None,
        }
    }

    /// Generate a node from content.
    ///
    /// The node shows the content, is 400 by 300 and is labelled with the
    /// start of the content. An exhausted generator makes nothing.
    pub fn generate_node(&mut self, content: &str, x: Scalar, y: Scalar) -> (node: Option<Node>)
        ensures
            match node {
                Some(node) => {
                    &&& old(self).next_id() < u64::MAX
                    &&& final(self).next_id() == old(self).next_id() + 1
                    &&& node@ == Self::generated(old(self).next_id(), content@, x, y)
                },
                None => old(self).next_id() == u64::MAX && final(self).next_id() == u64::MAX,
            },
    {
        let id = match self.allocate_node_id() {
            Some(id) => id,
            None => {
                return None;
            },
        };
        let label = truncate(content, LABEL_LENGTH);
        Some(
            Node::new(id, NodeType::Generated { content: content.to_owned() }, x, y).with_size(
                Scalar { bits: GENERATED_WIDTH_BITS },
                Scalar { bits: GENERATED_HEIGHT_BITS },
            ).with_label(label.as_str()),
        )
    }

    /// Generate a note node.
    ///
    /// The node shows the text and is 300 by 200. An exhausted generator
    /// makes nothing.
    pub fn generate_note(&mut self, text: &str, x: Scalar, y: Scalar) -> (node: Option<Node>)
        ensures
            match node {
                Some(node) => {
                    &&& old(self).next_id() < u64::MAX
                    &&& final(self).next_id() == old(self).next_id() + 1
                    &&& node@ == Self::note(old(self).next_id(), text@, x, y)
                },
                None => old(self).next_id() == u64::MAX && final(self).next_id() == u64::MAX,
            },
    {
        let id = match self.allocate_node_id() {
            Some(id) => id,
            None => {
                return None;
            },
        };
        Some(
            Node::new(id, NodeType::Note { text: text.to_owned() }, x, y).with_size(
                Scalar { bits: NOTE_WIDTH_BITS },
                Scalar { bits: NOTE_HEIGHT_BITS },
            ),
        )
    }
}

impl Default for UiGenerator {
    fn default() -> (generator: UiGenerator)
        ensures
            generator.next_id() == FIRST_NODE_ID,
    {
        UiGenerator::new()
    }
}

} // verus!
