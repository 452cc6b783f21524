//! Hint text markup: stars switch highlighting on and off.
use vstd::prelude::*;

verus! {

/// The byte that toggles highlighting.
pub const STAR: u8 = 42;

/// A run of text between stars, as a byte range `[start, end)`.
#[derive(Debug, Clone, Copy, PartialEq, Eq, Structural)]
pub struct Span {
    pub start: usize,
    pub end: usize,
    pub highlighted: bool,
}

/// Whether `spans` is the split of `text` at every star: the pieces between
/// stars in order, covering the text, none holding a star, every other one
/// highlighted starting with the second.
pub open spec fn is_markup_split(text: Seq<u8>, spans: Seq<Span>) -> bool {
    &&& spans.len() >= 1
    &&& spans[0].start == 0
    &&& spans.last().end == text.len()
    &&& forall|i: int|
        #![trigger spans[i]]
        0 <= i < spans.len() ==> {
            &&& spans[i].start <= spans[i].end <= text.len()
            &&& spans[i].highlighted == (i % 2 == 1)
            &&& forall|j: int| spans[i].start <= j < spans[i].end ==> text[j] != STAR
        }
    &&& forall|i: int|
        #![trigger spans[i + 1]]
        0 <= i < spans.len() - 1 ==> {
            &&& text[spans[i].end as int] == STAR
            &&& spans[i + 1].start == spans[i].end + 1
        }
}

/// Splits hint text at its stars. The first piece is plain, the next
/// highlighted, and so on; a text without stars is one plain piece.
pub fn markup_spans(text: &[u8]) -> (spans: Vec<Span>)
    ensures
        is_markup_split(text@, spans@),
{
    let mut spans: Vec<Span> = Vec::new();
    let mut start: usize = 0;
    let mut highlighted = false;
    let mut i: usize = 0;
    while i < text.len()
        invariant
            start <= i <= text@.len(),
            highlighted == (spans@.len() % 2 == 1),
            spans@.len() == 0 ==> start == 0,
            spans@.len() > 0 ==> spans@.last().end + 1 == start,
            spans@.len() > 0 ==> spans@[0].start == 0,
            forall|j: int| start <= j < i ==> text@[j] != STAR,
            forall|k: int|
                #![trigger spans@[k]]
                0 <= k < spans@.len() ==> {
                    &&& spans@[k].start <= spans@[k].end < text@.len()
                    &&& spans@[k].highlighted == (k % 2 == 1)
                    &&& text@[spans@[k].end as int] == STAR
                    &&& forall|j: int| spans@[k].start <= j < spans@[k].end ==> text@[j] != STAR
                },
            forall|k: int|
                #![trigger spans@[k + 1]]
                0 <= k < spans@.len() - 1 ==> spans@[k + 1].start == spans@[k].end + 1,
        decreases text@.len() - i,
    {
        if text[i] == STAR {
            spans.push(Span { start, end: i, highlighted });
            highlighted = !highlighted;
            start = i + 1;
        }
        i = i + 1;
    }
    let ghost before = spans@;
    spans.push(Span { start, end: text.len(), highlighted });
    proof {
        assert forall|k: int| 0 <= k < spans@.len() - 1 implies {
            &&& text@[spans@[k].end as int] == STAR
            &&& #[trigger] spans@[k + 1].start == spans@[k].end + 1
        } by {
            assert(spans@[k] == before[k]);
            if k + 1 < before.len() {
                assert(before[k + 1] == spans@[k + 1]);
            }
        }
        assert forall|k: int|
            #![trigger spans@[k]]
            0 <= k < spans@.len() implies {
                &&& spans@[k].start <= spans@[k].end <= text@.len()
                &&& spans@[k].highlighted == (k % 2 == 1)
                &&& forall|j: int| spans@[k].start <= j < spans@[k].end ==> text@[j] != STAR
            } by {
            if k < before.len() {
                assert(spans@[k] == before[k]);
            }
        }
    }
    spans
}

} // verus!
