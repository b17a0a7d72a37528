//! Text fragments: one styled run of text within an aggregate.

use vstd::prelude::*;

use crate::style::Color;
use crate::style::FontId;
use crate::style::Scale;

verus! {

/// A piece of text with optional color, font and font-scale overrides.
/// An override takes precedence over the aggregate's defaults at layout time;
/// an unset field falls back to them.
#[derive(Clone, Debug)]
pub struct TextFragment {
    /// The text itself; may be empty.
    pub text: String,
    /// Overrides the resolved default color for this run only.
    pub color: Option<Color>,
    /// Overrides the aggregate's default font.
    pub font_id: Option<FontId>,
    /// Overrides the aggregate's default scale.
    pub scale: Option<Scale>,
}

impl TextFragment {
    /// A fragment with no style overrides.
    pub fn new(text: String) -> (f: TextFragment)
        ensures
            f.text == text,
            f.color is None,
            f.font_id is None,
            f.scale is None,
    {
        TextFragment { text, color: None, font_id: None, scale: None }
    }

    /// A fragment with a color override.
    pub fn with_color(text: String, color: Color) -> (f: TextFragment)
        ensures
            f.text == text,
            f.color == Some(color),
            f.font_id is None,
            f.scale is None,
    {
        TextFragment { text, color: Some(color), font_id: None, scale: None }
    }

    /// A fragment with font and scale overrides.
    pub fn with_font(text: String, font_id: FontId, scale: Scale) -> (f: TextFragment)
        ensures
            f.text == text,
            f.color is None,
            f.font_id == Some(font_id),
            f.scale == Some(scale),
    {
        TextFragment { text, color: None, font_id: Some(font_id), scale: Some(scale) }
    }
}

impl Default for TextFragment {
    /// An empty fragment with no overrides.
    fn default() -> (f: TextFragment)
        ensures
            f.text@ == Seq::<char>::empty(),
            f.color is None,
            f.font_id is None,
            f.scale is None,
    {
        TextFragment { text: String::new(), color: None, font_id: None, scale: None }
    }
}

impl From<String> for TextFragment {
    /// Same as `new`.
    fn from(text: String) -> (f: TextFragment) {
        TextFragment { text, color: None, font_id: None, scale: None }
    }
}

impl vstd::std_specs::convert::FromSpecImpl<String> for TextFragment {
    open spec fn obeys_from_spec() -> bool {
        true
    }

    open spec fn from_spec(text: String) -> TextFragment {
        TextFragment { text, color: None, font_id: None, scale: None }
    }
}

impl From<(String, Color)> for TextFragment {
    /// Same as `with_color`.
    fn from(tuple: (String, Color)) -> (f: TextFragment) {
        TextFragment { text: tuple.0, color: Some(tuple.1), font_id: None, scale: None }
    }
}

impl vstd::std_specs::convert::FromSpecImpl<(String, Color)> for TextFragment {
    open spec fn obeys_from_spec() -> bool {
        true
    }

    open spec fn from_spec(tuple: (String, Color)) -> TextFragment {
        TextFragment { text: tuple.0, color: Some(tuple.1), font_id: None, scale: None }
    }
}

impl From<(String, FontId, Scale)> for TextFragment {
    /// Same as `with_font`.
    fn from(tuple: (String, FontId, Scale)) -> (f: TextFragment) {
        TextFragment { text: tuple.0, color: None, font_id: Some(tuple.1), scale: Some(tuple.2) }
    }
}

impl vstd::std_specs::convert::FromSpecImpl<(String, FontId, Scale)> for TextFragment {
    open spec fn obeys_from_spec() -> bool {
        true
    }

    open spec fn from_spec(tuple: (String, FontId, Scale)) -> TextFragment {
        TextFragment { text: tuple.0, color: None, font_id: Some(tuple.1), scale: Some(tuple.2) }
    }
}

/// The concatenation of the fragments' texts, in order, with no separators.
pub open spec fn concat_texts(frags: Seq<TextFragment>) -> Seq<char>
    decreases frags.len(),
{
    if frags.len() == 0 {
        Seq::empty()
    } else {
        concat_texts(frags.drop_last()) + frags.last().text@
    }
}

/// Appending a fragment to any fragment sequence appends exactly that
/// fragment's text to the concatenated contents.
pub proof fn lemma_concat_texts_push(frags: Seq<TextFragment>, f: TextFragment)
    ensures
        concat_texts(frags.push(f)) == concat_texts(frags) + f.text@,
{
    assert(frags.push(f).drop_last() =~= frags);
    assert(frags.push(f).last() == f);
}

/// Contents are concatenated strictly in fragment order: the contents of two
/// fragment sequences laid end to end are the contents of the first followed
/// by the contents of the second.
pub proof fn lemma_concat_texts_concat(a: Seq<TextFragment>, b: Seq<TextFragment>)
    ensures
        concat_texts(a + b) == concat_texts(a) + concat_texts(b),
    decreases b.len(),
{
    if b.len() == 0 {
        assert(a + b =~= a);
        assert(concat_texts(a) + concat_texts(b) =~= concat_texts(a));
    } else {
        lemma_concat_texts_concat(a, b.drop_last());
        assert((a + b).drop_last() =~= a + b.drop_last());
        assert((a + b).last() == b.last());
        assert(concat_texts(a) + concat_texts(b) =~= (concat_texts(a) + concat_texts(
            b.drop_last(),
        )) + b.last().text@);
    }
}

/// The concatenation over a one-longer prefix extends the concatenation over
/// the prefix by the next fragment's text.
pub proof fn lemma_concat_texts_take_step(frags: Seq<TextFragment>, i: int)
    requires
        0 <= i < frags.len(),
    ensures
        concat_texts(frags.take(i + 1)) == concat_texts(frags.take(i)) + frags[i].text@,
{
    assert(frags.take(i + 1).drop_last() =~= frags.take(i));
    assert(frags.take(i + 1).last() == frags[i]);
}

} // verus!
