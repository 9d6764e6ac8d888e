use vstd::prelude::*;

verus! {

/// The kind of a line in a line diff.
#[derive(Clone, Copy, Debug, PartialEq, Eq, Structural)]
pub enum Tag {
    /// A line present in both texts.
    Equal,
    /// A line present only in the other text.
    Insert,
    /// A line present only in the original text.
    Delete,
}

/// One line of a line diff, with its line ending.
#[derive(Clone, Debug)]
pub struct Segment {
    pub tag: Tag,
    pub text: String,
}

impl View for Segment {
    type V = (Tag, Seq<char>);

    open spec fn view(&self) -> (Tag, Seq<char>) {
        (self.tag, self.text@)
    }
}

/// The mathematical value of a list of segments.
pub open spec fn segments_view(s: Seq<Segment>) -> Seq<(Tag, Seq<char>)> {
    s.map_values(|x: Segment| x@)
}

/// The text spelled by the segments tagged `Equal` or `side`, in order.
pub open spec fn side_text(segs: Seq<(Tag, Seq<char>)>, side: Tag) -> Seq<char>
    decreases segs.len(),
{
    if segs.len() == 0 {
        Seq::empty()
    } else {
        let last = segs.last();
        let rest = side_text(segs.drop_last(), side);
        if last.0 == Tag::Equal || last.0 == side {
            rest + last.1
        } else {
            rest
        }
    }
}

/// The line diff of two texts, as similar's line diff computes it.
pub uninterp spec fn line_diff(original: Seq<char>, other: Seq<char>) -> Seq<(Tag, Seq<char>)>;

/// Relies on `similar::TextDiff::from_lines` and `TextDiff::iter_all_changes`:
/// the changes depend on the two texts alone, and every line of each text
/// appears once, in order, so that the `Equal` and `Delete` values spell the
/// original text and the `Equal` and `Insert` values spell the other one.
/// Matching runs at the start are emitted as they are (the prefix trimming
/// of its algorithms), so two equal texts give `Equal` lines only.
#[verifier::external_body]
fn line_changes(original: &str, other: &str) -> (r: Vec<Segment>)
    ensures
        segments_view(r@) == line_diff(original@, other@),
        side_text(segments_view(r@), Tag::Delete) == original@,
        side_text(segments_view(r@), Tag::Insert) == other@,
        original@ == other@ ==> all_equal(segments_view(r@)),
{
    let diff = similar::TextDiff::from_lines(original, other);
    let mut r = Vec::new();
    for change in diff.iter_all_changes() {
        let tag = match change.tag() {
            similar::ChangeTag::Equal => Tag::Equal,
            similar::ChangeTag::Insert => Tag::Insert,
            similar::ChangeTag::Delete => Tag::Delete,
        };
        r.push(Segment { tag, text: change.value().to_string() });
    }
    r
}

/// Computes the line diff of `original` against `other`.
pub fn diff_lines(original: &str, other: &str) -> (r: Vec<Segment>)
    ensures
        segments_view(r@) == line_diff(original@, other@),
        side_text(segments_view(r@), Tag::Delete) == original@,
        side_text(segments_view(r@), Tag::Insert) == other@,
        original@ == other@ ==> all_equal(segments_view(r@)),
{
    line_changes(original, other)
}

/// Whether every segment is tagged `Equal`.
pub open spec fn all_equal(segs: Seq<(Tag, Seq<char>)>) -> bool {
    forall|i: int| 0 <= i < segs.len() ==> (#[trigger] segs[i]).0 == Tag::Equal
}

/// Tells whether a list of segments holds no change at all.
pub fn is_unchanged(segments: &Vec<Segment>) -> (r: bool)
    ensures
        r == all_equal(segments_view(segments@)),
{
    let mut i: usize = 0;
    while i < segments.len()
        invariant
            i <= segments.len(),
            all_equal(segments_view(segments@.take(i as int))),
        decreases segments.len() - i,
    {
        if segments[i].tag != Tag::Equal {
            assert(segments_view(segments@)[i as int].0 != Tag::Equal);
            return false;
        }
        assert(segments_view(segments@.take(i + 1)) =~= segments_view(segments@.take(i as int)).push(segments@[i as int]@));
        i = i + 1;
    }
    assert(segments@.take(i as int) =~= segments@);
    true
}

/// The glyph that stands before a line of the given kind.
pub open spec fn prefix_of(tag: Tag) -> char {
    match tag {
        Tag::Equal => ' ',
        Tag::Insert => '+',
        Tag::Delete => '-',
    }
}

/// The glyph that stands before a line of the given kind.
pub fn tag_prefix(tag: Tag) -> (r: char)
    ensures
        r == prefix_of(tag),
{
    match tag {
        Tag::Equal => ' ',
        Tag::Insert => '+',
        Tag::Delete => '-',
    }
}

/// The colour in which a line of a given kind is shown.
#[derive(Clone, Copy, Debug, PartialEq, Eq, Structural)]
pub enum Color {
    Plain,
    Green,
    Red,
}

/// The colour of a line of the given kind: additions green, removals red.
pub open spec fn color_of(tag: Tag) -> Color {
    match tag {
        Tag::Equal => Color::Plain,
        Tag::Insert => Color::Green,
        Tag::Delete => Color::Red,
    }
}

/// The colour of a line of the given kind.
pub fn tag_style(tag: Tag) -> (r: Color)
    ensures
        r == color_of(tag),
{
    match tag {
        Tag::Equal => Color::Plain,
        Tag::Insert => Color::Green,
        Tag::Delete => Color::Red,
    }
}

/// Whether `c` is ASCII white space: space, tab, line feed, form feed or
/// carriage return.
pub open spec fn is_ascii_space(c: char) -> bool {
    c == ' ' || c == '\t' || c == '\n' || c == '\x0C' || c == '\r'
}

/// `s` without its trailing ASCII white space: the longest prefix of `s`
/// after which only ASCII white space follows.
pub open spec fn trimmed_end(s: Seq<char>, r: Seq<char>) -> bool {
    &&& r.len() <= s.len()
    &&& r == s.take(r.len() as int)
    &&& forall|i: int| r.len() <= i < s.len() ==> is_ascii_space(#[trigger] s[i])
    &&& (r.len() == 0 || !is_ascii_space(r.last()))
}

/// Relies on `str::trim_ascii_end`: removes the trailing ASCII white space.
#[verifier::external_body]
fn trim_end(s: &str) -> (r: &str)
    ensures
        trimmed_end(s@, r@),
{
    s.trim_ascii_end()
}

/// The text of a line as it is shown: without its line ending or any other
/// trailing white space.
pub fn display_text(text: &str) -> (r: &str)
    ensures
        trimmed_end(text@, r@),
{
    trim_end(text)
}

} // verus!
