use vstd::prelude::*;
use crate::keys::{Decision, decision_of, read_accept_input};
use crate::segment::{Segment, Tag, all_equal, diff_lines, is_unchanged, line_diff, segments_view, side_text};

verus! {

/// What a line contributes to the merged text: an unchanged line always, a
/// changed line only when it is accepted.
pub open spec fn kept(seg: (Tag, Seq<char>), accept: bool) -> Seq<char> {
    if seg.0 == Tag::Equal || accept {
        seg.1
    } else {
        Seq::empty()
    }
}

/// The merged text of the first `accepts.len()` segments, where `accepts[i]`
/// is the decision taken for segment `i`.
pub open spec fn merged(segs: Seq<(Tag, Seq<char>)>, accepts: Seq<bool>) -> Seq<char>
    decreases accepts.len(),
{
    if accepts.len() == 0 {
        Seq::empty()
    } else {
        let n = accepts.len() - 1;
        merged(segs, accepts.drop_last()) + kept(segs[n], accepts[n])
    }
}

/// Whether an inserted line was accepted among the decided segments.
pub open spec fn accepted_insert(segs: Seq<(Tag, Seq<char>)>, accepts: Seq<bool>) -> bool {
    exists|i: int| 0 <= i < accepts.len() && (#[trigger] segs[i]).0 == Tag::Insert && accepts[i]
}

/// What one step of a merge session did.
#[derive(Clone, Copy, Debug, PartialEq, Eq, Structural)]
pub enum Step {
    /// An unchanged line was taken over.
    Kept,
    /// A changed line was decided by the block decision in force.
    Applied(bool),
    /// The changed line of the given kind waits for a keypress.
    Ask(Tag),
    /// Every line has been decided.
    Finished,
}

/// How a merge session ended.
#[derive(Debug)]
pub enum SessionOutcome {
    /// The texts did not differ.
    Unchanged,
    /// Lines were decided, but the result is not to be saved.
    Discarded,
    /// The merged text, to be saved.
    Saved(String),
}

/// An interactive merge of a line diff: the segments are decided in order,
/// unchanged lines are kept, and a block decision answers for the following
/// lines of its kind until a line of another kind asks for a new decision.
pub struct MergeSession {
    segments: Vec<Segment>,
    next: usize,
    sticky: Option<(Tag, bool)>,
    result: String,
    changed: bool,
    accepts: Ghost<Seq<bool>>,
    original: Ghost<Seq<char>>,
    other: Ghost<Seq<char>>,
}

impl MergeSession {
    /// The segments of the diff.
    pub closed spec fn segs(&self) -> Seq<(Tag, Seq<char>)> {
        segments_view(self.segments@)
    }

    /// The decisions taken so far, one per segment from the first on.
    pub closed spec fn accepts(&self) -> Seq<bool> {
        self.accepts@
    }

    /// The block decision in force, with the kind of line it answers for.
    pub closed spec fn sticky(&self) -> Option<(Tag, bool)> {
        self.sticky
    }

    /// The original text of the diff.
    pub closed spec fn original_text(&self) -> Seq<char> {
        self.original@
    }

    /// The other text of the diff.
    pub closed spec fn other_text(&self) -> Seq<char> {
        self.other@
    }

    /// The merged text built so far.
    pub closed spec fn result_text(&self) -> Seq<char> {
        self.result@
    }

    /// The index of the next segment to decide.
    pub open spec fn position(&self) -> int {
        self.accepts().len() as int
    }

    /// Whether every segment has been decided.
    pub open spec fn is_done(&self) -> bool {
        self.position() == self.segs().len()
    }

    /// Whether the next segment is a changed line that no block decision
    /// covers, so that a keypress must decide it.
    pub open spec fn asks(&self) -> bool {
        &&& self.position() < self.segs().len()
        &&& self.segs()[self.position()].0 != Tag::Equal
        &&& match self.sticky() {
            Some(s) => s.0 != self.segs()[self.position()].0,
            None => true,
        }
    }

    /// The session's invariant.
    pub closed spec fn wf(&self) -> bool {
        &&& self.next == self.accepts@.len()
        &&& self.next <= self.segments@.len()
        &&& self.result@ == merged(self.segs(), self.accepts@)
        &&& self.changed == accepted_insert(self.segs(), self.accepts@)
        &&& side_text(self.segs(), Tag::Delete) == self.original@
        &&& side_text(self.segs(), Tag::Insert) == self.other@
        &&& match self.sticky {
            Some(s) => s.0 != Tag::Equal,
            None => true,
        }
    }
}

proof fn lemma_merged_push(segs: Seq<(Tag, Seq<char>)>, accepts: Seq<bool>, a: bool)
    ensures
        merged(segs, accepts.push(a)) == merged(segs, accepts) + kept(segs[accepts.len() as int], a),
{
    assert(accepts.push(a).drop_last() =~= accepts);
}

proof fn lemma_accepted_insert_push(segs: Seq<(Tag, Seq<char>)>, accepts: Seq<bool>, a: bool)
    ensures
        accepted_insert(segs, accepts.push(a)) == (accepted_insert(segs, accepts) || (
        segs[accepts.len() as int].0 == Tag::Insert && a)),
{
    let n = accepts.len() as int;
    let p = accepts.push(a);
    if accepted_insert(segs, accepts) {
        let i = choose|i: int| 0 <= i < accepts.len() && (#[trigger] segs[i]).0 == Tag::Insert && accepts[i];
        assert(p[i] == accepts[i]);
    }
    if segs[n].0 == Tag::Insert && a {
        assert(p[n] == a);
    }
    if accepted_insert(segs, p) {
        let i = choose|i: int| 0 <= i < p.len() && (#[trigger] segs[i]).0 == Tag::Insert && p[i];
        if i < n {
            assert(accepts[i] == p[i]);
        }
    }
}

/// When every changed line is accepted exactly if it is of kind `side`, the
/// merged text is the text of the unchanged lines and the lines of kind `side`.
proof fn lemma_merged_is_side(segs: Seq<(Tag, Seq<char>)>, accepts: Seq<bool>, side: Tag)
    requires
        accepts.len() <= segs.len(),
        forall|i: int|
            0 <= i < accepts.len() && (#[trigger] segs[i]).0 != Tag::Equal ==> accepts[i] == (
            segs[i].0 == side),
    ensures
        merged(segs, accepts) == side_text(segs.take(accepts.len() as int), side),
    decreases accepts.len(),
{
    if accepts.len() > 0 {
        let n = accepts.len() - 1;
        lemma_merged_is_side(segs, accepts.drop_last(), side);
        assert(segs.take(accepts.len() as int).drop_last() =~= segs.take(n));
        assert(segs.take(accepts.len() as int).last() == segs[n]);
    }
}

/// Accepting every inserted line and rejecting every deleted one rebuilds the
/// other text exactly.
pub proof fn lemma_accept_insertions_gives_other(s: &MergeSession)
    requires
        s.wf(),
        s.is_done(),
        forall|i: int|
            0 <= i < s.segs().len() ==> ((#[trigger] s.segs()[i]).0 == Tag::Insert ==> s.accepts()[i])
                && (s.segs()[i].0 == Tag::Delete ==> !s.accepts()[i]),
    ensures
        merged(s.segs(), s.accepts()) == s.other_text(),
{
    lemma_merged_is_side(s.segs(), s.accepts(), Tag::Insert);
    assert(s.segs().take(s.accepts().len() as int) =~= s.segs());
}

/// Rejecting every inserted line and accepting every deleted one gives back
/// the original text exactly.
pub proof fn lemma_reject_insertions_gives_original(s: &MergeSession)
    requires
        s.wf(),
        s.is_done(),
        forall|i: int|
            0 <= i < s.segs().len() ==> ((#[trigger] s.segs()[i]).0 == Tag::Insert ==> !s.accepts()[i])
                && (s.segs()[i].0 == Tag::Delete ==> s.accepts()[i]),
    ensures
        merged(s.segs(), s.accepts()) == s.original_text(),
{
    lemma_merged_is_side(s.segs(), s.accepts(), Tag::Delete);
    assert(s.segs().take(s.accepts().len() as int) =~= s.segs());
}

/// Rejecting every changed line leaves only the unchanged lines, in order.
pub proof fn lemma_reject_all_keeps_unchanged_lines(s: &MergeSession)
    requires
        s.wf(),
        s.is_done(),
        forall|i: int| 0 <= i < s.segs().len() && (#[trigger] s.segs()[i]).0 != Tag::Equal ==> !s.accepts()[i],
    ensures
        merged(s.segs(), s.accepts()) == side_text(s.segs(), Tag::Equal),
{
    lemma_merged_is_side(s.segs(), s.accepts(), Tag::Equal);
    assert(s.segs().take(s.accepts().len() as int) =~= s.segs());
}

/// A session never asks to save unless an inserted line was accepted, so a
/// session in which only deleted lines were decided ends discarded.
pub proof fn lemma_save_needs_accepted_insert(s: &MergeSession)
    requires
        s.wf(),
        forall|i: int| 0 <= i < s.accepts().len() ==> (#[trigger] s.segs()[i]).0 != Tag::Insert,
    ensures
        !accepted_insert(s.segs(), s.accepts()),
{
}

impl MergeSession {
    /// Diffs `original` against `other` line by line. Returns `None` when
    /// every line is unchanged, which is so whenever the two texts are equal;
    /// otherwise a session over the diff with
    /// nothing decided yet.
    pub fn start(original: &str, other: &str) -> (r: Option<MergeSession>)
        ensures
            r is None <==> all_equal(line_diff(original@, other@)),
            original@ == other@ ==> r is None,
            r matches Some(s) ==> {
                &&& s.wf()
                &&& s.segs() == line_diff(original@, other@)
                &&& s.accepts() == Seq::<bool>::empty()
                &&& s.sticky() is None
                &&& s.result_text() == Seq::<char>::empty()
                &&& s.original_text() == original@
                &&& s.other_text() == other@
            },
    {
        let segments = diff_lines(original, other);
        if is_unchanged(&segments) {
            None
        } else {
            let s = MergeSession {
                segments,
                next: 0,
                sticky: None,
                result: String::new(),
                changed: false,
                accepts: Ghost(Seq::empty()),
                original: Ghost(original@),
                other: Ghost(other@),
            };
            Some(s)
        }
    }

    /// The segments of the diff, for display.
    pub fn segments(&self) -> (r: &Vec<Segment>)
        ensures
            segments_view(r@) == self.segs(),
    {
        &self.segments
    }

    /// The segment to decide next.
    pub fn current(&self) -> (r: &Segment)
        requires
            self.wf(),
            self.position() < self.segs().len(),
        ensures
            r@ == self.segs()[self.position()],
    {
        &self.segments[self.next]
    }

    /// How many segments have been decided.
    pub fn decided(&self) -> (r: usize)
        requires
            self.wf(),
        ensures
            r == self.position(),
    {
        self.next
    }

    /// The merged text built so far.
    pub fn result(&self) -> (r: &String)
        ensures
            r@ == self.result_text(),
    {
        &self.result
    }

    /// Takes the next segment as far as no keypress is needed: an unchanged
    /// line is kept, a changed line under a block decision of its kind gets
    /// that decision. A changed line without one is reported and left waiting.
    pub fn step(&mut self) -> (r: Step)
        requires
            old(self).wf(),
        ensures
            final(self).wf(),
            final(self).segs() == old(self).segs(),
            final(self).original_text() == old(self).original_text(),
            final(self).other_text() == old(self).other_text(),
            final(self).sticky() == old(self).sticky(),
            old(self).is_done() ==> r == Step::Finished && final(self).accepts() == old(self).accepts(),
            old(self).asks() ==> r == Step::Ask(old(self).segs()[old(self).position()].0)
                && final(self).accepts() == old(self).accepts(),
            !old(self).is_done() && old(self).segs()[old(self).position()].0 == Tag::Equal ==> r
                == Step::Kept && final(self).accepts() == old(self).accepts().push(true),
            !old(self).is_done() && !old(self).asks() && old(self).segs()[old(self).position()].0
                != Tag::Equal ==> (old(self).sticky() matches Some(s) && s.0 == old(self).segs()[old(
                self,
            ).position()].0 && r == Step::Applied(s.1) && final(self).accepts() == old(
                self,
            ).accepts().push(s.1)),
    {
        if self.next >= self.segments.len() {
            return Step::Finished;
        }
        let tag = self.segments[self.next].tag;
        let accept = if tag == Tag::Equal {
            true
        } else {
            match self.sticky {
                Some((t, a)) => {
                    if t == tag {
                        a
                    } else {
                        return Step::Ask(tag);
                    }
                },
                None => {
                    return Step::Ask(tag);
                },
            }
        };
        self.take(accept);
        if tag == Tag::Equal {
            Step::Kept
        } else {
            Step::Applied(accept)
        }
    }

    /// Records the decision `accept` for the next segment.
    fn take(&mut self, accept: bool)
        requires
            old(self).wf(),
            old(self).position() < old(self).segs().len(),
        ensures
            final(self).wf(),
            final(self).segs() == old(self).segs(),
            final(self).original_text() == old(self).original_text(),
            final(self).other_text() == old(self).other_text(),
            final(self).sticky() == old(self).sticky(),
            final(self).accepts() == old(self).accepts().push(accept),
    {
        let ghost segs = self.segs();
        let ghost before = self.accepts@;
        proof {
            lemma_merged_push(segs, before, accept);
            lemma_accepted_insert_push(segs, before, accept);
        }
        assert(self.segments@.len() == segs.len());
        let len = self.segments.len();
        let i = self.next;
        assert(i < len);
        let tag = self.segments[i].tag;
        if tag == Tag::Equal || accept {
            self.result.append(self.segments[i].text.as_str());
        }
        if tag == Tag::Insert && accept {
            self.changed = true;
        }
        self.next = i + 1;
        self.accepts = Ghost(before.push(accept));
    }

    /// Decides the waiting changed line by the key `key` of the line prompt.
    /// A key without meaning leaves everything as it was and returns `None`.
    /// Otherwise the line is decided, and a block key makes its decision the
    /// one in force for the following lines of the same kind, while a
    /// single-line key leaves none in force.
    pub fn decide(&mut self, key: char) -> (r: Option<bool>)
        requires
            old(self).wf(),
            old(self).asks(),
        ensures
            final(self).wf(),
            final(self).segs() == old(self).segs(),
            final(self).original_text() == old(self).original_text(),
            final(self).other_text() == old(self).other_text(),
            decision_of(key) is None ==> r is None && final(self).accepts() == old(self).accepts()
                && final(self).sticky() == old(self).sticky(),
            decision_of(key) matches Some(d) ==> {
                &&& r == Some(d.accept)
                &&& final(self).accepts() == old(self).accepts().push(d.accept)
                &&& final(self).sticky() == if d.block {
                    Some((old(self).segs()[old(self).position()].0, d.accept))
                } else {
                    None
                }
            },
    {
        match read_accept_input(key) {
            None => None,
            Some(d) => {
                let tag = self.segments[self.next].tag;
                self.take(d.accept);
                self.sticky = if d.block {
                    Some((tag, d.accept))
                } else {
                    None
                };
                Some(d.accept)
            },
        }
    }

    /// Whether the session asks to save: only when an inserted line was
    /// accepted. Deleted lines alone never lead to a save.
    pub fn wants_save(&self) -> (r: bool)
        requires
            self.wf(),
        ensures
            r == accepted_insert(self.segs(), self.accepts()),
    {
        self.changed
    }

    /// Ends a finished session: the merged text is to be saved when an
    /// inserted line was accepted and the save prompt said so.
    pub fn finish(self, save: bool) -> (r: SessionOutcome)
        requires
            self.wf(),
            self.is_done(),
        ensures
            accepted_insert(self.segs(), self.accepts()) && save ==> (r matches SessionOutcome::Saved(
                t) && t@ == merged(self.segs(), self.accepts())),
            !(accepted_insert(self.segs(), self.accepts()) && save) ==> (r is Discarded),
    {
        if self.changed && save {
            SessionOutcome::Saved(self.result)
        } else {
            SessionOutcome::Discarded
        }
    }
}

} // verus!
