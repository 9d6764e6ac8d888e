use vstd::prelude::*;

verus! {

/// The lines of a text, as `str::lines` splits it.
pub uninterp spec fn lines_of(text: Seq<char>) -> Seq<Seq<char>>;

/// The words of a line, as `str::split_whitespace` splits it.
pub uninterp spec fn words_of(line: Seq<char>) -> Seq<Seq<char>>;

/// The mathematical value of a list of strings.
pub open spec fn strings_view(v: Seq<String>) -> Seq<Seq<char>> {
    v.map_values(|s: String| s@)
}

/// Relies on `str::lines`: the lines of a text, without their line endings,
/// depend on the text alone.
#[verifier::external_body]
fn split_lines(text: &str) -> (r: Vec<String>)
    ensures
        strings_view(r@) == lines_of(text@),
{
    text.lines().map(|line| line.to_string()).collect()
}

/// Relies on `str::split_whitespace`: the words of a line depend on the line
/// alone.
#[verifier::external_body]
fn split_words(line: &str) -> (r: Vec<String>)
    ensures
        strings_view(r@) == words_of(line@),
{
    line.split_whitespace().map(|word| word.to_string()).collect()
}

/// One line of the manifest: an original file and the files kept in step
/// with it.
#[derive(Clone, Debug)]
pub struct SyncEntry {
    pub original: String,
    pub others: Vec<String>,
}

impl View for SyncEntry {
    type V = (Seq<char>, Seq<Seq<char>>);

    open spec fn view(&self) -> (Seq<char>, Seq<Seq<char>>) {
        (self.original@, strings_view(self.others@))
    }
}

/// The entry that a line made of `words` gives: none for a blank line or a
/// comment (a first word that starts with `#`); otherwise the first word is
/// the original file and the others follow it.
pub open spec fn entry_of(words: Seq<Seq<char>>) -> Option<(Seq<char>, Seq<Seq<char>>)> {
    if words.len() == 0 || (words[0].len() > 0 && words[0][0] == '#') {
        None
    } else {
        Some((words[0], words.drop_first()))
    }
}

/// The entries of a manifest made of `lines`, in order.
pub open spec fn manifest_entries(lines: Seq<Seq<char>>) -> Seq<(Seq<char>, Seq<Seq<char>>)>
    decreases lines.len(),
{
    if lines.len() == 0 {
        Seq::empty()
    } else {
        let rest = manifest_entries(lines.drop_last());
        match entry_of(words_of(lines.last())) {
            Some(e) => rest.push(e),
            None => rest,
        }
    }
}

/// The entry of one line, if it holds one.
fn parse_line(line: &str) -> (r: Option<SyncEntry>)
    ensures
        match r {
            Some(e) => entry_of(words_of(line@)) == Some(e@),
            None => entry_of(words_of(line@)) is None,
        },
{
    let words = split_words(line);
    if words.len() == 0 {
        return None;
    }
    let first = &words[0];
    if first.as_str().unicode_len() > 0 && first.as_str().get_char(0) == '#' {
        return None;
    }
    let mut others: Vec<String> = Vec::new();
    let mut i: usize = 1;
    while i < words.len()
        invariant
            1 <= i <= words.len(),
            strings_view(others@) == strings_view(words@).subrange(1, i as int),
        decreases words.len() - i,
    {
        let ghost before = others@;
        others.push(words[i].clone());
        assert(strings_view(others@) =~= strings_view(before).push(words@[i as int]@));
        assert(strings_view(others@) =~= strings_view(words@).subrange(1, i + 1));
        i = i + 1;
    }
    assert(strings_view(words@).drop_first() =~= strings_view(words@).subrange(1, i as int));
    Some(SyncEntry { original: first.clone(), others })
}

/// Reads the manifest text: one entry per line that is neither blank nor a
/// comment, in the order of the lines.
pub fn read_configuration(text: &str) -> (r: Vec<SyncEntry>)
    ensures
        r@.map_values(|e: SyncEntry| e@) == manifest_entries(lines_of(text@)),
{
    let lines = split_lines(text);
    let mut entries: Vec<SyncEntry> = Vec::new();
    let mut i: usize = 0;
    while i < lines.len()
        invariant
            i <= lines.len(),
            strings_view(lines@) == lines_of(text@),
            entries@.map_values(|e: SyncEntry| e@) == manifest_entries(
                strings_view(lines@).take(i as int),
            ),
        decreases lines.len() - i,
    {
        let ghost before = entries@;
        let ghost taken = strings_view(lines@).take(i + 1);
        assert(taken.drop_last() =~= strings_view(lines@).take(i as int));
        assert(taken.last() == lines@[i as int]@);
        match parse_line(lines[i].as_str()) {
            Some(e) => {
                entries.push(e);
                assert(entries@.map_values(|e: SyncEntry| e@) =~= before.map_values(
                    |e: SyncEntry| e@,
                ).push(e@));
            },
            None => {},
        }
        i = i + 1;
    }
    assert(strings_view(lines@).take(i as int) =~= strings_view(lines@));
    entries
}

} // verus!
