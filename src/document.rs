use vstd::prelude::*;

use crate::position::Position;
use crate::row::{row_deleted, row_inserted, split_point, Row};

verus! {

/// The pieces of `text` between line breaks, in order; there is always at
/// least one, and the last is what follows the last break.
pub open spec fn segments(text: Seq<char>) -> Seq<Seq<char>>
    decreases text.len(),
{
    if text.len() == 0 {
        seq![Seq::<char>::empty()]
    } else {
        let s = segments(text.drop_last());
        if text.last() == '\n' {
            s.push(Seq::<char>::empty())
        } else {
            s.update(s.len() - 1, s.last().push(text.last()))
        }
    }
}

/// The lines of `text`: the pieces between line breaks, where a final line
/// break ends the last line rather than starting an empty one.
pub open spec fn lines_of(text: Seq<char>) -> Seq<Seq<char>> {
    let s = segments(text);
    if s.last().len() == 0 {
        s.drop_last()
    } else {
        s
    }
}

/// The text of `rows` as it is stored: each row followed by a line break.
pub open spec fn joined(rows: Seq<Seq<char>>) -> Seq<char>
    decreases rows.len(),
{
    if rows.len() == 0 {
        Seq::<char>::empty()
    } else {
        joined(rows.drop_last()) + rows.last() + seq!['\n']
    }
}

/// No row holds a line break.
pub open spec fn single_lines(rows: Seq<Seq<char>>) -> bool {
    forall|i: int, j: int| 0 <= i < rows.len() && 0 <= j < rows[i].len() ==> rows[i][j] != '\n'
}

/// The number of rows, and the length of each, fit in a `usize`.
pub open spec fn fits(rows: Seq<Seq<char>>) -> bool {
    &&& rows.len() <= usize::MAX
    &&& forall|i: int| 0 <= i < rows.len() ==> #[trigger] rows[i].len() <= usize::MAX
}

/// The length of row `y`, or 0 where there is no such row.
pub open spec fn row_len(rows: Seq<Seq<char>>, y: int) -> nat {
    if 0 <= y < rows.len() {
        rows[y].len()
    } else {
        0
    }
}

/// `rows` after typing `c` at `at`. A line break splits the row there (or
/// adds an empty row at the end); another character goes into the row, or
/// starts a new last row when `at` is one past the last row.
pub open spec fn doc_inserted(rows: Seq<Seq<char>>, at: Position, c: char) -> Seq<Seq<char>> {
    let y = at.y as int;
    if y > rows.len() {
        rows
    } else if y == rows.len() {
        if c == '\n' {
            rows.push(Seq::<char>::empty())
        } else {
            rows.push(seq![c])
        }
    } else if c == '\n' {
        let r = rows[y];
        let cut = split_point(r, at.x as int);
        rows.update(y, r.subrange(0, cut)).insert(y + 1, r.subrange(cut, r.len() as int))
    } else {
        rows.update(y, row_inserted(rows[y], at.x as int, c))
    }
}

/// `rows` after deleting at `at`: at the end of a row that has a successor,
/// the two rows merge; elsewhere the character at `at` goes, if there is one.
pub open spec fn doc_deleted(rows: Seq<Seq<char>>, at: Position) -> Seq<Seq<char>> {
    let y = at.y as int;
    if y >= rows.len() {
        rows
    } else if at.x == rows[y].len() && y + 1 < rows.len() {
        rows.update(y, rows[y] + rows[y + 1]).remove(y + 1)
    } else {
        rows.update(y, row_deleted(rows[y], at.x as int))
    }
}

proof fn lemma_segments_nonempty(t: Seq<char>)
    ensures
        segments(t).len() >= 1,
    decreases t.len(),
{
    if t.len() > 0 {
        lemma_segments_nonempty(t.drop_last());
    }
}

proof fn lemma_segments_extend(p: Seq<char>, q: Seq<char>)
    requires
        forall|j: int| 0 <= j < q.len() ==> q[j] != '\n',
    ensures
        segments(p + q) == segments(p).update(
            segments(p).len() - 1,
            segments(p).last() + q,
        ),
    decreases q.len(),
{
    let sp = segments(p);
    lemma_segments_nonempty(p);
    if q.len() == 0 {
        assert(p + q =~= p);
        assert(sp.last() + q =~= sp.last());
        assert(sp.update(sp.len() - 1, sp.last() + q) =~= sp);
    } else {
        let q0 = q.drop_last();
        lemma_segments_extend(p, q0);
        assert((p + q).drop_last() =~= p + q0);
        assert((p + q).last() == q.last());
        assert(q.last() != '\n');
        lemma_segments_nonempty(p + q0);
        let s0 = segments(p + q0);
        assert(segments(p + q) == s0.update(s0.len() - 1, s0.last().push(q.last())));
        assert(s0.last() == sp.last() + q0);
        assert((sp.last() + q0).push(q.last()) =~= sp.last() + q);
        assert(segments(p + q) =~= sp.update(sp.len() - 1, sp.last() + q));
    }
}

proof fn lemma_segments_joined(rows: Seq<Seq<char>>)
    requires
        single_lines(rows),
    ensures
        segments(joined(rows)) == rows.push(Seq::<char>::empty()),
    decreases rows.len(),
{
    if rows.len() > 0 {
        let init = rows.drop_last();
        assert(single_lines(init));
        lemma_segments_joined(init);
        let last = rows.last();
        assert forall|j: int| 0 <= j < last.len() implies last[j] != '\n' by {
            assert(rows[rows.len() - 1][j] != '\n');
        }
        lemma_segments_extend(joined(init), last);
        let body = joined(init) + last;
        assert((body + seq!['\n']).drop_last() =~= body);
        assert(Seq::<char>::empty() + last =~= last);
        assert(init.push(Seq::<char>::empty()).update(init.len() as int, last) =~= rows);
    }
}

proof fn lemma_segments_single(t: Seq<char>)
    ensures
        single_lines(segments(t)),
    decreases t.len(),
{
    if t.len() > 0 {
        lemma_segments_single(t.drop_last());
        lemma_segments_nonempty(t.drop_last());
    }
}

/// Reading text never puts a line break inside a row.
pub proof fn lemma_lines_single(t: Seq<char>)
    ensures
        single_lines(lines_of(t)),
{
    lemma_segments_single(t);
    lemma_segments_nonempty(t);
    let s = segments(t);
    let l = lines_of(t);
    assert forall|i: int, j: int| 0 <= i < l.len() && 0 <= j < l[i].len() implies l[i][j] != '\n' by {
        assert(l[i] == s[i]);
        assert(s[i][j] != '\n');
    }
}

/// Editing keeps line breaks out of the rows: typing one splits a row.
pub proof fn lemma_edits_single(rows: Seq<Seq<char>>, at: Position, c: char)
    requires
        single_lines(rows),
    ensures
        single_lines(doc_inserted(rows, at, c)),
        single_lines(doc_deleted(rows, at)),
{
    let y = at.y as int;
    if y < rows.len() {
        let ins = doc_inserted(rows, at, c);
        if c != '\n' {
            assert forall|i: int, j: int| 0 <= i < ins.len() && 0 <= j < ins[i].len() implies ins[i][j] != '\n' by {
                if i == y && at.x < rows[y].len() {
                    if j > at.x {
                        assert(ins[i][j] == rows[y][j - 1]);
                    } else if j < at.x {
                        assert(ins[i][j] == rows[y][j]);
                    }
                } else if i != y {
                    assert(ins[i] == rows[i]);
                }
            }
        } else {
            let cut = split_point(rows[y], at.x as int);
            assert forall|i: int, j: int| 0 <= i < ins.len() && 0 <= j < ins[i].len() implies ins[i][j] != '\n' by {
                if i == y {
                    assert(ins[i][j] == rows[y][j]);
                } else if i == y + 1 {
                    assert(ins[i][j] == rows[y][j + cut]);
                } else if i < y {
                    assert(ins[i] == rows[i]);
                } else {
                    assert(ins[i] == rows[i - 1]);
                }
            }
        }
        let del = doc_deleted(rows, at);
        if at.x == rows[y].len() && y + 1 < rows.len() {
            assert forall|i: int, j: int| 0 <= i < del.len() && 0 <= j < del[i].len() implies del[i][j] != '\n' by {
                if i == y {
                    if j < rows[y].len() {
                        assert(del[i][j] == rows[y][j]);
                    } else {
                        assert(del[i][j] == rows[y + 1][j - rows[y].len()]);
                    }
                } else if i < y {
                    assert(del[i] == rows[i]);
                } else {
                    assert(del[i] == rows[i + 1]);
                }
            }
        } else {
            assert forall|i: int, j: int| 0 <= i < del.len() && 0 <= j < del[i].len() implies del[i][j] != '\n' by {
                if i == y && at.x < rows[y].len() {
                    if j >= at.x {
                        assert(del[i][j] == rows[y][j + 1]);
                    } else {
                        assert(del[i][j] == rows[y][j]);
                    }
                } else if i != y {
                    assert(del[i] == rows[i]);
                }
            }
        }
    }
}

/// Storing a document and reading it back gives the same rows, provided no
/// row holds a line break (typing one splits the row instead).
pub proof fn lemma_lines_of_joined(rows: Seq<Seq<char>>)
    requires
        single_lines(rows),
    ensures
        lines_of(joined(rows)) == rows,
{
    lemma_segments_joined(rows);
    assert(rows.push(Seq::<char>::empty()).drop_last() =~= rows);
}

/// The text being edited: its rows in order, and the name of the file it
/// belongs to, if it has one.
#[derive(Debug)]
pub struct Document {
    rows: Vec<Row>,
    file_name: Option<Vec<char>>,
}

impl View for Document {
    type V = Seq<Seq<char>>;

    closed spec fn view(&self) -> Seq<Seq<char>> {
        self.rows@.map_values(|r: Row| r@)
    }
}

impl Default for Document {
    fn default() -> (r: Document)
        ensures
            r@ == Seq::<Seq<char>>::empty(),
            single_lines(r@),
            r.name().is_none(),
    {
        let r = Document { rows: Vec::new(), file_name: None };
        assert(r@ =~= Seq::<Seq<char>>::empty());
        r
    }
}

impl Document {
    /// The name of the file the document belongs to.
    pub closed spec fn name(&self) -> Option<Vec<char>> {
        self.file_name
    }

    pub fn file_name(&self) -> (r: &Option<Vec<char>>)
        ensures
            *r == self.name(),
    {
        &self.file_name
    }

    pub fn set_file_name(&mut self, name: Vec<char>)
        ensures
            final(self).name() == Some(name),
            final(self)@ == old(self)@,
    {
        self.file_name = Some(name);
    }

    /// The document held by `text`, one row per line.
    pub fn from_text(file_name: Option<Vec<char>>, text: &Vec<char>) -> (r: Document)
        ensures
            r@ == lines_of(text@),
            single_lines(r@),
            r.name() == file_name,
    {
        proof {
            lemma_lines_single(text@);
        }
        let mut rows: Vec<Row> = Vec::new();
        let mut cur: Vec<char> = Vec::new();
        let mut i: usize = 0;
        while i < text.len()
            invariant
                i <= text@.len(),
                rows@.map_values(|r: Row| r@).push(cur@) == segments(text@.subrange(0, i as int)),
            decreases text@.len() - i,
        {
            let c = text[i];
            let ghost before = text@.subrange(0, i as int);
            assert(text@.subrange(0, i as int + 1).drop_last() =~= before);
            if c == '\n' {
                let line = cur;
                cur = Vec::new();
                let ghost old_rows = rows@;
                rows.push(Row::from_chars(line));
                assert(rows@.map_values(|r: Row| r@) =~= old_rows.map_values(|r: Row| r@).push(line@));
                assert(rows@.map_values(|r: Row| r@).push(cur@) =~= segments(before).push(Seq::<char>::empty()));
            } else {
                let ghost old_cur = cur@;
                cur.push(c);
                assert(rows@.map_values(|r: Row| r@).push(cur@) =~= segments(before).update(
                    segments(before).len() - 1,
                    segments(before).last().push(c),
                ));
            }
            i = i + 1;
        }
        assert(text@.subrange(0, i as int) =~= text@);
        if cur.len() > 0 {
            let ghost old_rows = rows@;
            rows.push(Row::from_chars(cur));
            assert(rows@.map_values(|r: Row| r@) =~= segments(text@));
        } else {
            assert(rows@.map_values(|r: Row| r@) =~= segments(text@).drop_last());
        }
        Document { rows, file_name }
    }

    /// The document as it is stored: every row followed by a line break.
    pub fn to_text(&self) -> (r: Vec<char>)
        ensures
            r@ == joined(self@),
    {
        let mut out: Vec<char> = Vec::new();
        let mut k: usize = 0;
        while k < self.rows.len()
            invariant
                k <= self.rows@.len(),
                out@ == joined(self@.subrange(0, k as int)),
            decreases self.rows@.len() - k,
        {
            let line = self.rows[k].render(0, self.rows[k].len());
            let mut j: usize = 0;
            let ghost start = out@;
            while j < line.len()
                invariant
                    j <= line@.len(),
                    out@ == start + line@.subrange(0, j as int),
                decreases line@.len() - j,
            {
                out.push(line[j]);
                j = j + 1;
                assert(out@ =~= start + line@.subrange(0, j as int));
            }
            out.push('\n');
            assert(line@ =~= self@[k as int]);
            assert(self@.subrange(0, k as int + 1).drop_last() =~= self@.subrange(0, k as int));
            assert(out@ =~= joined(self@.subrange(0, k as int + 1)));
            k = k + 1;
        }
        assert(self@.subrange(0, k as int) =~= self@);
        out
    }

    /// A document's rows fit in memory.
    pub proof fn lemma_fits(&self)
        ensures
            fits(self@),
    {
        assert(self.rows.len() == self.rows@.len());
        assert forall|i: int| 0 <= i < self@.len() implies #[trigger] self@[i].len() <= usize::MAX by {
            self.rows@[i].lemma_len_fits();
        }
    }

    pub fn len(&self) -> (r: usize)
        ensures
            r == self@.len(),
    {
        self.rows.len()
    }

    pub fn is_empty(&self) -> (r: bool)
        ensures
            r == (self@.len() == 0),
    {
        self.rows.len() == 0
    }

    /// The row at `index`, if there is one.
    pub fn row(&self, index: usize) -> (r: Option<&Row>)
        ensures
            index < self@.len() ==> r.is_some() && r.unwrap()@ == self@[index as int],
            index >= self@.len() ==> r.is_none(),
    {
        if index < self.rows.len() {
            Some(&self.rows[index])
        } else {
            None
        }
    }

    /// Types `c` at `at`; see `doc_inserted`.
    pub fn insert(&mut self, at: &Position, c: char)
        ensures
            final(self)@ == doc_inserted(old(self)@, *at, c),
            single_lines(old(self)@) ==> single_lines(final(self)@),
            final(self).name() == old(self).name(),
    {
        proof {
            if single_lines(old(self)@) {
                lemma_edits_single(old(self)@, *at, c);
            }
        }
        let len = self.rows.len();
        if at.y > len {
            return;
        }
        let ghost v = old(self)@;
        if at.y == len {
            let mut row = Row::new();
            if c != '\n' {
                row.insert(0, c);
            }
            self.rows.push(row);
            assert(self@ =~= doc_inserted(v, *at, c));
        } else if c == '\n' {
            let mut row = self.rows.remove(at.y);
            let rest = row.split(at.x);
            self.rows.insert(at.y, row);
            self.rows.insert(at.y + 1, rest);
            assert(self@ =~= doc_inserted(v, *at, c));
        } else {
            let mut row = self.rows.remove(at.y);
            row.insert(at.x, c);
            self.rows.insert(at.y, row);
            assert(self@ =~= doc_inserted(v, *at, c));
        }
    }

    /// Deletes at `at`; see `doc_deleted`.
    pub fn delete(&mut self, at: &Position)
        ensures
            final(self)@ == doc_deleted(old(self)@, *at),
            single_lines(old(self)@) ==> single_lines(final(self)@),
            final(self).name() == old(self).name(),
    {
        proof {
            if single_lines(old(self)@) {
                lemma_edits_single(old(self)@, *at, ' ');
            }
        }
        let len = self.rows.len();
        if at.y >= len {
            return;
        }
        let ghost v = old(self)@;
        if at.x == self.rows[at.y].len() && at.y + 1 < len {
            let next = self.rows.remove(at.y + 1);
            let mut row = self.rows.remove(at.y);
            row.append(&next);
            self.rows.insert(at.y, row);
            assert(self@ =~= doc_deleted(v, *at));
        } else {
            let mut row = self.rows.remove(at.y);
            row.delete(at.x);
            self.rows.insert(at.y, row);
            assert(self@ =~= doc_deleted(v, *at));
        }
    }
}

} // verus!
