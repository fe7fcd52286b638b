use vstd::prelude::*;

verus! {

/// The part of `row` that is visible through the columns `[start, end)`.
pub open spec fn rendered(row: Seq<char>, start: int, end: int) -> Seq<char> {
    let e = if end < row.len() { end } else { row.len() as int };
    let s = if start < e { start } else { e };
    row.subrange(s, e)
}

/// `row` with `c` put at column `at`, or at the end when `at` is past it.
pub open spec fn row_inserted(row: Seq<char>, at: int, c: char) -> Seq<char> {
    if at >= row.len() {
        row.push(c)
    } else {
        row.insert(at, c)
    }
}

/// `row` without the character at column `at`; unchanged when there is none.
pub open spec fn row_deleted(row: Seq<char>, at: int) -> Seq<char> {
    if at >= row.len() {
        row
    } else {
        row.remove(at)
    }
}

/// The column at which a split at `at` cuts `row`.
pub open spec fn split_point(row: Seq<char>, at: int) -> int {
    if at < row.len() {
        at
    } else {
        row.len() as int
    }
}

/// One line of text. Its length counts characters.
#[derive(Debug)]
pub struct Row {
    chars: Vec<char>,
}

impl View for Row {
    type V = Seq<char>;

    closed spec fn view(&self) -> Seq<char> {
        self.chars@
    }
}

impl Row {
    pub fn new() -> (r: Row)
        ensures
            r@ == Seq::<char>::empty(),
    {
        Row { chars: Vec::new() }
    }

    pub fn from_chars(chars: Vec<char>) -> (r: Row)
        ensures
            r@ == chars@,
    {
        Row { chars }
    }

    /// A row's length fits in a `usize`.
    pub proof fn lemma_len_fits(&self)
        ensures
            self@.len() <= usize::MAX,
    {
        assert(self.chars.len() == self.chars@.len());
    }

    pub fn len(&self) -> (r: usize)
        ensures
            r == self@.len(),
    {
        self.chars.len()
    }

    pub fn is_empty(&self) -> (r: bool)
        ensures
            r == (self@.len() == 0),
    {
        self.chars.len() == 0
    }

    /// The characters at columns `[start, end)`, cut to the row's length.
    pub fn render(&self, start: usize, end: usize) -> (r: Vec<char>)
        ensures
            r@ == rendered(self@, start as int, end as int),
    {
        let e = if end < self.chars.len() { end } else { self.chars.len() };
        let s = if start < e { start } else { e };
        let mut out: Vec<char> = Vec::new();
        let mut i: usize = s;
        while i < e
            invariant
                s <= i <= e,
                e <= self.chars@.len(),
                out@ == self.chars@.subrange(s as int, i as int),
            decreases e - i,
        {
            out.push(self.chars[i]);
            i = i + 1;
            assert(out@ =~= self.chars@.subrange(s as int, i as int));
        }
        out
    }

    /// Puts `c` at column `at`; past the end, `c` is appended.
    pub fn insert(&mut self, at: usize, c: char)
        ensures
            final(self)@ == row_inserted(old(self)@, at as int, c),
    {
        if at >= self.chars.len() {
            self.chars.push(c);
        } else {
            self.chars.insert(at, c);
        }
    }

    /// Removes the character at column `at`, if there is one.
    pub fn delete(&mut self, at: usize)
        ensures
            final(self)@ == row_deleted(old(self)@, at as int),
    {
        if at < self.chars.len() {
            self.chars.remove(at);
        }
    }

    /// Appends the text of `other` to this row.
    pub fn append(&mut self, other: &Row)
        ensures
            final(self)@ == old(self)@ + other@,
    {
        let mut i: usize = 0;
        while i < other.chars.len()
            invariant
                i <= other.chars@.len(),
                self.chars@ == old(self).chars@ + other.chars@.subrange(0, i as int),
            decreases other.chars@.len() - i,
        {
            self.chars.push(other.chars[i]);
            i = i + 1;
            assert(self.chars@ =~= old(self).chars@ + other.chars@.subrange(0, i as int));
        }
        assert(other.chars@.subrange(0, i as int) =~= other.chars@);
    }

    /// Cuts the row at column `at` (or at its end): this row keeps what lies
    /// before the cut and the rest is returned.
    pub fn split(&mut self, at: usize) -> (r: Row)
        ensures
            final(self)@ == old(self)@.subrange(0, split_point(old(self)@, at as int)),
            r@ == old(self)@.subrange(split_point(old(self)@, at as int), old(self)@.len() as int),
    {
        let cut = if at < self.chars.len() { at } else { self.chars.len() };
        let rest = self.chars.split_off(cut);
        Row { chars: rest }
    }
}

} // verus!
