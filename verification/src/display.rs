//! A model of the line-oriented terminal display that the session repaints.
//!
//! The screen is a sequence of text lines; every line past the end of the
//! sequence reads as blank. The renderer redraws a rectangular region given
//! the region's old and new line counts, always clearing the old extent fully
//! before writing the new, so it never assumes the two are equal. The driver
//! mirrors each operation onto the real terminal, one cleared or printed row
//! at a time.

use vstd::prelude::*;
use crate::strutil::push_char;
use vstd::string::StrSliceExecFns;
use vstd::string::StringExecFns;

verus! {

/// The views of a sequence of text lines.
pub open spec fn views_of(v: Seq<String>) -> Seq<Seq<char>> {
    v.map_values(|s: String| s@)
}

/// The lines of `s`, split on newline characters; a trailing newline does not
/// open a final empty line.
pub open spec fn lines_of(s: Seq<char>) -> Seq<Seq<char>>
    decreases s.len(),
{
    if s.len() == 0 {
        seq![]
    } else if s[0] == '\n' {
        seq![Seq::<char>::empty()] + lines_of(s.skip(1))
    } else {
        let rest = lines_of(s.skip(1));
        if rest.len() == 0 {
            seq![seq![s[0]]]
        } else {
            seq![seq![s[0]] + rest[0]] + rest.skip(1)
        }
    }
}

/// The lines of `text`, as strings.
pub fn split_lines(text: &str) -> (r: Vec<String>)
    ensures
        views_of(r@) == lines_of(text@),
        r@.len() == lines_of(text@).len(),
    decreases text@.len(),
{
    let n = text.unicode_len();
    if n == 0 {
        let r: Vec<String> = Vec::new();
        proof {
            assert(views_of(r@) =~~= lines_of(text@));
        }
        return r;
    }
    let c = text.get_char(0);
    let rest = text.substring_char(1, n);
    proof {
        assert(rest@ =~= text@.skip(1));
    }
    let mut rv = split_lines(rest);
    if c == '\n' {
        rv.insert(0, String::new());
        proof {
            assert(views_of(rv@) =~~= lines_of(text@));
        }
        rv
    } else {
        if rv.len() == 0 {
            let mut line = String::new();
            push_char(&mut line, c);
            let mut r: Vec<String> = Vec::new();
            r.push(line);
            proof {
                assert(line@ =~= seq![text@[0]]);
                assert(views_of(r@) =~~= lines_of(text@));
            }
            r
        } else {
            let first = rv.remove(0);
            let mut line = String::new();
            push_char(&mut line, c);
            line.append(first.as_str());
            rv.insert(0, line);
            proof {
                assert(line@ =~= seq![text@[0]] + lines_of(text@.skip(1))[0]);
                assert(views_of(rv@) =~~= lines_of(text@));
            }
            rv
        }
    }
}

/// The text on row `i` of the display, blank past the last stored line.
pub open spec fn line_at(sc: Seq<Seq<char>>, i: int) -> Seq<char> {
    if 0 <= i < sc.len() {
        sc[i]
    } else {
        Seq::empty()
    }
}

/// What row `i` shows after a region starting at `start` and previously
/// `prev` lines tall is repainted with `text`: the new text's lines, blank
/// rows over the rest of the old extent, and untouched rows elsewhere.
pub open spec fn repaint_line(
    sc: Seq<Seq<char>>,
    start: int,
    prev: int,
    text: Seq<char>,
    i: int,
) -> Seq<char> {
    if start <= i < start + lines_of(text).len() {
        lines_of(text)[i - start]
    } else if start <= i < start + prev {
        Seq::empty()
    } else {
        line_at(sc, i)
    }
}

/// Repainting a region twice with identical arguments shows the same display
/// as painting it once: the second pass rewrites every row of the region with
/// the values the first pass already gave it, and touches nothing else.
pub proof fn lemma_repaint_idempotent(
    sc0: Seq<Seq<char>>,
    sc1: Seq<Seq<char>>,
    sc2: Seq<Seq<char>>,
    start: int,
    prev: int,
    text: Seq<char>,
)
    requires
        forall|i: int| line_at(sc1, i) == repaint_line(sc0, start, prev, text, i),
        forall|i: int| line_at(sc2, i) == repaint_line(sc1, start, prev, text, i),
    ensures
        forall|i: int| line_at(sc2, i) == line_at(sc1, i),
{
}

/// The terminal display: a column of text lines, indexed from the top.
pub struct Screen {
    lines: Vec<String>,
}

impl View for Screen {
    type V = Seq<Seq<char>>;

    closed spec fn view(&self) -> Seq<Seq<char>> {
        views_of(self.lines@)
    }
}

impl Screen {
    /// A display with nothing written on it yet.
    pub fn new() -> (s: Screen)
        ensures
            s@.len() == 0,
    {
        Screen { lines: Vec::new() }
    }

    /// How many rows have been written to so far.
    pub fn line_count(&self) -> (n: usize)
        ensures
            n == self@.len(),
    {
        self.lines.len()
    }

    /// The text on row `i`, blank past the last stored line.
    pub fn line_text(&self, i: usize) -> (s: String)
        ensures
            s@ == line_at(self@, i as int),
    {
        if i < self.lines.len() {
            self.lines[i].clone()
        } else {
            String::new()
        }
    }

    fn set_line(&mut self, i: usize, line: String)
        requires
            i < old(self)@.len(),
        ensures
            final(self)@ == old(self)@.update(i as int, line@),
            final(self)@.len() == old(self)@.len(),
    {
        self.lines.remove(i);
        self.lines.insert(i, line);
        proof {
            assert(self@ =~~= old(self)@.update(i as int, line@));
        }
    }

    fn grow_to(&mut self, n: usize)
        ensures
            final(self)@.len() == if old(self)@.len() >= n {
                old(self)@.len() as int
            } else {
                n as int
            },
            forall|i: int| line_at(final(self)@, i) == line_at(old(self)@, i),
            forall|i: int| 0 <= i < old(self)@.len() ==> final(self)@[i] == old(self)@[i],
    {
        while self.lines.len() < n
            invariant
                self@.len() <= n || self@.len() == old(self)@.len(),
                old(self)@.len() <= self@.len(),
                forall|i: int| 0 <= i < old(self)@.len() ==> self@[i] == old(self)@[i],
                forall|i: int|
                    old(self)@.len() <= i < self@.len() ==> #[trigger] self@[i]
                        == Seq::<char>::empty(),
            decreases n - self@.len(),
        {
            let blank = String::new();
            let ghost prev = self.lines@;
            self.lines.push(blank);
            proof {
                assert forall|i: int|
                    old(self)@.len() <= i < self@.len() implies #[trigger] self@[i]
                    == Seq::<char>::empty() by {
                    if i < prev.len() {
                        assert(self@[i] == views_of(prev)[i]);
                    } else {
                        assert(self@[i] == blank@);
                    }
                }
            }
        }
    }

    /// Blanks `count` rows beginning at row `start`; clearing zero rows
    /// leaves the display unchanged.
    pub fn clear_lines(&mut self, start: usize, count: usize)
        requires
            start + count <= usize::MAX,
        ensures
            count == 0 ==> final(self)@ == old(self)@,
            forall|i: int|
                line_at(final(self)@, i) == (if start <= i < start + count {
                    Seq::<char>::empty()
                } else {
                    line_at(old(self)@, i)
                }),
    {
        if count == 0 {
            return ;
        }
        let mut j: usize = 0;
        while j < count
            invariant
                start + count <= usize::MAX,
                j <= count,
                forall|i: int|
                    line_at(self@, i) == (if start <= i < start + j {
                        Seq::<char>::empty()
                    } else {
                        line_at(old(self)@, i)
                    }),
            decreases count - j,
        {
            proof {
                assert(self@.len() == self.lines@.len());
            }
            if start + j < self.lines.len() {
                let ghost prev = self@;
                let blank = String::new();
                self.set_line(start + j, blank);
                proof {
                    assert(forall|i: int|
                        line_at(self@, i) == (if i == start + j {
                            Seq::<char>::empty()
                        } else {
                            line_at(prev, i)
                        }));
                }
            }
            j += 1;
        }
    }

    /// Redraws the region that starts at row `start` and previously held
    /// `prev_count` rows: the old extent is cleared in full, then the lines
    /// of `text` are written from `start` down. Rows outside both extents
    /// keep what they showed.
    pub fn repaint(&mut self, start: usize, prev_count: usize, text: &str)
        requires
            start + prev_count <= usize::MAX,
            start + lines_of(text@).len() <= usize::MAX,
        ensures
            forall|i: int|
                line_at(final(self)@, i) == repaint_line(
                    old(self)@,
                    start as int,
                    prev_count as int,
                    text@,
                    i,
                ),
    {
        self.clear_lines(start, prev_count);
        let ls = split_lines(text);
        let mut j: usize = 0;
        while j < ls.len()
            invariant
                start + ls@.len() <= usize::MAX,
                j <= ls@.len(),
                views_of(ls@) == lines_of(text@),
                ls@.len() == lines_of(text@).len(),
                forall|i: int|
                    line_at(self@, i) == (if start <= i < start + j {
                        lines_of(text@)[i - start]
                    } else if start <= i < start + prev_count {
                        Seq::<char>::empty()
                    } else {
                        line_at(old(self)@, i)
                    }),
            decreases ls@.len() - j,
        {
            let line = ls[j].clone();
            proof {
                assert(line@ == views_of(ls@)[j as int]);
                assert(line@ == lines_of(text@)[j as int]);
            }
            let ghost mid = self@;
            self.grow_to(start + j + 1);
            proof {
                assert(self@.len() == self.lines@.len());
                assert(forall|i: int| line_at(self@, i) == line_at(mid, i));
            }
            let ghost grown = self@;
            self.set_line(start + j, line);
            proof {
                assert(forall|i: int|
                    line_at(self@, i) == (if i == start + j {
                        line@
                    } else {
                        line_at(grown, i)
                    }));
            }
            j += 1;
        }
    }
}

} // verus!
