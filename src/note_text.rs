use vstd::prelude::*;

use crate::buffer::LineText;

verus! {

/// The views of a vector of lines.
pub open spec fn line_views(v: Seq<Vec<char>>) -> Seq<LineText> {
    v.map_values(|l: Vec<char>| l@)
}

/// The text of a note: each line followed by a newline.
pub open spec fn text_of_lines(lines: Seq<LineText>) -> Seq<char>
    decreases lines.len(),
{
    if lines.len() == 0 {
        Seq::empty()
    } else {
        text_of_lines(lines.drop_last()) + lines.last().push('\n')
    }
}

/// A line without the carriage return that a CR LF line ending leaves on it.
pub open spec fn strip_cr(l: LineText) -> LineText {
    if l.len() > 0 && l.last() == '\r' {
        l.drop_last()
    } else {
        l
    }
}

/// The pieces of `s` between newlines, in order; a piece that a newline
/// ends loses a carriage return just before that newline. There is always
/// at least one piece: the one after the last newline.
pub open spec fn split_newlines(s: Seq<char>) -> Seq<LineText>
    decreases s.len(),
{
    if s.len() == 0 {
        seq![Seq::empty()]
    } else {
        let p = split_newlines(s.drop_last());
        if s.last() == '\n' {
            p.update(p.len() - 1, strip_cr(p.last())).push(Seq::empty())
        } else {
            p.update(p.len() - 1, p.last().push(s.last()))
        }
    }
}

/// The lines of a note's text. A newline at the very end does not start
/// another line, and empty text is one empty line.
pub open spec fn lines_of_text(s: Seq<char>) -> Seq<LineText> {
    let p = split_newlines(s);
    if p.len() > 1 && p.last().len() == 0 {
        p.drop_last()
    } else {
        p
    }
}

/// `split_newlines` always yields at least one piece.
pub proof fn lemma_split_newlines_nonempty(s: Seq<char>)
    ensures
        split_newlines(s).len() >= 1,
    decreases s.len(),
{
    if s.len() > 0 {
        lemma_split_newlines_nonempty(s.drop_last());
    }
}

/// Whether `l` can stand as one line of a note's text and read back the
/// same: it holds no newline and does not end in a carriage return.
pub open spec fn storable_line(l: LineText) -> bool {
    &&& forall|i: int| 0 <= i < l.len() ==> #[trigger] l[i] != '\n'
    &&& !(l.len() > 0 && l.last() == '\r')
}

/// Text without a newline appended to `s` extends the last piece of `s`.
proof fn lemma_split_newlines_extend(s: Seq<char>, l: Seq<char>)
    requires
        forall|i: int| 0 <= i < l.len() ==> #[trigger] l[i] != '\n',
    ensures
        split_newlines(s + l) == split_newlines(s).update(
            split_newlines(s).len() - 1,
            split_newlines(s).last() + l,
        ),
    decreases l.len(),
{
    lemma_split_newlines_nonempty(s);
    if l.len() == 0 {
        assert(s + l =~= s);
        assert(split_newlines(s).last() + l =~= split_newlines(s).last());
        assert(split_newlines(s).update(split_newlines(s).len() - 1, split_newlines(s).last())
            =~= split_newlines(s));
    } else {
        let init = l.drop_last();
        assert forall|i: int| 0 <= i < init.len() implies #[trigger] init[i] != '\n' by {
            assert(init[i] == l[i]);
        }
        lemma_split_newlines_extend(s, init);
        assert((s + l).drop_last() =~= s + init);
        assert((s + l).last() == l.last());
        assert(l.last() != '\n');
        let p = split_newlines(s);
        assert((p.last() + init).push(l.last()) =~= p.last() + l);
        assert(split_newlines(s + l) =~= p.update(p.len() - 1, p.last() + l));
    }
}

/// The pieces of a note's text are its lines and the empty piece after the
/// last newline.
proof fn lemma_split_text_of_lines(lines: Seq<LineText>)
    requires
        forall|i: int| 0 <= i < lines.len() ==> storable_line(#[trigger] lines[i]),
    ensures
        split_newlines(text_of_lines(lines)) == lines.push(Seq::empty()),
    decreases lines.len(),
{
    if lines.len() == 0 {
        assert(split_newlines(Seq::<char>::empty()) =~= seq![Seq::<char>::empty()]);
        assert(lines.push(Seq::empty()) =~= seq![Seq::<char>::empty()]);
    } else {
        let init = lines.drop_last();
        let l = lines.last();
        assert forall|i: int| 0 <= i < init.len() implies storable_line(#[trigger] init[i]) by {
            assert(init[i] == lines[i]);
        }
        assert(storable_line(lines[lines.len() - 1]));
        lemma_split_text_of_lines(init);
        let t = text_of_lines(init);
        lemma_split_newlines_extend(t, l);
        let with_l = split_newlines(t + l);
        assert(split_newlines(t).last() + l =~= l);
        assert(with_l =~= init.push(l));
        assert(text_of_lines(lines) =~= (t + l).push('\n'));
        assert((t + l).push('\n').drop_last() =~= t + l);
        assert(split_newlines(text_of_lines(lines)) =~= with_l.update(
            with_l.len() - 1,
            strip_cr(with_l.last()),
        ).push(Seq::empty()));
        assert(strip_cr(l) == l);
        assert(with_l.update(with_l.len() - 1, l) =~= with_l);
        assert(init.push(l) =~= lines);
    }
}

/// A note saved as text and read back gives the same lines, where there is
/// at least one line and each line is storable.
pub proof fn saved_text_reads_back(lines: Seq<LineText>)
    requires
        lines.len() >= 1,
        forall|i: int| 0 <= i < lines.len() ==> storable_line(#[trigger] lines[i]),
    ensures
        lines_of_text(text_of_lines(lines)) == lines,
{
    lemma_split_text_of_lines(lines);
    assert(lines.push(Seq::empty()).drop_last() =~= lines);
}

/// The text to store for `lines`: each line followed by a newline.
pub fn note_text(lines: &Vec<Vec<char>>) -> (r: Vec<char>)
    ensures
        r@ == text_of_lines(line_views(lines@)),
{
    let mut r: Vec<char> = Vec::new();
    let mut i: usize = 0;
    while i < lines.len()
        invariant
            i <= lines@.len(),
            r@ == text_of_lines(line_views(lines@.subrange(0, i as int))),
        decreases lines@.len() - i,
    {
        let line = &lines[i];
        let ghost start = r@;
        let mut j: usize = 0;
        while j < line.len()
            invariant
                j <= line@.len(),
                r@ == start + line@.subrange(0, j as int),
            decreases line@.len() - j,
        {
            r.push(line[j]);
            proof {
                assert(line@.subrange(0, j + 1) =~= line@.subrange(0, j as int).push(line@[j as int]));
            }
            j = j + 1;
        }
        r.push('\n');
        proof {
            let done = line_views(lines@.subrange(0, i + 1));
            assert(done.drop_last() =~= line_views(lines@.subrange(0, i as int)));
            assert(line@.subrange(0, j as int) =~= line@);
            assert(r@ =~= text_of_lines(done));
        }
        i = i + 1;
    }
    proof {
        assert(lines@.subrange(0, i as int) =~= lines@);
    }
    r
}

/// The lines of a note's text; see `lines_of_text`.
pub fn text_lines(content: &Vec<char>) -> (r: Vec<Vec<char>>)
    ensures
        line_views(r@) == lines_of_text(content@),
        r@.len() >= 1,
{
    let mut done: Vec<Vec<char>> = Vec::new();
    let mut cur: Vec<char> = Vec::new();
    let mut i: usize = 0;
    proof {
        assert(content@.subrange(0, 0) =~= Seq::<char>::empty());
        assert(line_views(done@).push(cur@) =~= seq![Seq::<char>::empty()]);
    }
    while i < content.len()
        invariant
            i <= content@.len(),
            split_newlines(content@.subrange(0, i as int)) == line_views(done@).push(cur@),
        decreases content@.len() - i,
    {
        let c = content[i];
        let ghost prefix = content@.subrange(0, i + 1);
        proof {
            assert(prefix.drop_last() =~= content@.subrange(0, i as int));
            assert(prefix.last() == c);
        }
        if c == '\n' {
            if cur.len() > 0 && cur[cur.len() - 1] == '\r' {
                cur.pop();
            }
            done.push(cur);
            cur = Vec::new();
            proof {
                assert(split_newlines(prefix) =~= line_views(done@).push(cur@));
            }
        } else {
            cur.push(c);
            proof {
                assert(split_newlines(prefix) =~= line_views(done@).push(cur@));
            }
        }
        i = i + 1;
    }
    proof {
        assert(content@.subrange(0, i as int) =~= content@);
    }
    if cur.len() > 0 || done.len() == 0 {
        done.push(cur);
        proof {
            assert(line_views(done@) =~= lines_of_text(content@));
        }
    } else {
        proof {
            assert(line_views(done@) =~= lines_of_text(content@));
        }
    }
    done
}

} // verus!
