//! Line splitting as `str::lines` does it, and joining lines back with `\n`.

use vstd::prelude::*;

use crate::text::push_char;

verus! {

/// The pieces of `s` between newline characters; there is always at least one
/// piece, and the last one is what follows the final newline.
pub open spec fn split_newlines(s: Seq<char>) -> Seq<Seq<char>>
    decreases s.len(),
{
    if s.len() == 0 {
        seq![Seq::<char>::empty()]
    } else {
        let prev = split_newlines(s.drop_last());
        if s.last() == '\n' {
            prev.push(Seq::<char>::empty())
        } else {
            prev.update(prev.len() - 1, prev.last().push(s.last()))
        }
    }
}

/// A line that was ended by `\r\n` loses its `\r`.
pub open spec fn strip_cr(l: Seq<char>) -> Seq<char> {
    if l.len() > 0 && l.last() == '\r' {
        l.drop_last()
    } else {
        l
    }
}

/// The lines of `s` as `str::lines` yields them: split at `\n`, a `\r` right
/// before a `\n` removed, and no empty line after a final newline.
pub open spec fn lines_spec(s: Seq<char>) -> Seq<Seq<char>> {
    let pieces = split_newlines(s);
    let ended = pieces.drop_last().map_values(|l: Seq<char>| strip_cr(l));
    if pieces.last().len() == 0 {
        ended
    } else {
        ended.push(pieces.last())
    }
}

/// The lines `ls` joined with `\n` between them.
pub open spec fn join_lines(ls: Seq<Seq<char>>) -> Seq<char>
    decreases ls.len(),
{
    if ls.len() == 0 {
        Seq::<char>::empty()
    } else if ls.len() == 1 {
        ls[0]
    } else {
        join_lines(ls.drop_last()) + seq!['\n'] + ls.last()
    }
}

/// The character sequences held in a vector of lines.
pub open spec fn lines_view(v: Seq<Vec<char>>) -> Seq<Seq<char>> {
    v.map_values(|l: Vec<char>| l@)
}

/// A string holding no newline character.
pub open spec fn no_newline(s: Seq<char>) -> bool {
    forall|i: int| 0 <= i < s.len() ==> s[i] != '\n'
}

pub proof fn lemma_split_newlines_len(s: Seq<char>)
    ensures
        split_newlines(s).len() >= 1,
    decreases s.len(),
{
    if s.len() > 0 {
        lemma_split_newlines_len(s.drop_last());
    }
}

/// Appending text without a newline extends the last piece.
proof fn lemma_split_append_plain(x: Seq<char>, y: Seq<char>)
    requires
        no_newline(y),
    ensures
        split_newlines(x + y) == split_newlines(x).update(
            split_newlines(x).len() - 1,
            split_newlines(x).last() + y,
        ),
    decreases y.len(),
{
    lemma_split_newlines_len(x);
    if y.len() == 0 {
        assert(x + y == x);
        assert(split_newlines(x).last() + y == split_newlines(x).last());
        assert(split_newlines(x).update(split_newlines(x).len() - 1, split_newlines(x).last())
            == split_newlines(x));
    } else {
        let y0 = y.drop_last();
        assert(no_newline(y0));
        lemma_split_append_plain(x, y0);
        assert((x + y).drop_last() == x + y0);
        assert((x + y).last() == y.last());
        assert(y.last() != '\n');
        lemma_split_newlines_len(x + y0);
        let sx = split_newlines(x);
        let p = split_newlines(x + y0);
        assert(split_newlines(x + y) == p.update(p.len() - 1, p.last().push(y.last())));
        assert(p.last() == sx.last() + y0);
        assert((sx.last() + y0).push(y.last()) =~= sx.last() + y);
        assert(p.update(p.len() - 1, sx.last() + y) =~= sx.update(sx.len() - 1, sx.last() + y));
    }
}

/// Splitting joined newline-free lines gives the lines back.
pub proof fn lemma_split_join(ls: Seq<Seq<char>>)
    requires
        ls.len() >= 1,
        forall|i: int| 0 <= i < ls.len() ==> no_newline(#[trigger] ls[i]),
    ensures
        split_newlines(join_lines(ls)) == ls,
    decreases ls.len(),
{
    if ls.len() == 1 {
        lemma_split_append_plain(Seq::<char>::empty(), ls[0]);
        assert(Seq::<char>::empty() + ls[0] == ls[0]);
        assert(split_newlines(Seq::<char>::empty()) == seq![Seq::<char>::empty()]);
        assert(Seq::<char>::empty() + ls[0] == ls[0]);
        assert(ls == seq![ls[0]]);
    } else {
        let front = ls.drop_last();
        assert forall|i: int| 0 <= i < front.len() implies no_newline(#[trigger] front[i]) by {
            assert(front[i] == ls[i]);
        }
        lemma_split_join(front);
        let x = join_lines(front) + seq!['\n'];
        assert(x.drop_last() == join_lines(front));
        assert(split_newlines(x) == front.push(Seq::<char>::empty()));
        assert(no_newline(ls.last()));
        lemma_split_append_plain(x, ls.last());
        assert(Seq::<char>::empty() + ls.last() == ls.last());
        assert(front.push(Seq::<char>::empty()).update(front.len() as int, ls.last()) == ls);
    }
}

proof fn lemma_split_no_newline(s: Seq<char>)
    ensures
        forall|i: int| 0 <= i < split_newlines(s).len() ==> no_newline(#[trigger] split_newlines(s)[i]),
    decreases s.len(),
{
    if s.len() > 0 {
        let prev = split_newlines(s.drop_last());
        lemma_split_no_newline(s.drop_last());
        lemma_split_newlines_len(s.drop_last());
        if s.last() != '\n' {
            let l = prev.last().push(s.last());
            assert(no_newline(prev[prev.len() - 1]));
            assert(no_newline(l));
        }
    }
}

/// No line of `s` holds a newline.
pub proof fn lemma_lines_no_newline(s: Seq<char>)
    ensures
        forall|i: int| 0 <= i < lines_spec(s).len() ==> no_newline(#[trigger] lines_spec(s)[i]),
{
    lemma_split_no_newline(s);
    lemma_split_newlines_len(s);
    let pieces = split_newlines(s);
    assert forall|i: int| 0 <= i < lines_spec(s).len() implies no_newline(#[trigger] lines_spec(s)[i]) by {
        if i < pieces.len() - 1 {
            assert(no_newline(pieces[i]));
            assert(lines_spec(s)[i] == strip_cr(pieces[i]));
        } else {
            assert(lines_spec(s)[i] == pieces.last());
        }
    }
}

pub proof fn lemma_lines_len_le_pieces(s: Seq<char>)
    ensures
        lines_spec(s).len() <= split_newlines(s).len(),
{
    lemma_split_newlines_len(s);
}

/// The lines of `s`, one vector of characters per line.
pub fn split_lines(s: &str) -> (ls: Vec<Vec<char>>)
    ensures
        lines_view(ls@) == lines_spec(s@),
        forall|i: int| 0 <= i < ls@.len() ==> no_newline(#[trigger] ls@[i]@),
{
    let mut done: Vec<Vec<char>> = Vec::new();
    let mut cur: Vec<char> = Vec::new();
    for c in it: s.chars()
        invariant
            it.seq() == s@,
            ({
                let pieces = split_newlines(s@.take(it.index() as int));
                &&& lines_view(done@) == pieces.drop_last().map_values(|l: Seq<char>| strip_cr(l))
                &&& cur@ == pieces.last()
                &&& pieces.len() >= 1
            }),
            forall|i: int| 0 <= i < done@.len() ==> no_newline(#[trigger] done@[i]@),
            no_newline(cur@),
    {
        let ghost prefix = s@.take(it.index() as int);
        let ghost next = s@.take(it.index() + 1);
        let ghost pieces = split_newlines(prefix);
        proof {
            assert(next.drop_last() == prefix);
            assert(next.last() == c);
            lemma_split_newlines_len(next);
        }
        if c == '\n' {
            let mut line = cur;
            if line.len() > 0 && line[line.len() - 1] == '\r' {
                line.pop();
            }
            proof {
                assert(line@ == strip_cr(pieces.last()));
                assert(split_newlines(next) == pieces.push(Seq::<char>::empty()));
                assert(split_newlines(next).drop_last() == pieces);
                assert(pieces == pieces.drop_last().push(pieces.last()));
                assert(pieces.map_values(|l: Seq<char>| strip_cr(l))
                    == pieces.drop_last().map_values(|l: Seq<char>| strip_cr(l)).push(strip_cr(pieces.last())));
            }
            let ghost dv = lines_view(done@);
            let ghost lv = line@;
            done.push(line);
            cur = Vec::new();
            proof {
                assert(lines_view(done@) =~= dv.push(lv));
                assert(lines_view(done@) == split_newlines(next).drop_last().map_values(|l: Seq<char>| strip_cr(l)));
            }
        } else {
            cur.push(c);
            proof {
                assert(split_newlines(next).drop_last() == pieces.drop_last());
            }
        }
    }
    let ghost pieces = split_newlines(s@);
    proof {
        assert(s@.take(s@.len() as int) == s@);
    }
    let ghost dv = lines_view(done@);
    let ghost cv = cur@;
    if cur.len() > 0 {
        done.push(cur);
        assert(lines_view(done@) =~= dv.push(cv));
    }
    done
}

/// Joins `ls[from..]` with `\n` between the lines.
pub fn join_from(ls: &Vec<Vec<char>>, from: usize) -> (s: String)
    requires
        from <= ls@.len(),
    ensures
        s@ == join_lines(lines_view(ls@).skip(from as int)),
{
    let mut s = String::new();
    let mut i: usize = from;
    while i < ls.len()
        invariant
            from <= i <= ls@.len(),
            s@ == join_lines(lines_view(ls@).subrange(from as int, i as int)),
        decreases ls.len() - i,
    {
        let ghost before = lines_view(ls@).subrange(from as int, i as int);
        let ghost after = lines_view(ls@).subrange(from as int, i + 1);
        assert(after.drop_last() == before);
        assert(after.last() == ls@[i as int]@);
        if i > from {
            push_char(&mut s, '\n');
        }
        let line = &ls[i];
        let mut j: usize = 0;
        let ghost base = s@;
        while j < line.len()
            invariant
                0 <= j <= line@.len(),
                s@ == base + line@.take(j as int),
            decreases line.len() - j,
        {
            assert(line@.take(j + 1) == line@.take(j as int).push(line@[j as int]));
            push_char(&mut s, line[j]);
            j = j + 1;
        }
        assert(line@.take(line@.len() as int) == line@);
        i = i + 1;
    }
    assert(lines_view(ls@).subrange(from as int, ls@.len() as int) == lines_view(ls@).skip(from as int));
    s
}

} // verus!
