//! Paths as text. A path is a string whose components are separated by `/`.
//!
//! The model: a path that begins with `/` starts with the root component,
//! written `/`; a relative path that begins with a `.` component starts with
//! the component `.`; after that come the names between separators. Empty
//! pieces (repeated or trailing separators) and `.` pieces are no components.
use crate::text::{
    copy_chars, first_index, pieces, push_chars, rows, same_chars, split, to_chars, to_text,
};
use vstd::prelude::*;

verus! {

/// Whether the path begins at the root.
pub open spec fn is_absolute(p: Seq<char>) -> bool {
    p.len() > 0 && p[0] == '/'
}

/// Whether a relative path begins with the component `.`.
pub open spec fn starts_in_current_dir(p: Seq<char>) -> bool {
    p.len() > 0 && p[0] == '.' && (p.len() == 1 || p[1] == '/')
}

/// Whether a piece between separators is a component: neither empty nor `.`.
pub open spec fn is_name(piece: Seq<char>) -> bool {
    piece.len() > 0 && piece != seq!['.']
}

/// The pieces that are components, in order.
pub open spec fn names(ps: Seq<Seq<char>>) -> Seq<Seq<char>>
    decreases ps.len(),
{
    if ps.len() == 0 {
        Seq::empty()
    } else if is_name(ps.last()) {
        names(ps.drop_last()).push(ps.last())
    } else {
        names(ps.drop_last())
    }
}

/// The component that a path starts with before its names, if any.
pub open spec fn leading(p: Seq<char>) -> Seq<Seq<char>> {
    if is_absolute(p) {
        seq![seq!['/']]
    } else if starts_in_current_dir(p) {
        seq![seq!['.']]
    } else {
        Seq::empty()
    }
}

/// The components of a path.
pub open spec fn components(p: Seq<char>) -> Seq<Seq<char>> {
    leading(p) + names(pieces(p, '/'))
}

/// Whether `p` is `base` or lies under it: the components of `base` are the
/// first components of `p`. Only whole components match.
pub open spec fn nested_under(p: Seq<char>, base: Seq<char>) -> bool {
    components(base).is_prefix_of(components(p))
}

/// Whether the piece at `i` of the path's pieces is a component: a name,
/// or the `.` that a relative path begins with.
pub open spec fn is_component_piece(p: Seq<char>, ps: Seq<Seq<char>>, i: int) -> bool {
    is_name(ps[i]) || (i == 0 && starts_in_current_dir(p))
}

/// Where the piece at `i` begins in the text that the pieces were cut
/// from: after the pieces before it and the separator behind each.
pub open spec fn piece_start(ps: Seq<Seq<char>>, i: int) -> int
    decreases i,
{
    if i <= 0 {
        0
    } else {
        piece_start(ps, i - 1) + ps[i - 1].len() + 1
    }
}

/// The position of the last component piece among the first `n` pieces,
/// or -1 if none of them is one.
pub open spec fn last_component_before(p: Seq<char>, ps: Seq<Seq<char>>, n: int) -> int
    decreases n,
{
    if n <= 0 {
        -1
    } else if is_component_piece(p, ps, n - 1) {
        n - 1
    } else {
        last_component_before(p, ps, n - 1)
    }
}

/// The directory that holds the path's last component: the path up to the
/// end of the component before the last; the root where the last
/// component stands directly under it; the empty path for a relative path
/// of one component. A path without components, and so the empty path and
/// the root, has none.
pub open spec fn parent_of(p: Seq<char>) -> Option<Seq<char>> {
    let ps = pieces(p, '/');
    let last = last_component_before(p, ps, ps.len() as int);
    if last < 0 {
        None
    } else {
        let before = last_component_before(p, ps, last);
        if before >= 0 {
            Some(p.take(piece_start(ps, before) + ps[before].len()))
        } else if is_absolute(p) {
            Some(seq!['/'])
        } else {
            Some(Seq::empty())
        }
    }
}

/// Every piece lies in the text that it was cut from, at its start
/// position.
pub proof fn lemma_piece_bounds(s: Seq<char>, i: int)
    requires
        0 <= i < pieces(s, '/').len(),
    ensures
        0 <= piece_start(pieces(s, '/'), i),
        piece_start(pieces(s, '/'), i) + pieces(s, '/')[i].len() <= s.len(),
    decreases s.len(),
{
    let ps = pieces(s, '/');
    let k = first_index(s, '/');
    lemma_first_index_in_range(s, '/');
    if 0 <= k < s.len() {
        let rest = s.skip(k + 1);
        let tail = pieces(rest, '/');
        assert(ps == seq![s.take(k)] + tail);
        if i > 0 {
            lemma_piece_bounds(rest, i - 1);
            lemma_piece_start_shift(s.take(k), tail, i - 1);
            assert(ps[i] == tail[i - 1]);
        }
    }
}

/// A piece put in front moves the start of every later piece by its
/// length and one separator.
proof fn lemma_piece_start_shift(head: Seq<char>, tail: Seq<Seq<char>>, i: int)
    requires
        0 <= i <= tail.len(),
    ensures
        piece_start(seq![head] + tail, i + 1) == head.len() + 1 + piece_start(tail, i),
    decreases i,
{
    let all = seq![head] + tail;
    if i > 0 {
        lemma_piece_start_shift(head, tail, i - 1);
        assert(all[i] == tail[i - 1]);
    } else {
        assert(all[0] == head);
        assert(piece_start(all, 0) == 0);
    }
}

/// `first_index` lies within the text.
proof fn lemma_first_index_in_range(s: Seq<char>, c: char)
    ensures
        0 <= first_index(s, c) <= s.len(),
    decreases s.len(),
{
    if s.len() > 0 && s[0] != c {
        lemma_first_index_in_range(s.skip(1), c);
    }
}

/// `child` appended to `base`: an absolute `child` replaces `base`; otherwise
/// one separator stands between the two unless `base` is empty or already
/// ends with one.
pub open spec fn joined(base: Seq<char>, child: Seq<char>) -> Seq<char> {
    if is_absolute(child) {
        child
    } else if base.len() == 0 || base.last() == '/' {
        base + child
    } else {
        base + seq!['/'] + child
    }
}

/// Splits a path into its components.
pub fn path_components(p: &[char]) -> (out: Vec<Vec<char>>)
    ensures
        rows(out@) == components(p@),
{
    let ps = split(p, '/');
    let mut out: Vec<Vec<char>> = Vec::new();
    if p.len() > 0 && p[0] == '/' {
        let mut root: Vec<char> = Vec::new();
        root.push('/');
        assert(root@ == seq!['/']);
        out.push(root);
    } else if p.len() > 0 && p[0] == '.' && (p.len() == 1 || p[1] == '/') {
        let mut here: Vec<char> = Vec::new();
        here.push('.');
        assert(here@ == seq!['.']);
        out.push(here);
    }
    assert(rows(out@) == leading(p@));
    let mut i: usize = 0;
    assert(rows(ps@).take(0) == Seq::<Seq<char>>::empty());
    while i < ps.len()
        invariant
            i <= ps.len(),
            rows(ps@) == pieces(p@, '/'),
            rows(out@) == leading(p@) + names(rows(ps@).take(i as int)),
        decreases ps.len() - i,
    {
        let piece = &ps[i];
        let ghost before = rows(ps@).take(i as int);
        let ghost after = rows(ps@).take(i + 1);
        assert(after.drop_last() == before);
        assert(after.last() == piece@);
        let single_dot = piece.len() == 1 && piece[0] == '.';
        assert(single_dot == (piece@ == seq!['.'])) by {
            if single_dot {
                assert(piece@ =~= seq!['.']);
            }
        }
        if piece.len() > 0 && !single_dot {
            let name = copy_chars(piece.as_slice());
            assert(rows(out@.push(name)) == rows(out@).push(name@));
            out.push(name);
        }
        i += 1;
    }
    assert(rows(ps@).take(ps.len() as int) == rows(ps@));
    out
}

/// Whether the texts of `a` are the first texts of `b`.
pub fn rows_prefix(a: &Vec<Vec<char>>, b: &Vec<Vec<char>>) -> (r: bool)
    ensures
        r == rows(a@).is_prefix_of(rows(b@)),
{
    if a.len() > b.len() {
        return false;
    }
    let mut i: usize = 0;
    while i < a.len()
        invariant
            i <= a.len() <= b.len(),
            forall|j: int| 0 <= j < i ==> a@[j]@ == b@[j]@,
        decreases a.len() - i,
    {
        if !same_chars(a[i].as_slice(), b[i].as_slice()) {
            assert(rows(a@)[i as int] != rows(b@).subrange(0, a.len() as int)[i as int]);
            return false;
        }
        i += 1;
    }
    assert(rows(a@) =~= rows(b@).subrange(0, a.len() as int));
    true
}

/// Whether `path` is `base` or lies under it, by whole components.
pub fn starts_with(path: &str, base: &str) -> (r: bool)
    ensures
        r == nested_under(path@, base@),
{
    let p = to_chars(path);
    let b = to_chars(base);
    let pc = path_components(p.as_slice());
    let bc = path_components(b.as_slice());
    rows_prefix(&bc, &pc)
}

/// The directory that holds the path's last component; `None` for a path
/// without components, such as the empty path and the root.
pub fn parent(path: &str) -> (r: Option<String>)
    ensures
        match r {
            Some(dir) => parent_of(path@) == Some(dir@),
            None => parent_of(path@) is None,
        },
{
    let p = to_chars(path);
    let ps = split(p.as_slice(), '/');
    let n = ps.len();
    let total = p.len();
    let dotted = total > 0 && p[0] == '.' && (total == 1 || p[1] == '/');
    let ghost all = rows(ps@);
    // The ends of the last component and of the one before it, as far as
    // the pieces have been read.
    let mut last_end: Option<usize> = None;
    let mut before_end: Option<usize> = None;
    let mut offset: usize = 0;
    let mut i: usize = 0;
    while i < n
        invariant
            i <= n,
            n == ps@.len(),
            total == p@.len(),
            p@ == path@,
            all == rows(ps@),
            all == pieces(p@, '/'),
            dotted == starts_in_current_dir(p@),
            i < n ==> offset == piece_start(all, i as int),
            ({
                let last = last_component_before(p@, all, i as int);
                &&& match last_end {
                    Some(end) => last >= 0 && end == piece_start(all, last) + all[last].len(),
                    None => last < 0,
                }
                &&& match before_end {
                    Some(end) => {
                        let before = last_component_before(p@, all, last);
                        last >= 0 && before >= 0 && end == piece_start(all, before)
                            + all[before].len()
                    },
                    None => last < 0 || last_component_before(p@, all, last) < 0,
                }
            }),
        decreases n - i,
    {
        let piece = &ps[i];
        let len = piece.len();
        assert(piece@ == all[i as int]);
        proof {
            lemma_piece_bounds(p@, i as int);
            assert(offset + len <= total);
            if i + 1 < n {
                lemma_piece_bounds(p@, i + 1);
                assert(piece_start(all, i + 1) == offset + len + 1);
                assert(offset + len + 1 <= total);
            }
        }
        let single_dot = len == 1 && piece[0] == '.';
        assert(single_dot == (piece@ == seq!['.'])) by {
            if single_dot {
                assert(piece@ =~= seq!['.']);
            }
        }
        if (len > 0 && !single_dot) || (i == 0 && dotted) {
            before_end = last_end;
            last_end = Some(offset + len);
        }
        if i + 1 < n {
            offset = offset + len + 1;
        }
        i += 1;
    }
    let end = match last_end {
        Some(_) => before_end,
        None => {
            return None;
        },
    };
    match end {
        Some(end) => {
            proof {
                let last = last_component_before(p@, all, n as int);
                let before = last_component_before(p@, all, last);
                lemma_last_component_in_range(p@, all, n as int);
                lemma_last_component_in_range(p@, all, last);
                lemma_piece_bounds(p@, before);
            }
            let head = vstd::slice::slice_subrange(p.as_slice(), 0, end);
            assert(head@ == p@.take(end as int));
            Some(to_text(head))
        },
        None => if p.len() > 0 && p[0] == '/' {
            let mut root: Vec<char> = Vec::new();
            root.push('/');
            assert(root@ == seq!['/']);
            Some(to_text(root.as_slice()))
        } else {
            Some(String::new())
        },
    }
}

/// The last component piece before `n`, if there is one, is one of the
/// first `n` pieces.
proof fn lemma_last_component_in_range(p: Seq<char>, ps: Seq<Seq<char>>, n: int)
    requires
        n <= ps.len(),
    ensures
        -1 <= last_component_before(p, ps, n) < n || (n <= 0 && last_component_before(p, ps, n)
            == -1),
    decreases n,
{
    if n > 0 && !is_component_piece(p, ps, n - 1) {
        lemma_last_component_in_range(p, ps, n - 1);
    }
}

/// `child` appended to the path `base`.
pub fn join(base: &str, child: &str) -> (r: String)
    ensures
        r@ == joined(base@, child@),
{
    let b = to_chars(base);
    let c = to_chars(child);
    if c.len() > 0 && c[0] == '/' {
        return to_text(c.as_slice());
    }
    let mut out: Vec<char> = Vec::new();
    push_chars(&mut out, b.as_slice());
    if b.len() > 0 && b[b.len() - 1] != '/' {
        out.push('/');
    }
    push_chars(&mut out, c.as_slice());
    assert(out@ =~= joined(base@, child@));
    to_text(out.as_slice())
}

} // verus!
