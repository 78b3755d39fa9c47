//! The listing of worktrees that git writes for scripts, and how it is
//! read.
//!
//! The listing is read line by line. A line `worktree <path>` opens a
//! block; the lines up to the next such line, or to the end, belong to it.
//! Of these, `HEAD <commit>` names the commit, `branch <ref>` the branch
//! (without a leading `refs/heads/`), and the lines `bare` and `detached`
//! mark the record. Where a field line occurs more than once the last one
//! counts. Lines before the first block and lines that are none of these
//! are passed over.
use crate::git::worktree::{worktree_views, WorktreeInfo, WorktreeStatus, WorktreeView};
use crate::path::{nested_under, starts_with};
use crate::process::optional_str;
use crate::text::{
    has_prefix, lines, rows, same_chars, skip_chars, split_lines, to_chars, to_text,
};
use vstd::prelude::*;

verus! {

/// The fields of a record while the lines of its block are being read.
struct WorktreeInfoBuilder {
    path: Option<String>,
    branch: Option<String>,
    commit: Option<String>,
    is_bare: bool,
    is_detached: bool,
}

/// The fields of a record as the lines of its block give them.
pub struct BuilderView {
    pub path: Option<Seq<char>>,
    pub branch: Option<Seq<char>>,
    pub commit: Option<Seq<char>>,
    pub is_bare: bool,
    pub is_detached: bool,
}

impl View for WorktreeInfoBuilder {
    type V = BuilderView;

    closed spec fn view(&self) -> BuilderView {
        BuilderView {
            path: match self.path {
                Some(p) => Some(p@),
                None => None,
            },
            branch: match self.branch {
                Some(b) => Some(b@),
                None => None,
            },
            commit: match self.commit {
                Some(c) => Some(c@),
                None => None,
            },
            is_bare: self.is_bare,
            is_detached: self.is_detached,
        }
    }
}

/// Whether the working directory, if known, lies in the worktree at `path`.
pub open spec fn is_current_in(current_dir: Option<Seq<char>>, path: Seq<char>) -> bool {
    match current_dir {
        Some(dir) => nested_under(dir, path),
        None => false,
    }
}

/// The record with the given fields, before its status is determined:
/// the status is `Unknown`. A record without a commit line has an empty
/// commit.
pub open spec fn built(b: BuilderView, current_dir: Option<Seq<char>>) -> WorktreeView
    recommends
        b.path is Some,
{
    WorktreeView {
        path: b.path->0,
        branch: b.branch,
        commit: match b.commit {
            Some(c) => c,
            None => Seq::empty(),
        },
        is_current: is_current_in(current_dir, b.path->0),
        is_bare: b.is_bare,
        is_detached: b.is_detached,
        status: WorktreeStatus::Unknown,
    }
}

impl Default for WorktreeInfoBuilder {
    /// A builder with no field set.
    fn default() -> (b: WorktreeInfoBuilder)
        ensures
            b@ == (BuilderView {
                path: None,
                branch: None,
                commit: None,
                is_bare: false,
                is_detached: false,
            }),
    {
        WorktreeInfoBuilder {
            path: None,
            branch: None,
            commit: None,
            is_bare: false,
            is_detached: false,
        }
    }
}

impl WorktreeInfoBuilder {
    /// Finishes the record. A builder without a path gives none.
    fn build(self, current_dir: Option<&str>) -> (r: Option<WorktreeInfo>)
        ensures
            match r {
                Some(w) => self@.path is Some && w@ == built(self@, optional_str(current_dir)),
                None => self@.path is None,
            },
    {
        let path = match self.path {
            Some(p) => p,
            None => {
                return None;
            },
        };
        let commit = match self.commit {
            Some(c) => c,
            None => String::new(),
        };
        let is_current = match current_dir {
            Some(dir) => starts_with(dir, path.as_str()),
            None => false,
        };
        Some(
            WorktreeInfo {
                path,
                branch: self.branch,
                commit,
                is_current,
                is_bare: self.is_bare,
                is_detached: self.is_detached,
                status: WorktreeStatus::Unknown,
            },
        )
    }
}

/// What follows `prefix` on a line that starts with it.
pub open spec fn after(line: Seq<char>, prefix: Seq<char>) -> Seq<char> {
    line.skip(prefix.len() as int)
}

/// Whether a line opens a record.
pub open spec fn is_header(line: Seq<char>) -> bool {
    "worktree "@.is_prefix_of(line)
}

/// The branch that a `branch` line names: the ref without `refs/heads/`, or
/// the ref as it stands where it is no local branch ref.
pub open spec fn branch_name(line: Seq<char>) -> Seq<char> {
    if "branch refs/heads/"@.is_prefix_of(line) {
        after(line, "branch refs/heads/"@)
    } else {
        after(line, "branch "@)
    }
}

/// The record that a header line opens: its path, and nothing else yet.
pub open spec fn opened(line: Seq<char>) -> BuilderView {
    BuilderView {
        path: Some(after(line, "worktree "@)),
        branch: None,
        commit: None,
        is_bare: false,
        is_detached: false,
    }
}

/// The record after one more line of its block. A line that is none of the
/// four recognised forms leaves the record as it is.
pub open spec fn absorb(b: BuilderView, line: Seq<char>) -> BuilderView {
    BuilderView {
        path: b.path,
        branch: if "branch "@.is_prefix_of(line) {
            Some(branch_name(line))
        } else {
            b.branch
        },
        commit: if "HEAD "@.is_prefix_of(line) {
            Some(after(line, "HEAD "@))
        } else {
            b.commit
        },
        is_bare: b.is_bare || line == "bare"@,
        is_detached: b.is_detached || line == "detached"@,
    }
}

/// The last line of a block that starts with `prefix`, if there is one.
pub open spec fn last_with_prefix(body: Seq<Seq<char>>, prefix: Seq<char>) -> Option<Seq<char>>
    decreases body.len(),
{
    if body.len() == 0 {
        None
    } else if prefix.is_prefix_of(body.last()) {
        Some(body.last())
    } else {
        last_with_prefix(body.drop_last(), prefix)
    }
}

/// The record of one block: the path from the header line; the commit and
/// the branch from the last `HEAD` and `branch` line of the lines that
/// follow; bare and detached where a line says exactly that.
pub open spec fn block_record(header: Seq<char>, body: Seq<Seq<char>>) -> BuilderView {
    BuilderView {
        path: Some(after(header, "worktree "@)),
        branch: match last_with_prefix(body, "branch "@) {
            Some(line) => Some(branch_name(line)),
            None => None,
        },
        commit: match last_with_prefix(body, "HEAD "@) {
            Some(line) => Some(after(line, "HEAD "@)),
            None => None,
        },
        is_bare: body.contains("bare"@),
        is_detached: body.contains("detached"@),
    }
}

/// The position of the first header line at or after `from`, or the number
/// of lines if none follows.
pub open spec fn next_header(lines: Seq<Seq<char>>, from: int) -> int
    decreases lines.len() - from,
{
    if from < 0 || from >= lines.len() {
        lines.len() as int
    } else if is_header(lines[from]) {
        from
    } else {
        next_header(lines, from + 1)
    }
}

/// `next_header` lies between `from` and the end, at a header line unless
/// it is the end, with no header line before it.
pub proof fn lemma_next_header(lines: Seq<Seq<char>>, from: int)
    requires
        0 <= from <= lines.len(),
    ensures
        from <= next_header(lines, from) <= lines.len(),
        next_header(lines, from) < lines.len() ==> is_header(lines[next_header(lines, from)]),
        forall|k: int| from <= k < next_header(lines, from) ==> !is_header(#[trigger] lines[k]),
    decreases lines.len() - from,
{
    if from < lines.len() && !is_header(lines[from]) {
        lemma_next_header(lines, from + 1);
    }
}

/// The records that the lines from `from` on describe, in order: one for
/// each header line, made of that line and of the lines up to the next
/// header line or the end.
pub open spec fn records_from(lines: Seq<Seq<char>>, from: int) -> Seq<BuilderView>
    decreases lines.len() - from,
{
    if from < 0 || from >= lines.len() {
        Seq::empty()
    } else {
        let header = next_header(lines, from);
        if header >= lines.len() {
            Seq::empty()
        } else {
            let end = next_header(lines, header + 1);
            proof {
                lemma_next_header(lines, from);
                lemma_next_header(lines, header + 1);
            }
            seq![block_record(lines[header], lines.subrange(header + 1, end))] + records_from(
                lines,
                end,
            )
        }
    }
}

/// The same records, told as the lines are read one after another: each
/// header line opens a record, and each later line is absorbed by the
/// record that is open.
pub open spec fn blocks(lines: Seq<Seq<char>>) -> Seq<BuilderView>
    decreases lines.len(),
{
    if lines.len() == 0 {
        Seq::empty()
    } else {
        let before = blocks(lines.drop_last());
        let line = lines.last();
        if is_header(line) {
            before.push(opened(line))
        } else if before.len() > 0 {
            before.update(before.len() - 1, absorb(before.last(), line))
        } else {
            before
        }
    }
}

/// The inventory that a listing text describes, before any status is
/// determined: one record for each block of its lines, each with status
/// `Unknown`.
pub open spec fn parsed_worktrees(text: Seq<char>, current_dir: Option<Seq<char>>) -> Seq<
    WorktreeView,
> {
    let bs = records_from(lines(text), 0);
    Seq::new(bs.len(), |i: int| built(bs[i], current_dir))
}

/// One more line at the end of a block changes the record as `absorb`
/// says.
pub proof fn lemma_block_grows(header: Seq<char>, body: Seq<Seq<char>>, line: Seq<char>)
    ensures
        block_record(header, body.push(line)) == absorb(block_record(header, body), line),
        block_record(header, Seq::empty()) == opened(header),
{
    let longer = body.push(line);
    assert(longer.drop_last() == body);
    assert(longer.last() == line);
    assert forall|x: Seq<char>| longer.contains(x) <==> (body.contains(x) || line == x) by {
        if longer.contains(x) {
            let k = choose|k: int| 0 <= k < longer.len() && longer[k] == x;
            if k < body.len() {
                assert(body[k] == x);
            }
        }
        if body.contains(x) {
            let k = choose|k: int| 0 <= k < body.len() && body[k] == x;
            assert(longer[k] == x);
        }
        if line == x {
            assert(longer[body.len() as int] == x);
        }
    }
    assert(!Seq::<Seq<char>>::empty().contains("bare"@));
    assert(!Seq::<Seq<char>>::empty().contains("detached"@));
}

/// What one more line at the end does to the next header position.
proof fn lemma_next_header_grows(lines: Seq<Seq<char>>, line: Seq<char>, from: int)
    requires
        0 <= from <= lines.len(),
    ensures
        next_header(lines.push(line), from) == if next_header(lines, from) < lines.len() {
            next_header(lines, from)
        } else if is_header(line) {
            lines.len() as int
        } else {
            (lines.len() + 1) as int
        },
    decreases lines.len() - from,
{
    let longer = lines.push(line);
    if from < lines.len() {
        assert(longer[from] == lines[from]);
        if !is_header(lines[from]) {
            lemma_next_header_grows(lines, line, from + 1);
        }
    } else {
        assert(longer[from] == line);
        if !is_header(line) {
            assert(next_header(longer, from + 1) == longer.len());
        }
    }
}

/// What one more line at the end does to the records: a header line adds
/// a record, any other line is absorbed by the last record, if there is
/// one.
proof fn lemma_records_grow(lines: Seq<Seq<char>>, line: Seq<char>, from: int)
    requires
        0 <= from <= lines.len(),
    ensures
        ({
            let before = records_from(lines, from);
            let after_line = records_from(lines.push(line), from);
            if is_header(line) {
                after_line == before.push(opened(line))
            } else if before.len() > 0 {
                after_line == before.update(before.len() - 1, absorb(before.last(), line))
            } else {
                after_line == before
            }
        }),
    decreases lines.len() - from,
{
    let longer = lines.push(line);
    let n = lines.len() as int;
    lemma_next_header(lines, from);
    lemma_next_header_grows(lines, line, from);
    lemma_block_grows(line, Seq::empty(), line);
    let header = next_header(lines, from);
    if header >= n {
        if is_header(line) {
            assert(longer[n] == line);
            assert(next_header(longer, n + 1) == n + 1);
            assert(longer.subrange(n + 1, n + 1) == Seq::<Seq<char>>::empty());
            assert(records_from(longer, n + 1) == Seq::<BuilderView>::empty());
            assert(records_from(longer, from) == seq![opened(line)]);
            assert(Seq::<BuilderView>::empty().push(opened(line)) == seq![opened(line)]);
        }
    } else {
        assert(longer[header] == lines[header]);
        lemma_next_header(lines, header + 1);
        lemma_next_header_grows(lines, line, header + 1);
        let end = next_header(lines, header + 1);
        let body = lines.subrange(header + 1, end);
        let first = block_record(lines[header], body);
        if end < n {
            assert(longer.subrange(header + 1, end) == body);
            lemma_records_grow(lines, line, end);
            let rest = records_from(lines, end);
            let rest_after = records_from(longer, end);
            lemma_next_header(lines, end);
            assert(rest.len() > 0) by {
                assert(next_header(lines, end) == end);
            }
            assert(records_from(lines, from) == seq![first] + rest);
            assert(records_from(longer, from) == seq![first] + rest_after);
            if is_header(line) {
                assert(seq![first] + rest.push(opened(line)) == (seq![first] + rest).push(
                    opened(line),
                ));
            } else {
                let all = seq![first] + rest;
                assert(all.last() == rest.last());
                assert(seq![first] + rest.update(rest.len() - 1, absorb(rest.last(), line))
                    == all.update(all.len() - 1, absorb(all.last(), line)));
            }
        } else {
            assert(records_from(lines, n) == Seq::<BuilderView>::empty());
            assert(records_from(lines, from) == seq![first] + Seq::<BuilderView>::empty());
            assert(seq![first] + Seq::<BuilderView>::empty() == seq![first]);
            if is_header(line) {
                assert(longer.subrange(header + 1, n) == body);
                assert(longer[n] == line);
                assert(next_header(longer, n + 1) == n + 1);
                assert(longer.subrange(n + 1, n + 1) == Seq::<Seq<char>>::empty());
                assert(records_from(longer, n + 1) == Seq::<BuilderView>::empty());
                assert(records_from(longer, n) == seq![opened(line)] + Seq::<
                    BuilderView,
                >::empty());
                assert(records_from(longer, from) == seq![first] + (seq![opened(line)] + Seq::<
                    BuilderView,
                >::empty()));
                assert(seq![first] + (seq![opened(line)] + Seq::<BuilderView>::empty()) == seq![
                    first,
                ].push(opened(line)));
            } else {
                assert(longer.subrange(header + 1, n + 1) == body.push(line));
                lemma_block_grows(lines[header], body, line);
                assert(records_from(longer, n + 1) == Seq::<BuilderView>::empty());
                assert(records_from(longer, from) == seq![absorb(first, line)] + Seq::<
                    BuilderView,
                >::empty());
                assert(seq![absorb(first, line)] + Seq::<BuilderView>::empty() == seq![
                    first,
                ].update(0, absorb(first, line)));
            }
        }
    }
}

/// Reading the lines one after another gives the records of the blocks.
pub proof fn lemma_blocks_are_records(lines: Seq<Seq<char>>)
    ensures
        blocks(lines) == records_from(lines, 0),
    decreases lines.len(),
{
    if lines.len() > 0 {
        let shorter = lines.drop_last();
        lemma_blocks_are_records(shorter);
        lemma_records_grow(shorter, lines.last(), 0);
        assert(shorter.push(lines.last()) == lines);
    }
}

/// The number of header lines among the given lines.
pub open spec fn header_count(lines: Seq<Seq<char>>) -> nat
    decreases lines.len(),
{
    if lines.len() == 0 {
        0
    } else {
        header_count(lines.drop_last()) + if is_header(lines.last()) {
            1nat
        } else {
            0nat
        }
    }
}

/// Every header line gives exactly one record, and every record has a path.
pub proof fn lemma_one_record_per_header(lines: Seq<Seq<char>>)
    ensures
        blocks(lines).len() == header_count(lines),
        records_from(lines, 0).len() == header_count(lines),
        forall|i: int| 0 <= i < blocks(lines).len() ==> (#[trigger] blocks(lines)[i]).path is Some,
    decreases lines.len(),
{
    lemma_blocks_are_records(lines);
    if lines.len() > 0 {
        lemma_one_record_per_header(lines.drop_last());
    }
}

/// The number of records parsed from a text is the number of its lines that
/// begin with `worktree `.
pub proof fn lemma_record_count(text: Seq<char>, current_dir: Option<Seq<char>>)
    ensures
        parsed_worktrees(text, current_dir).len() == header_count(lines(text)),
{
    lemma_one_record_per_header(lines(text));
}

/// Whether a line is none of the forms that the reading recognises.
pub open spec fn is_unknown_line(line: Seq<char>) -> bool {
    &&& !is_header(line)
    &&& !"HEAD "@.is_prefix_of(line)
    &&& !"branch "@.is_prefix_of(line)
    &&& line != "bare"@
    &&& line != "detached"@
}

/// A line that is none of the recognised forms changes nothing, wherever
/// it stands: the lines with it describe the same records as the lines
/// without it.
pub proof fn lemma_unknown_line_ignored(
    before: Seq<Seq<char>>,
    line: Seq<char>,
    following: Seq<Seq<char>>,
)
    requires
        is_unknown_line(line),
    ensures
        records_from(before + seq![line] + following, 0) == records_from(before + following, 0),
    decreases following.len(),
{
    let with_line = before + seq![line] + following;
    let without = before + following;
    lemma_blocks_are_records(with_line);
    lemma_blocks_are_records(without);
    if following.len() == 0 {
        assert(without == before);
        assert(with_line == before.push(line));
        assert(with_line.drop_last() == before);
        let records = blocks(before);
        if records.len() > 0 {
            assert(absorb(records.last(), line) == records.last());
            assert(records.update(records.len() - 1, records.last()) == records);
        }
    } else {
        let shorter = following.drop_last();
        lemma_unknown_line_ignored(before, line, shorter);
        lemma_blocks_are_records(before + seq![line] + shorter);
        lemma_blocks_are_records(before + shorter);
        assert(with_line.drop_last() == before + seq![line] + shorter);
        assert(without.drop_last() == before + shorter);
        assert(with_line.last() == following.last());
        assert(without.last() == following.last());
    }
}

/// A record as it is built from its fields has status `Unknown`, whatever
/// the fields are, and is marked bare and detached as the fields say: so a
/// bare or detached record has status `Unknown` regardless of its branch,
/// commit and path.
pub proof fn lemma_built_unknown(b: BuilderView, current_dir: Option<Seq<char>>)
    ensures
        built(b, current_dir).status == WorktreeStatus::Unknown,
        built(b, current_dir).is_bare == b.is_bare,
        built(b, current_dir).is_detached == b.is_detached,
        built(b, current_dir).consistent(),
{
}

/// Every parsed record keeps the record invariant, and a bare or detached
/// record has status `Unknown`.
pub proof fn lemma_parsed_consistent(text: Seq<char>, current_dir: Option<Seq<char>>, i: int)
    requires
        0 <= i < parsed_worktrees(text, current_dir).len(),
    ensures
        parsed_worktrees(text, current_dir)[i].consistent(),
        parsed_worktrees(text, current_dir)[i].status == WorktreeStatus::Unknown,
{
}

impl WorktreeInfoBuilder {
    /// The builder that a header line opens.
    fn open_record(line: &[char], prefix: &[char]) -> (b: WorktreeInfoBuilder)
        requires
            prefix@ == "worktree "@,
            is_header(line@),
        ensures
            b@ == opened(line@),
    {
        let mut b = WorktreeInfoBuilder::default();
        b.path = Some(to_text(skip_chars(line, prefix.len())));
        b
    }

    /// Takes one line of the record's block into the builder.
    fn absorb_line(&mut self, line: &[char])
        ensures
            final(self)@ == absorb(old(self)@, line@),
    {
        let head = to_chars("HEAD ");
        let branch = to_chars("branch ");
        let local = to_chars("branch refs/heads/");
        let bare = to_chars("bare");
        let detached = to_chars("detached");
        proof {
            reveal_strlit("HEAD ");
            reveal_strlit("branch ");
            reveal_strlit("branch refs/heads/");
            reveal_strlit("bare");
            reveal_strlit("detached");
        }
        if has_prefix(line, head.as_slice()) {
            proof {
                lemma_first_char(head@, line@);
                if branch@.is_prefix_of(line@) {
                    lemma_first_char(branch@, line@);
                }
            }
            self.commit = Some(to_text(skip_chars(line, head.len())));
        } else if has_prefix(line, branch.as_slice()) {
            proof {
                lemma_first_char(branch@, line@);
            }
            let name = if has_prefix(line, local.as_slice()) {
                to_text(skip_chars(line, local.len()))
            } else {
                to_text(skip_chars(line, branch.len()))
            };
            self.branch = Some(name);
        } else if same_chars(line, bare.as_slice()) {
            self.is_bare = true;
        } else if same_chars(line, detached.as_slice()) {
            self.is_detached = true;
        }
    }
}

/// A line starts with the first character of any non-empty prefix of it.
proof fn lemma_first_char(prefix: Seq<char>, line: Seq<char>)
    requires
        prefix.is_prefix_of(line),
        prefix.len() > 0,
    ensures
        line.len() >= prefix.len(),
        line[0] == prefix[0],
{
    assert(line.subrange(0, prefix.len() as int)[0] == prefix[0]);
}

/// Reads the listing that `git worktree list --porcelain` writes.
///
/// Every line that begins with `worktree ` gives one record, in order; no
/// text makes the reading fail. The records are not yet classified: each
/// has status `Unknown`. `current_dir` is the caller's working directory,
/// if known; the record whose path holds it is marked current.
pub fn parse_worktree_list(output: &str, current_dir: Option<&str>) -> (out: Vec<WorktreeInfo>)
    ensures
        worktree_views(out@) == parsed_worktrees(output@, optional_str(current_dir)),
        out@.len() == header_count(lines(output@)),
        forall|i: int| 0 <= i < out@.len() ==> (#[trigger] out@[i])@.consistent(),
{
    let text = to_chars(output);
    let all = split_lines(text.as_slice());
    let prefix = to_chars("worktree ");
    let ghost cwd = optional_str(current_dir);
    let mut out: Vec<WorktreeInfo> = Vec::new();
    let mut current: Option<WorktreeInfoBuilder> = None;
    let mut i: usize = 0;
    assert(rows(all@).take(0) == Seq::<Seq<char>>::empty());
    while i < all.len()
        invariant
            i <= all.len(),
            prefix@ == "worktree "@,
            cwd == optional_str(current_dir),
            rows(all@) == lines(output@),
            match current {
                Some(b) => blocks(rows(all@).take(i as int)).len() == out@.len() + 1 && b@
                    == blocks(rows(all@).take(i as int)).last(),
                None => blocks(rows(all@).take(i as int)).len() == 0 && out@.len() == 0,
            },
            forall|k: int|
                0 <= k < out@.len() ==> (#[trigger] out@[k])@ == built(
                    blocks(rows(all@).take(i as int))[k],
                    cwd,
                ),
        decreases all.len() - i,
    {
        let line = all[i].as_slice();
        let ghost before = rows(all@).take(i as int);
        let ghost upto = rows(all@).take(i + 1);
        proof {
            assert(upto.drop_last() == before);
            assert(upto.last() == line@);
            lemma_one_record_per_header(before);
        }
        if has_prefix(line, prefix.as_slice()) {
            match current {
                Some(b) => {
                    match b.build(current_dir) {
                        Some(w) => {
                            out.push(w);
                        },
                        None => {},
                    }
                },
                None => {},
            }
            current = Some(WorktreeInfoBuilder::open_record(line, prefix.as_slice()));
        } else {
            match current {
                Some(mut b) => {
                    b.absorb_line(line);
                    current = Some(b);
                },
                None => {},
            }
        }
        i += 1;
    }
    assert(rows(all@).take(all.len() as int) == rows(all@));
    proof {
        lemma_one_record_per_header(lines(output@));
    }
    match current {
        Some(b) => {
            match b.build(current_dir) {
                Some(w) => {
                    out.push(w);
                },
                None => {},
            }
        },
        None => {},
    }
    proof {
        lemma_blocks_are_records(lines(output@));
    }
    assert(worktree_views(out@) =~= parsed_worktrees(output@, cwd));
    out
}

} // verus!
