//! Branches: whether one exists, and which there are.
use crate::error::{DevError, ErrorKind};
use crate::git::{expect_success, git_failure};
use crate::process::{
    command_succeeded, git, strings2, strings3, strings4, succeeded, CommandLine, CommandOutput,
};
use crate::text::{
    concat2, has_prefix, lines, rows, same_chars, skip_chars, split_lines, texts,
    to_chars, to_text, trim, trim_text, trimmed,
};
use vstd::prelude::*;

verus! {

/// Whether `a` comes before `b` in the order of strings: at the first
/// place where the two differ `a` has the smaller character, or `a` ends
/// there and `b` does not.
pub open spec fn precedes(a: Seq<char>, b: Seq<char>) -> bool
    decreases a.len(),
{
    if b.len() == 0 {
        false
    } else if a.len() == 0 {
        true
    } else if a[0] != b[0] {
        (a[0] as int) < (b[0] as int)
    } else {
        precedes(a.skip(1), b.skip(1))
    }
}

/// The order is transitive.
pub proof fn lemma_precedes_transitive(a: Seq<char>, b: Seq<char>, c: Seq<char>)
    requires
        precedes(a, b),
        precedes(b, c),
    ensures
        precedes(a, c),
    decreases a.len(),
{
    if a.len() > 0 && b.len() > 0 && c.len() > 0 && a[0] == b[0] && b[0] == c[0] {
        lemma_precedes_transitive(a.skip(1), b.skip(1), c.skip(1));
    }
}

/// Of two different texts one comes before the other.
pub proof fn lemma_precedes_total(a: Seq<char>, b: Seq<char>)
    requires
        !precedes(a, b),
        !precedes(b, a),
    ensures
        a == b,
    decreases a.len(),
{
    if a.len() > 0 && b.len() > 0 {
        if a[0] != b[0] {
            assert((a[0] as int) != (b[0] as int));
        }
        lemma_precedes_total(a.skip(1), b.skip(1));
        assert(a =~= seq![a[0]] + a.skip(1));
        assert(b =~= seq![b[0]] + b.skip(1));
    } else {
        assert(a =~= b);
    }
}

/// Whether `a` comes before `b` in the order of strings.
pub fn chars_precede(a: &[char], b: &[char]) -> (r: bool)
    ensures
        r == precedes(a@, b@),
{
    let mut i: usize = 0;
    assert(a@.skip(0) == a@ && b@.skip(0) == b@);
    while i < a.len() && i < b.len()
        invariant
            i <= a.len(),
            i <= b.len(),
            precedes(a@, b@) == precedes(a@.skip(i as int), b@.skip(i as int)),
        decreases a.len() - i,
    {
        assert(a@.skip(i as int)[0] == a@[i as int]);
        assert(b@.skip(i as int)[0] == b@[i as int]);
        if a[i] != b[i] {
            return a[i] < b[i];
        }
        assert(a@.skip(i as int).skip(1) == a@.skip(i + 1));
        assert(b@.skip(i as int).skip(1) == b@.skip(i + 1));
        i += 1;
    }
    i < b.len()
}

/// Whether the texts stand in strictly ascending order: sorted, and none
/// twice.
pub open spec fn strictly_ascending(v: Seq<Seq<char>>) -> bool {
    forall|i: int, j: int| 0 <= i < j < v.len() ==> precedes(#[trigger] v[i], #[trigger] v[j])
}

/// `s` with every occurrence of `pat` taken out, reading from the left.
pub open spec fn without(s: Seq<char>, pat: Seq<char>) -> Seq<char>
    decreases s.len(),
{
    if s.len() == 0 {
        s
    } else if pat.len() > 0 && pat.is_prefix_of(s) {
        without(s.skip(pat.len() as int), pat)
    } else {
        seq![s[0]] + without(s.skip(1), pat)
    }
}

/// Takes every occurrence of `pat` out of `s`.
pub fn remove_all(s: &[char], pat: &[char]) -> (out: Vec<char>)
    ensures
        out@ == without(s@, pat@),
{
    let mut out: Vec<char> = Vec::new();
    let mut i: usize = 0;
    assert(s@.skip(0) == s@);
    assert(out@ + without(s@, pat@) == without(s@, pat@));
    while i < s.len()
        invariant
            i <= s.len(),
            without(s@, pat@) == out@ + without(s@.skip(i as int), pat@),
        decreases s.len() - i,
    {
        let rest = skip_chars(s, i);
        if pat.len() > 0 && has_prefix(rest, pat) {
            assert(rest@.skip(pat.len() as int) == s@.skip(i + pat.len()));
            i += pat.len();
        } else {
            assert(rest@.skip(1) == s@.skip(i + 1));
            assert(out@.push(s@[i as int]) + without(s@.skip(i + 1), pat@) == out@ + (seq![
                s@[i as int],
            ] + without(s@.skip(i + 1), pat@)));
            out.push(s[i]);
            i += 1;
        }
    }
    assert(out@ + Seq::<char>::empty() == out@);
    out
}

/// The branch that a line of the branch listing names, if any: the line
/// without the white space around it and without any `origin/`. Empty
/// lines and the remote's `HEAD` entry name none.
pub open spec fn branch_entry(line: Seq<char>) -> Option<Seq<char>> {
    let t = trimmed(line);
    if t.len() == 0 || "origin/HEAD"@.is_prefix_of(t) {
        None
    } else {
        Some(without(t, "origin/"@))
    }
}

/// Whether some line of the listing names the branch.
pub open spec fn is_listed(listing: Seq<char>, name: Seq<char>) -> bool {
    exists|i: int|
        0 <= i < lines(listing).len() && branch_entry(#[trigger] lines(listing)[i]) == Some(name)
}

/// The command that lists the branches, local ones or all.
pub fn list_branches_command(include_remote: bool) -> (c: CommandLine)
    ensures
        c@ == git(
            if include_remote {
                seq!["branch"@, "-a"@, "--format=%(refname:short)"@]
            } else {
                seq!["branch"@, "--format=%(refname:short)"@]
            },
            None,
        ),
{
    if include_remote {
        CommandLine::git(strings3("branch", "-a", "--format=%(refname:short)"), None)
    } else {
        CommandLine::git(strings2("branch", "--format=%(refname:short)"), None)
    }
}

/// Puts `name` into the ascending list unless it is there already.
fn insert_sorted(out: &mut Vec<Vec<char>>, name: Vec<char>)
    requires
        strictly_ascending(rows(old(out)@)),
    ensures
        strictly_ascending(rows(final(out)@)),
        forall|x: Seq<char>|
            rows(final(out)@).contains(x) <==> (rows(old(out)@).contains(x) || x == name@),
{
    let ghost before = rows(out@);
    let mut p: usize = 0;
    while p < out.len() && chars_precede(out[p].as_slice(), name.as_slice())
        invariant
            p <= out@.len(),
            before == rows(out@),
            forall|j: int| 0 <= j < p ==> precedes(#[trigger] before[j], name@),
        decreases out@.len() - p,
    {
        assert(before[p as int] == out@[p as int]@);
        p += 1;
    }
    if p < out.len() && same_chars(out[p].as_slice(), name.as_slice()) {
        assert(before[p as int] == name@);
        assert forall|x: Seq<char>| before.contains(x) <==> (before.contains(x) || x == name@) by {
            if x == name@ {
                assert(before[p as int] == x);
            }
        }
        return ;
    }
    proof {
        if p < out@.len() {
            assert(before[p as int] == out@[p as int]@);
            if !precedes(name@, before[p as int]) {
                lemma_precedes_total(name@, before[p as int]);
            }
        }
    }
    let ghost name_view = name@;
    out.insert(p, name);
    proof {
        let after = rows(out@);
        assert(after =~= before.insert(p as int, name_view));
        assert forall|i: int, j: int| 0 <= i < j < after.len() implies precedes(
            #[trigger] after[i],
            #[trigger] after[j],
        ) by {
            if j < p {
                assert(after[i] == before[i] && after[j] == before[j]);
            } else if j == p {
                assert(after[i] == before[i]);
            } else if i == p {
                assert(after[j] == before[j - 1]);
                if j - 1 > p {
                    assert(precedes(before[p as int], before[j - 1]));
                    lemma_precedes_transitive(name_view, before[p as int], before[j - 1]);
                }
            } else if i < p {
                assert(after[i] == before[i] && after[j] == before[j - 1]);
            } else {
                assert(after[i] == before[i - 1] && after[j] == before[j - 1]);
            }
        }
        assert forall|x: Seq<char>| after.contains(x) <==> (before.contains(x) || x
            == name_view) by {
            if after.contains(x) {
                let k = choose|k: int| 0 <= k < after.len() && after[k] == x;
                if k < p {
                    assert(before[k] == x);
                } else if k > p {
                    assert(before[k - 1] == x);
                }
            }
            if before.contains(x) {
                let k = choose|k: int| 0 <= k < before.len() && before[k] == x;
                if k < p {
                    assert(after[k] == x);
                } else {
                    assert(after[k + 1] == x);
                }
            }
            if x == name_view {
                assert(after[p as int] == x);
            }
        }
    }
}

/// Reads the branch listing: the branches that its lines name, each once,
/// in ascending order. A failed listing means there is no repository.
pub fn list_branches(output: &CommandOutput) -> (r: Result<Vec<String>, DevError>)
    ensures
        match r {
            Ok(names) => {
                &&& output.success
                &&& strictly_ascending(texts(names@))
                &&& forall|x: Seq<char>|
                    texts(names@).contains(x) <==> is_listed(output.stdout@, x)
            },
            Err(e) => !output.success && e@.0 == ErrorKind::NotGitRepository,
        },
{
    if !output.success {
        return Err(DevError::NotGitRepository);
    }
    let text = to_chars(output.stdout.as_str());
    let all = split_lines(text.as_slice());
    let remote_head = to_chars("origin/HEAD");
    let remote = to_chars("origin/");
    let ghost ls = lines(output.stdout@);
    let mut sorted: Vec<Vec<char>> = Vec::new();
    let mut i: usize = 0;
    while i < all.len()
        invariant
            i <= all.len(),
            rows(all@) == ls,
            remote_head@ == "origin/HEAD"@,
            remote@ == "origin/"@,
            strictly_ascending(rows(sorted@)),
            forall|x: Seq<char>|
                rows(sorted@).contains(x) <==> exists|k: int|
                    0 <= k < i && branch_entry(#[trigger] ls[k]) == Some(x),
        decreases all.len() - i,
    {
        let line = trim(all[i].as_slice());
        assert(all@[i as int]@ == ls[i as int]);
        let ghost before = rows(sorted@);
        if line.len() > 0 && !has_prefix(line, remote_head.as_slice()) {
            let name = remove_all(line, remote.as_slice());
            insert_sorted(&mut sorted, name);
            assert forall|x: Seq<char>| rows(sorted@).contains(x) <==> exists|k: int|
                0 <= k < i + 1 && branch_entry(#[trigger] ls[k]) == Some(x) by {
                if rows(sorted@).contains(x) {
                    if before.contains(x) {
                        let k = choose|k: int|
                            0 <= k < i && branch_entry(#[trigger] ls[k]) == Some(x);
                        assert(0 <= k < i + 1 && branch_entry(ls[k]) == Some(x));
                    } else {
                        assert(branch_entry(ls[i as int]) == Some(x));
                    }
                }
                if exists|k: int| 0 <= k < i + 1 && branch_entry(#[trigger] ls[k]) == Some(x) {
                    let k = choose|k: int|
                        0 <= k < i + 1 && branch_entry(#[trigger] ls[k]) == Some(x);
                    if k < i {
                        assert(before.contains(x));
                    }
                }
            }
        } else {
            assert(branch_entry(ls[i as int]) is None);
            assert forall|x: Seq<char>| rows(sorted@).contains(x) <==> exists|k: int|
                0 <= k < i + 1 && branch_entry(#[trigger] ls[k]) == Some(x) by {
                if rows(sorted@).contains(x) {
                    let k = choose|k: int|
                        0 <= k < i && branch_entry(#[trigger] ls[k]) == Some(x);
                    assert(0 <= k < i + 1 && branch_entry(ls[k]) == Some(x));
                }
                if exists|k: int| 0 <= k < i + 1 && branch_entry(#[trigger] ls[k]) == Some(x) {
                    let k = choose|k: int|
                        0 <= k < i + 1 && branch_entry(#[trigger] ls[k]) == Some(x);
                    assert(k < i);
                }
            }
        }
        i += 1;
    }
    let mut names: Vec<String> = Vec::new();
    let mut j: usize = 0;
    while j < sorted.len()
        invariant
            j <= sorted.len(),
            names@.len() == j,
            forall|k: int| 0 <= k < j ==> (#[trigger] names@[k])@ == sorted@[k]@,
        decreases sorted.len() - j,
    {
        names.push(to_text(sorted[j].as_slice()));
        j += 1;
    }
    assert(texts(names@) =~= rows(sorted@));
    Ok(names)
}

/// Whether a branch of that name is among the listed ones. A listing that
/// could not be had or that failed lists none.
pub fn branch_exists(name: &str, listing: Option<&CommandOutput>) -> (r: bool)
    ensures
        r == match listing {
            Some(out) => out.success && is_listed(out.stdout@, name@),
            None => false,
        },
{
    let out = match listing {
        Some(out) => out,
        None => {
            return false;
        },
    };
    let names = match list_branches(out) {
        Ok(names) => names,
        Err(_) => {
            return false;
        },
    };
    let wanted = to_chars(name);
    let mut i: usize = 0;
    while i < names.len()
        invariant
            i <= names.len(),
            wanted@ == name@,
            texts(names@).contains(name@) <==> is_listed(out.stdout@, name@),
            out.success,
            listing == Some(out),
            forall|k: int| 0 <= k < i ==> (#[trigger] texts(names@)[k]) != name@,
        decreases names.len() - i,
    {
        let candidate = to_chars(names[i].as_str());
        if same_chars(candidate.as_slice(), wanted.as_slice()) {
            assert(texts(names@)[i as int] == name@);
            return true;
        }
        i += 1;
    }
    assert(!texts(names@).contains(name@));
    false
}

/// The probe for a local branch of that name.
pub fn branch_exists_locally_command(name: &str) -> (c: CommandLine)
    ensures
        c@ == git(seq!["show-ref"@, "--verify"@, "--quiet"@, "refs/heads/"@ + name@], None),
{
    let reference = concat2("refs/heads/", name);
    CommandLine::git(strings4("show-ref", "--verify", "--quiet", reference.as_str()), None)
}

/// Whether the probe found the local branch. A probe that could not run
/// found none.
pub fn branch_exists_locally(probe: Option<&CommandOutput>) -> (r: bool)
    ensures
        r == succeeded(probe),
{
    command_succeeded(probe)
}

/// The probe for a branch of that name on `origin`.
pub fn branch_exists_on_remote_command(name: &str) -> (c: CommandLine)
    ensures
        c@ == git(
            seq!["show-ref"@, "--verify"@, "--quiet"@, "refs/remotes/origin/"@ + name@],
            None,
        ),
{
    let reference = concat2("refs/remotes/origin/", name);
    CommandLine::git(strings4("show-ref", "--verify", "--quiet", reference.as_str()), None)
}

/// Whether the probe found the branch on `origin`. A probe that could not
/// run found none.
pub fn branch_exists_on_remote(probe: Option<&CommandOutput>) -> (r: bool)
    ensures
        r == succeeded(probe),
{
    command_succeeded(probe)
}

/// The command that names the branch that is checked out.
pub fn get_current_branch_command() -> (c: CommandLine)
    ensures
        c@ == git(seq!["symbolic-ref"@, "--short"@, "HEAD"@], None),
{
    CommandLine::git(strings3("symbolic-ref", "--short", "HEAD"), None)
}

/// The branch that is checked out: the command's output without the white
/// space around it. A failed command means a detached head: no branch.
pub fn get_current_branch(output: &CommandOutput) -> (r: Option<String>)
    ensures
        match r {
            Some(b) => output.success && b@ == trimmed(output.stdout@),
            None => !output.success,
        },
{
    if output.success {
        Some(trim_text(output.stdout.as_str()))
    } else {
        None
    }
}

/// The command that creates a branch, at `start_point` if one is given.
pub fn create_branch_command(name: &str, start_point: Option<&str>) -> (c: CommandLine)
    ensures
        c@ == git(
            match start_point {
                Some(sp) => seq!["branch"@, name@, sp@],
                None => seq!["branch"@, name@],
            },
            None,
        ),
{
    match start_point {
        Some(sp) => CommandLine::git(strings3("branch", name, sp), None),
        None => CommandLine::git(strings2("branch", name), None),
    }
}

/// What creating the branch amounted to; a failure carries git's
/// diagnostic.
pub fn create_branch(output: &CommandOutput) -> (r: Result<(), DevError>)
    ensures
        match r {
            Ok(_) => output.success,
            Err(e) => !output.success && e@ == git_failure(
                "Failed to create branch: "@,
                trimmed(output.stderr@),
            ),
        },
{
    expect_success(output, "Failed to create branch: ")
}

} // verus!
