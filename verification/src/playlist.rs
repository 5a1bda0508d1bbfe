//! Reading a playlist file: one path per line, `//` starts a comment line, and
//! the first `~` of a path stands for the home directory.  Which of the
//! resulting paths name existing files is checked by the caller.

use vstd::prelude::*;

verus! {

/// The line is a comment: it starts with `//`.
pub open spec fn is_comment(line: Seq<char>) -> bool {
    line.len() >= 2 && line[0] == '/' && line[1] == '/'
}

/// The position of the first `~` in `s` at or after `from`, or -1 if there is none.
pub open spec fn tilde_from(s: Seq<char>, from: int) -> int
    decreases s.len() - from,
{
    if from < 0 || from >= s.len() {
        -1
    } else if s[from] == '~' {
        from
    } else {
        tilde_from(s, from + 1)
    }
}

/// `s` with its first `~` replaced by `home` (`s` itself if it has none).
pub open spec fn expand_home(s: Seq<char>, home: Seq<char>) -> Seq<char> {
    let k = tilde_from(s, 0);
    if k < 0 {
        s
    } else {
        s.subrange(0, k) + home + s.subrange(k + 1, s.len() as int)
    }
}

/// The playlist entry that a line gives: none for a comment, else the line with
/// its first `~` expanded to the home directory.
pub open spec fn entry_of(line: Seq<char>, home: Seq<char>) -> Option<Seq<char>> {
    if is_comment(line) {
        None
    } else {
        Some(expand_home(line, home))
    }
}

/// The entries that the first `n` lines give, in order.
pub open spec fn entries_of(lines: Seq<Seq<char>>, home: Seq<char>, n: nat) -> Seq<Seq<char>>
    decreases n,
{
    if n == 0 {
        Seq::empty()
    } else {
        let before = entries_of(lines, home, (n - 1) as nat);
        match entry_of(lines[n - 1], home) {
            Some(e) => before.push(e),
            None => before,
        }
    }
}

/// The views of a list of strings.
pub open spec fn string_views(v: Seq<String>) -> Seq<Seq<char>> {
    v.map_values(|s: String| s@)
}

/// The position of the first `~` in `s`, or `s`'s length if there is none.
fn find_tilde(s: &str) -> (r: usize)
    ensures
        r <= s@.len(),
        tilde_from(s@, 0) == (if r == s@.len() { -1 } else { r as int }),
{
    let len = s.unicode_len();
    let mut i: usize = 0;
    while i < len && s.get_char(i) != '~'
        invariant
            len == s@.len(),
            i <= len,
            tilde_from(s@, 0) == tilde_from(s@, i as int),
        decreases len - i,
    {
        i = i + 1;
    }
    i
}

/// The playlist entry that one line gives (see `entry_of`).
pub fn playlist_entry(line: &str, home: &str) -> (r: Option<String>)
    ensures
        r is Some <==> entry_of(line@, home@) is Some,
        r is Some ==> r->0@ == entry_of(line@, home@)->0,
{
    let len = line.unicode_len();
    if len >= 2 && line.get_char(0) == '/' && line.get_char(1) == '/' {
        return None;
    }
    let k = find_tilde(line);
    let mut out = String::new();
    if k == len {
        out.append(line);
    } else {
        out.append(line.substring_char(0, k));
        out.append(home);
        out.append(line.substring_char(k + 1, len));
    }
    Some(out)
}

/// The playlist entries that the lines of a playlist file give, in order:
/// comment lines are left out, and in each other line the first `~` becomes the
/// home directory.
pub fn playlist_candidates(lines: &Vec<String>, home: &str) -> (r: Vec<String>)
    ensures
        string_views(r@) == entries_of(string_views(lines@), home@, lines@.len()),
{
    let mut r: Vec<String> = Vec::new();
    let mut i: usize = 0;
    while i < lines.len()
        invariant
            i <= lines@.len(),
            string_views(r@) == entries_of(string_views(lines@), home@, i as nat),
        decreases lines@.len() - i,
    {
        let ghost before = r@;
        let entry = playlist_entry(lines[i].as_str(), home);
        assert(string_views(lines@)[i as int] == lines@[i as int]@);
        match entry {
            Some(e) => {
                r.push(e);
                assert(string_views(r@) =~= string_views(before).push(e@));
            },
            None => {},
        }
        i = i + 1;
    }
    r
}

/// A line that is no comment and has no `~` enters the playlist unchanged.
pub proof fn lemma_plain_line_kept(line: Seq<char>, home: Seq<char>)
    requires
        !is_comment(line),
        forall|i: int| 0 <= i < line.len() ==> line[i] != '~',
    ensures
        entry_of(line, home) == Some(line),
{
    lemma_no_tilde_from(line, 0);
}

/// Without a `~` at or after `from`, none is found.
proof fn lemma_no_tilde_from(s: Seq<char>, from: int)
    requires
        0 <= from,
        forall|i: int| from <= i < s.len() ==> s[i] != '~',
    ensures
        tilde_from(s, from) == -1,
    decreases s.len() - from,
{
    if from < s.len() {
        lemma_no_tilde_from(s, from + 1);
    }
}

/// Only the first `~` is expanded: the entry is the text before it, the home
/// directory, and the rest of the line untouched (later `~`s included).
pub proof fn lemma_first_tilde_expanded(line: Seq<char>, home: Seq<char>, k: int)
    requires
        !is_comment(line),
        0 <= k < line.len(),
        line[k] == '~',
        forall|i: int| 0 <= i < k ==> line[i] != '~',
    ensures
        entry_of(line, home) == Some(line.subrange(0, k) + home + line.subrange(k + 1, line.len() as int)),
{
    lemma_tilde_found(line, 0, k);
}

/// The first `~` at or after `from` is found.
proof fn lemma_tilde_found(s: Seq<char>, from: int, k: int)
    requires
        0 <= from <= k < s.len(),
        s[k] == '~',
        forall|i: int| from <= i < k ==> s[i] != '~',
    ensures
        tilde_from(s, from) == k,
    decreases k - from,
{
    if from < k {
        lemma_tilde_found(s, from + 1, k);
    }
}

/// Comment lines never enter the playlist, whatever surrounds them: adding one
/// to a playlist file leaves its entries as they were.
pub proof fn lemma_comment_ignored(lines: Seq<Seq<char>>, home: Seq<char>, comment: Seq<char>)
    requires
        is_comment(comment),
    ensures
        entries_of(lines.push(comment), home, lines.len() + 1) == entries_of(lines, home, lines.len()),
{
    lemma_entries_prefix(lines, lines.push(comment), home, lines.len());
}

/// The entries of the first `n` lines depend on those lines only.
proof fn lemma_entries_prefix(a: Seq<Seq<char>>, b: Seq<Seq<char>>, home: Seq<char>, n: nat)
    requires
        n <= a.len(),
        n <= b.len(),
        forall|i: int| 0 <= i < n ==> a[i] == b[i],
    ensures
        entries_of(a, home, n) == entries_of(b, home, n),
    decreases n,
{
    if n > 0 {
        lemma_entries_prefix(a, b, home, (n - 1) as nat);
    }
}

} // verus!
