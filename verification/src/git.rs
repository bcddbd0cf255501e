//! Branch-status data and the pure logic around git probing: deciding an
//! entry's status from probe outcomes, parsing `git diff --shortstat`
//! output, and rendering a status summary as text.

use vstd::prelude::*;

use crate::chars::{
    all_digits, chars_to_string, contains_chars, dec_str, dec_value, digit_value, extract_spec,
    first_digit_token, is_digit_char, push_dec, seq_contains, string_to_chars,
    token_value, tokens_from, trim_chars, trim_spec,
};
use crate::editor::{is_space_char, scan_ws_right, scan_word_right};

verus! {

/// The insertion and deletion counts of a working-tree diff.
#[derive(Clone, Copy, Debug, PartialEq, Eq, Structural)]
pub struct DiffStat {
    pub additions: u32,
    pub deletions: u32,
}

impl Default for DiffStat {
    /// An empty diff: no insertions, no deletions.
    fn default() -> (r: Self)
        ensures
            r.additions == 0,
            r.deletions == 0,
    {
        DiffStat { additions: 0, deletions: 0 }
    }
}

/// A probed branch: its name and the pending diff counts.
#[derive(Clone, Debug)]
pub struct GitBranchInfo {
    pub name: String,
    pub additions: u32,
    pub deletions: u32,
}

/// One registered directory's status: not yet probed, probed with a branch,
/// gone from disk, not a repository, or failed with a message.
#[derive(Clone, Debug)]
pub enum BranchState {
    Unknown,
    Ready(GitBranchInfo),
    Missing,
    NotGit,
    Error(String),
}

/// The one-line summary of a branch: the bare name when the diff is empty,
/// otherwise the name followed by the non-zero counts in parentheses.
pub open spec fn summary_of(name: Seq<char>, a: u32, d: u32) -> Seq<char> {
    if a == 0 && d == 0 {
        name
    } else {
        name + seq![' ', '('] + (if a > 0 {
            seq!['+'] + dec_str(a as int)
        } else {
            Seq::empty()
        }) + (if a > 0 && d > 0 {
            seq![' ']
        } else {
            Seq::empty()
        }) + (if d > 0 {
            seq!['-'] + dec_str(d as int)
        } else {
            Seq::empty()
        }) + seq![')']
    }
}

impl GitBranchInfo {
    /// The summary text, exactly as `summary_of` states it.
    pub fn summary(&self) -> (r: String)
        ensures
            r@ == summary_of(self.name@, self.additions, self.deletions),
    {
        if self.additions == 0 && self.deletions == 0 {
            let chars = string_to_chars(self.name.as_str());
            let r = chars_to_string(&chars);
            return r;
        }
        let mut out = string_to_chars(self.name.as_str());
        out.push(' ');
        out.push('(');
        if self.additions > 0 {
            out.push('+');
            push_dec(self.additions, &mut out);
        }
        if self.additions > 0 && self.deletions > 0 {
            out.push(' ');
        }
        if self.deletions > 0 {
            out.push('-');
            push_dec(self.deletions, &mut out);
        }
        out.push(')');
        proof {
            assert(out@ =~= summary_of(self.name@, self.additions, self.deletions));
        }
        chars_to_string(&out)
    }
}

impl BranchState {
    /// The plain-text form of a status, as the list and the one-shot listing
    /// show it.
    pub fn text(&self) -> (r: String)
        ensures
            self is Unknown ==> r@ == "\u{2026}"@,
            self is Missing ==> r@ == "missing"@,
            self is NotGit ==> r@ == "not a repo"@,
            forall|m: String| self == BranchState::Error(m) ==> r@ == m@,
            forall|info: GitBranchInfo|
                self == BranchState::Ready(info) ==> r@ == summary_of(
                    info.name@,
                    info.additions,
                    info.deletions,
                ),
    {
        match self {
            BranchState::Unknown => String::from_str("\u{2026}"),
            BranchState::Ready(info) => info.summary(),
            BranchState::Missing => String::from_str("missing"),
            BranchState::NotGit => String::from_str("not a repo"),
            BranchState::Error(err) => {
                let chars = string_to_chars(err.as_str());
                chars_to_string(&chars)
            },
        }
    }
}

/// Decides an entry's status from the probe outcomes: a path gone from disk
/// is `Missing` before anything else is consulted; a non-directory is an
/// error; a directory outside git is `NotGit`; otherwise the branch probe
/// decides, with a failed diff probe counted as an empty diff.
pub fn branch_state_for(
    exists: bool,
    is_dir: bool,
    is_repo: bool,
    branch: Result<String, String>,
    diff: Option<DiffStat>,
) -> (r: BranchState)
    ensures
        !exists ==> r is Missing,
        exists && !is_dir ==> r is Error && r->Error_0@ == "not a dir"@,
        exists && is_dir && !is_repo ==> r is NotGit,
        exists && is_dir && is_repo && branch is Ok ==> r is Ready && r->Ready_0.name@
            == branch->Ok_0@ && r->Ready_0.additions == (match diff {
            Some(d) => d.additions,
            None => 0u32,
        }) && r->Ready_0.deletions == (match diff {
            Some(d) => d.deletions,
            None => 0u32,
        }),
        exists && is_dir && is_repo && branch is Err ==> r is Error && r->Error_0@
            == branch->Err_0@,
{
    if !exists {
        BranchState::Missing
    } else if !is_dir {
        BranchState::Error(String::from_str("not a dir"))
    } else if !is_repo {
        BranchState::NotGit
    } else {
        match branch {
            Ok(name) => {
                let stat = match diff {
                    Some(d) => d,
                    None => Default::default(),
                };
                BranchState::Ready(
                    GitBranchInfo {
                        name,
                        additions: stat.additions,
                        deletions: stat.deletions,
                    },
                )
            },
            Err(e) => BranchState::Error(e),
        }
    }
}

/// The index of the first comma in `s`, or the length when there is none.
pub open spec fn first_comma(s: Seq<char>) -> int
    decreases s.len(),
{
    if s.len() == 0 {
        0
    } else if s[0] == ',' {
        0
    } else {
        1 + first_comma(s.skip(1))
    }
}

/// A comma never hides before the first comma, and the first comma is inside
/// the text or just past it.
pub proof fn lemma_first_comma_bounds(s: Seq<char>)
    ensures
        0 <= first_comma(s) <= s.len(),
        forall|j: int| 0 <= j < first_comma(s) ==> s[j] != ',',
        first_comma(s) < s.len() ==> s[first_comma(s)] == ',',
    decreases s.len(),
{
    if s.len() > 0 && s[0] != ',' {
        lemma_first_comma_bounds(s.skip(1));
        assert forall|j: int| 0 <= j < first_comma(s) implies s[j] != ',' by {
            if j > 0 {
                assert(s.skip(1)[j - 1] != ',');
            }
        }
    }
}

/// A run without commas ending at a comma or at the end pins the first comma
/// down.
pub proof fn lemma_first_comma_at(s: Seq<char>, k: int)
    requires
        0 <= k <= s.len(),
        forall|j: int| 0 <= j < k ==> s[j] != ',',
        k == s.len() || s[k] == ',',
    ensures
        first_comma(s) == k,
    decreases s.len(),
{
    if s.len() > 0 && k > 0 {
        assert(s[0] != ',');
        assert forall|j: int| 0 <= j < k - 1 implies s.skip(1)[j] != ',' by {
            assert(s[j + 1] != ',');
        }
        lemma_first_comma_at(s.skip(1), k - 1);
    }
}

/// The comma-separated pieces of `s`, in order, commas removed; an empty
/// text yields one empty piece.
pub open spec fn split_commas(s: Seq<char>) -> Seq<Seq<char>>
    decreases s.len(),
    via split_commas_dec
{
    let k = first_comma(s);
    if k >= s.len() {
        seq![s]
    } else {
        seq![s.take(k)] + split_commas(s.skip(k + 1))
    }
}

#[via_fn]
proof fn split_commas_dec(s: Seq<char>) {
    lemma_first_comma_bounds(s);
}

/// Splits `v` on commas.
pub fn split_commas_exec(v: &Vec<char>) -> (r: Vec<Vec<char>>)
    ensures
        r@.len() == split_commas(v@).len(),
        forall|j: int| 0 <= j < r@.len() ==> r@[j]@ == #[trigger] split_commas(v@)[j],
{
    let ghost s = v@;
    let n = v.len();
    let mut parts: Vec<Vec<char>> = Vec::new();
    let mut cur: Vec<char> = Vec::new();
    let mut t: usize = 0;
    let mut i: usize = 0;
    proof {
        assert(s.skip(0) =~= s);
        assert(parts@.map_values(|p: Vec<char>| p@) + split_commas(s.skip(0)) =~= split_commas(s));
    }
    while i < n
        invariant
            0 <= t <= i <= n == s.len(),
            s == v@,
            cur@ == s.subrange(t as int, i as int),
            forall|j: int| t <= j < i ==> s[j] != ',',
            split_commas(s) == parts@.map_values(|p: Vec<char>| p@) + split_commas(
                s.skip(t as int),
            ),
        decreases n - i,
    {
        if v[i] == ',' {
            proof {
                let rest = s.skip(t as int);
                assert forall|j: int| 0 <= j < i - t implies rest[j] != ',' by {
                    assert(s[t + j] != ',');
                }
                assert(rest[i - t] == ',');
                lemma_first_comma_at(rest, i - t);
                assert(rest.take(i - t) =~= s.subrange(t as int, i as int));
                assert(rest.skip(i - t + 1) =~= s.skip(i + 1));
                assert(split_commas(rest) == seq![cur@] + split_commas(s.skip(i + 1)));
            }
            let ghost gm = parts@.map_values(|p: Vec<char>| p@);
            let ghost gcur = cur@;
            parts.push(cur);
            cur = Vec::new();
            proof {
                assert(parts@.map_values(|p: Vec<char>| p@) =~= gm + seq![gcur]);
                assert(gm + (seq![gcur] + split_commas(s.skip(i + 1))) =~= (gm + seq![gcur])
                    + split_commas(s.skip(i + 1)));
            }
            t = i + 1;
            i = i + 1;
            proof {
                assert(cur@ =~= s.subrange(t as int, i as int));
            }
        } else {
            cur.push(v[i]);
            i = i + 1;
            proof {
                assert(cur@ =~= s.subrange(t as int, i as int));
            }
        }
    }
    proof {
        let rest = s.skip(t as int);
        assert forall|j: int| 0 <= j < rest.len() implies rest[j] != ',' by {
            assert(s[t + j] != ',');
        }
        lemma_first_comma_at(rest, rest.len() as int);
        assert(rest.take(rest.len() as int) =~= rest);
        assert(rest =~= s.subrange(t as int, n as int));
        assert(split_commas(rest) == seq![cur@]);
    }
    let ghost gm = parts@.map_values(|p: Vec<char>| p@);
    let ghost gcur = cur@;
    parts.push(cur);
    proof {
        assert(parts@.map_values(|p: Vec<char>| p@) =~= gm + seq![gcur]);
        assert(split_commas(s) =~= gm + seq![gcur]);
    }
    parts
}

/// How one comma piece updates the running counts: a trimmed-empty piece
/// changes nothing; a piece mentioning `insertion` or `deletion` replaces
/// the matching count with its number, when it carries one that fits.
pub open spec fn stat_step(acc: (u32, u32), part: Seq<char>) -> (u32, u32) {
    let t = trim_spec(part);
    if t.len() == 0 {
        acc
    } else if seq_contains(t, "insertion"@) {
        match extract_spec(t) {
            Some(v) => (v, acc.1),
            None => acc,
        }
    } else if seq_contains(t, "deletion"@) {
        match extract_spec(t) {
            Some(v) => (acc.0, v),
            None => acc,
        }
    } else {
        acc
    }
}

/// The counts a whole shortstat line yields, folding its comma pieces from
/// the left over `stat_step`, starting from zero.
pub open spec fn stat_of(parts: Seq<Seq<char>>) -> (u32, u32)
    decreases parts.len(),
{
    if parts.len() == 0 {
        (0u32, 0u32)
    } else {
        stat_step(stat_of(parts.drop_last()), parts.last())
    }
}

/// Parses the output of `git diff --shortstat`: each comma-separated piece
/// naming `insertion`s or `deletion`s contributes its number.
pub fn parse_shortstat(stdout: &str) -> (r: DiffStat)
    ensures
        (r.additions, r.deletions) == stat_of(split_commas(stdout@)),
{
    let chars = string_to_chars(stdout);
    let parts = split_commas_exec(&chars);
    let ghost sparts = split_commas(stdout@);
    let ins_pat = string_to_chars("insertion");
    let del_pat = string_to_chars("deletion");
    let mut additions: u32 = 0;
    let mut deletions: u32 = 0;
    let mut i: usize = 0;
    while i < parts.len()
        invariant
            0 <= i <= parts.len(),
            parts@.len() == sparts.len(),
            forall|j: int| 0 <= j < parts@.len() ==> parts@[j]@ == #[trigger] sparts[j],
            ins_pat@ == "insertion"@,
            del_pat@ == "deletion"@,
            (additions, deletions) == stat_of(sparts.take(i as int)),
        decreases parts.len() - i,
    {
        let trimmed = trim_chars(&parts[i]);
        if trimmed.len() > 0 {
            if contains_chars(&trimmed, &ins_pat) {
                match extract_number(&trimmed) {
                    Some(v) => {
                        additions = v;
                    },
                    None => {},
                }
            } else if contains_chars(&trimmed, &del_pat) {
                match extract_number(&trimmed) {
                    Some(v) => {
                        deletions = v;
                    },
                    None => {},
                }
            }
        }
        proof {
            assert(sparts.take(i + 1).drop_last() =~= sparts.take(i as int));
            assert(sparts.take(i + 1).last() == sparts[i as int]);
        }
        i = i + 1;
    }
    proof {
        assert(sparts.take(sparts.len() as int) =~= sparts);
    }
    DiffStat { additions, deletions }
}

/// Finds the first whitespace-separated token made only of digits and reads
/// its number, exactly as `extract_spec` states.
pub fn extract_number(text: &Vec<char>) -> (r: Option<u32>)
    ensures
        r == extract_spec(text@),
{
    extract_from(text, 0)
}

/// The search behind `extract_number`, from position `i` on.
fn extract_from(text: &Vec<char>, i: usize) -> (r: Option<u32>)
    requires
        i <= text.len(),
    ensures
        r == (match first_digit_token(tokens_from(text@, i as int)) {
            Some(t) => token_value(t),
            None => None::<u32>,
        }),
    decreases text.len() - i,
{
    let ghost s = text@;
    let n = text.len();
    let mut a: usize = i;
    while a < n && is_space_char(text[a])
        invariant
            i <= a <= n == s.len(),
            s == text@,
            scan_ws_right(s, a as int) == scan_ws_right(s, i as int),
        decreases n - a,
    {
        a = a + 1;
    }
    assert(a as int == scan_ws_right(s, i as int));
    if a == n {
        return None;
    }
    let mut b: usize = a;
    let mut digits = true;
    let mut value: u64 = 0;
    let mut over = false;
    while b < n && !is_space_char(text[b])
        invariant
            a <= b <= n == s.len(),
            s == text@,
            scan_word_right(s, b as int) == scan_word_right(s, a as int),
            digits == all_digits(s.subrange(a as int, b as int)),
            digits ==> {
                &&& !over ==> value == dec_value(s.subrange(a as int, b as int)) && value
                    <= u32::MAX
                &&& over ==> dec_value(s.subrange(a as int, b as int)) > u32::MAX
            },
        decreases n - b,
    {
        let ghost pre = s.subrange(a as int, b as int);
        let c = text[b];
        if digits {
            if is_digit_char(c) {
                let d = digit_value(c);
                proof {
                    assert(s.subrange(a as int, b + 1).drop_last() =~= pre);
                    assert(s.subrange(a as int, b + 1).last() == c);
                }
                if !over {
                    let next = value * 10 + (d as u64);
                    if next > 0xffff_ffffu64 {
                        over = true;
                        value = next;
                    } else {
                        value = next;
                    }
                } else {
                    proof {
                        crate::chars::lemma_dec_value_nonneg(pre);
                    }
                }
            } else {
                digits = false;
                proof {
                    let ext = s.subrange(a as int, b + 1);
                    assert(ext[b - a] == c);
                    assert(!all_digits(ext));
                }
            }
        } else {
            proof {
                let ext = s.subrange(a as int, b + 1);
                assert(!all_digits(ext)) by {
                    if all_digits(ext) {
                        assert forall|k: int| 0 <= k < pre.len() implies crate::chars::is_digit(
                            #[trigger] pre[k],
                        ) by {
                            assert(pre[k] == ext[k]);
                        }
                    }
                }
            }
        }
        b = b + 1;
    }
    assert(b as int == scan_word_right(s, a as int));
    let ghost tok = s.subrange(a as int, b as int);
    proof {
        assert(a < b) by {
            assert(!crate::editor::is_space(s[a as int]));
            crate::editor::lemma_scan_word_right_props(s, a + 1);
        }
        assert(tokens_from(s, i as int) == seq![tok] + tokens_from(s, b as int));
        assert((seq![tok] + tokens_from(s, b as int)).skip(1) =~= tokens_from(s, b as int));
    }
    if digits {
        proof {
            assert(first_digit_token(tokens_from(s, i as int)) == Some(tok));
        }
        if over {
            None
        } else {
            Some(value as u32)
        }
    } else {
        proof {
            assert(first_digit_token(tokens_from(s, i as int)) == first_digit_token(
                tokens_from(s, b as int),
            ));
        }
        extract_from(text, b)
    }
}

} // verus!
