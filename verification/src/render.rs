//! Rendering of the report: decimal formatting of the ahead/behind counts,
//! the divergence lines, the per-entry status lines, and the full ordered
//! sequence of output lines.

use vstd::prelude::*;

use crate::state::{spec_state_name, RepoState};
use crate::status::{spec_is_changed, spec_is_index_update, spec_is_new, FileStatus};

verus! {

/// The character for one decimal digit.
pub open spec fn spec_digit_char(d: nat) -> char {
    if d == 0 {
        '0'
    } else if d == 1 {
        '1'
    } else if d == 2 {
        '2'
    } else if d == 3 {
        '3'
    } else if d == 4 {
        '4'
    } else if d == 5 {
        '5'
    } else if d == 6 {
        '6'
    } else if d == 7 {
        '7'
    } else if d == 8 {
        '8'
    } else {
        '9'
    }
}

/// The decimal representation of a number, most significant digit first,
/// without leading zeros (a single `'0'` for zero).
pub open spec fn spec_dec(n: nat) -> Seq<char>
    decreases n,
{
    if n < 10 {
        seq![spec_digit_char(n)]
    } else {
        spec_dec(n / 10) + seq![spec_digit_char(n % 10)]
    }
}

/// One decimal digit as a string slice.
fn digit_str(d: usize) -> (r: &'static str)
    requires
        d < 10,
    ensures
        r@ == seq![spec_digit_char(d as nat)],
{
    let r: &'static str = if d == 0 {
        "0"
    } else if d == 1 {
        "1"
    } else if d == 2 {
        "2"
    } else if d == 3 {
        "3"
    } else if d == 4 {
        "4"
    } else if d == 5 {
        "5"
    } else if d == 6 {
        "6"
    } else if d == 7 {
        "7"
    } else if d == 8 {
        "8"
    } else {
        "9"
    };
    proof {
        reveal_strlit("0");
        reveal_strlit("1");
        reveal_strlit("2");
        reveal_strlit("3");
        reveal_strlit("4");
        reveal_strlit("5");
        reveal_strlit("6");
        reveal_strlit("7");
        reveal_strlit("8");
        reveal_strlit("9");
        assert(r@ =~= seq![spec_digit_char(d as nat)]);
    }
    r
}

/// Formats a count in decimal.
pub fn usize_dec(n: usize) -> (r: String)
    ensures
        r@ == spec_dec(n as nat),
    decreases n,
{
    if n < 10 {
        digit_str(n).to_owned()
    } else {
        let mut s = usize_dec(n / 10);
        s.append(digit_str(n % 10));
        proof {
            assert(s@ =~= spec_dec(n as nat));
        }
        s
    }
}

/// The divergence line for a tracking upstream: `A: <ahead>, B: <behind>`.
pub open spec fn spec_divergence_line(ahead: nat, behind: nat) -> Seq<char> {
    "A: "@ + spec_dec(ahead) + ", B: "@ + spec_dec(behind)
}

/// The divergence line for the named remote: `U A: <ahead>, B: <behind>`.
pub open spec fn spec_named_divergence_line(ahead: nat, behind: nat) -> Seq<char> {
    "U "@ + spec_divergence_line(ahead, behind)
}

/// Renders `A: <ahead>, B: <behind>`.
pub fn divergence_line(ahead: usize, behind: usize) -> (r: String)
    ensures
        r@ == spec_divergence_line(ahead as nat, behind as nat),
{
    let mut s = "A: ".to_owned();
    s.append(usize_dec(ahead).as_str());
    s.append(", B: ");
    s.append(usize_dec(behind).as_str());
    proof {
        assert(s@ =~= spec_divergence_line(ahead as nat, behind as nat));
    }
    s
}

/// Renders `U A: <ahead>, B: <behind>`.
pub fn named_divergence_line(ahead: usize, behind: usize) -> (r: String)
    ensures
        r@ == spec_named_divergence_line(ahead as nat, behind as nat),
{
    let mut s = "U ".to_owned();
    s.append(divergence_line(ahead, behind).as_str());
    proof {
        assert(s@ =~= spec_named_divergence_line(ahead as nat, behind as nat));
    }
    s
}

/// The lines printed for one status entry: its path, then each category that
/// applies, in the fixed order `changes`, `new files`, `index update`.
pub open spec fn spec_entry_lines(e: FileStatus) -> Seq<Seq<char>> {
    seq![e.path@] + (if spec_is_changed(e.flags) {
        seq!["changes"@]
    } else {
        Seq::<Seq<char>>::empty()
    }) + (if spec_is_new(e.flags) {
        seq!["new files"@]
    } else {
        Seq::<Seq<char>>::empty()
    }) + (if spec_is_index_update(e.flags) {
        seq!["index update"@]
    } else {
        Seq::<Seq<char>>::empty()
    })
}

/// The lines printed for a sequence of status entries, in order.
pub open spec fn spec_entries_lines(es: Seq<FileStatus>) -> Seq<Seq<char>>
    decreases es.len(),
{
    if es.len() == 0 {
        Seq::<Seq<char>>::empty()
    } else {
        spec_entries_lines(es.drop_last()) + spec_entry_lines(es.last())
    }
}

/// Appends the lines for one entry to `lines`.
fn push_entry_lines(lines: &mut Vec<String>, e: &FileStatus)
    ensures
        final(lines).deep_view() == old(lines).deep_view() + spec_entry_lines(*e),
{
    lines.push(e.path.clone());
    if e.flags.is_changed() {
        lines.push("changes".to_owned());
    }
    if e.flags.is_new() {
        lines.push("new files".to_owned());
    }
    if e.flags.is_index_update() {
        lines.push("index update".to_owned());
    }
    proof {
        assert(lines.deep_view() =~= old(lines).deep_view() + spec_entry_lines(*e));
    }
}

/// Everything the prompt shows, gathered by the queries: the branch name,
/// the two optional divergence pairs, the status entries in the store's
/// order, and the repository state.
pub struct Report {
    pub branch: String,
    pub tracking: Option<(usize, usize)>,
    pub named_remote: Option<(usize, usize)>,
    pub entries: Vec<FileStatus>,
    pub state: RepoState,
}

impl Report {
    /// The full ordered sequence of output lines: the branch name, the
    /// tracking divergence line if present, the named-remote divergence line
    /// if present, the lines of each status entry in order, and the
    /// repository state's name.
    pub open spec fn spec_lines(&self) -> Seq<Seq<char>> {
        seq![self.branch@] + (match self.tracking {
            Some(p) => seq![spec_divergence_line(p.0 as nat, p.1 as nat)],
            None => Seq::<Seq<char>>::empty(),
        }) + (match self.named_remote {
            Some(p) => seq![spec_named_divergence_line(p.0 as nat, p.1 as nat)],
            None => Seq::<Seq<char>>::empty(),
        }) + spec_entries_lines(self.entries@) + seq![spec_state_name(self.state)]
    }

    /// Renders the report as its output lines.
    pub fn render(&self) -> (r: Vec<String>)
        ensures
            r.deep_view() == self.spec_lines(),
    {
        let mut lines: Vec<String> = Vec::new();
        lines.push(self.branch.clone());
        match self.tracking {
            Some((ahead, behind)) => lines.push(divergence_line(ahead, behind)),
            None => {},
        }
        match self.named_remote {
            Some((ahead, behind)) => lines.push(named_divergence_line(ahead, behind)),
            None => {},
        }
        let ghost head = lines.deep_view();
        proof {
            assert(head =~= seq![self.branch@] + (match self.tracking {
                Some(p) => seq![spec_divergence_line(p.0 as nat, p.1 as nat)],
                None => Seq::<Seq<char>>::empty(),
            }) + (match self.named_remote {
                Some(p) => seq![spec_named_divergence_line(p.0 as nat, p.1 as nat)],
                None => Seq::<Seq<char>>::empty(),
            }));
        }
        let mut i: usize = 0;
        while i < self.entries.len()
            invariant
                i <= self.entries.len(),
                lines.deep_view() == head + spec_entries_lines(self.entries@.take(i as int)),
            decreases self.entries.len() - i,
        {
            push_entry_lines(&mut lines, &self.entries[i]);
            proof {
                assert(self.entries@.take(i + 1).drop_last() =~= self.entries@.take(i as int));
                assert(lines.deep_view() =~= head + spec_entries_lines(
                    self.entries@.take(i + 1),
                ));
            }
            i = i + 1;
        }
        proof {
            assert(self.entries@.take(self.entries@.len() as int) =~= self.entries@);
        }
        lines.push(self.state.name().to_owned());
        proof {
            assert(lines.deep_view() =~= self.spec_lines());
        }
        lines
    }
}

} // verus!
