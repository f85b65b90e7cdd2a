//! The text formatter: fixed-width columns, one header line and one line
//! per standings row, plus the gophermap index page with its banner.

use vstd::prelude::*;
use vstd::string::StrSliceExecFns;
use vstd::string::StringExecFns;
use crate::model::Competition;
use crate::model::Standing;
use crate::numfmt::spec_dec;
use crate::numfmt::spec_dec_signed;
use crate::numfmt::i8_to_string;
use crate::numfmt::u16_to_string;
use crate::numfmt::u8_to_string;

verus! {

/// A run of `n` spaces.
pub open spec fn spaces(n: nat) -> Seq<char> {
    Seq::new(n, |i: int| ' ')
}

/// `s` left-aligned in a field of width `w`: padded with spaces when
/// shorter, left unchanged (never truncated) when as wide or wider.
pub open spec fn spec_pad(s: Seq<char>, w: nat) -> Seq<char> {
    if s.len() >= w {
        s
    } else {
        s + spaces((w - s.len()) as nat)
    }
}

/// Column padding is left alignment: a value shorter than the width comes
/// out at exactly the width, the value first and spaces after it; a value
/// at least as wide comes out unchanged, so it is never truncated.
pub proof fn lemma_pad_left_aligned(s: Seq<char>, w: nat)
    ensures
        s.len() < w ==> spec_pad(s, w).len() == w,
        s.len() < w ==> spec_pad(s, w).subrange(0, s.len() as int) == s,
        s.len() < w ==> forall|i: int| s.len() <= i < w ==> spec_pad(s, w)[i] == ' ',
        s.len() >= w ==> spec_pad(s, w) == s,
{
    if s.len() < w {
        assert(spec_pad(s, w).subrange(0, s.len() as int) =~= s);
    }
}

/// Pads `s` with spaces on the right to width `w`; a wider value is
/// returned unchanged.
pub fn pad(s: &str, w: usize) -> (r: String)
    ensures
        r@ == spec_pad(s@, w as nat),
{
    let mut r = s.to_owned();
    let n = s.unicode_len();
    if n >= w {
        return r;
    }
    proof {
        assert(r@ =~= s@ + spaces(0));
    }
    let mut i = n;
    while i < w
        invariant
            n == s@.len(),
            n <= i <= w,
            r@ == s@ + spaces((i - n) as nat),
        decreases w - i,
    {
        r.append(" ");
        i = i + 1;
        proof {
            reveal_strlit(" ");
            assert(r@ =~= s@ + spaces((i - n) as nat));
        }
    }
    proof {
        assert(r@ =~= spec_pad(s@, w as nat));
    }
    r
}

/// The header line: the fixed column labels, each padded to its column
/// width, separated by ` | `, ending in a newline.
pub open spec fn spec_header_line() -> Seq<char> {
    spec_pad("Pos"@, 3) + " | "@ + spec_pad("Team"@, 26) + " | "@ + spec_pad("GP"@, 2) + " | "@
        + spec_pad("PTS"@, 3) + " | "@ + spec_pad("W"@, 1) + " | "@ + spec_pad("D"@, 1) + " | "@
        + spec_pad("L"@, 1) + " | "@ + spec_pad("G"@, 1) + " | "@ + spec_pad("GA"@, 2) + " | "@
        + spec_pad("GD"@, 2) + "\n"@
}

/// Renders the header line.
pub fn header_line() -> (r: String)
    ensures
        r@ == spec_header_line(),
{
    let mut r = pad("Pos", 3);
    r.append(" | ");
    r.append(pad("Team", 26).as_str());
    r.append(" | ");
    r.append(pad("GP", 2).as_str());
    r.append(" | ");
    r.append(pad("PTS", 3).as_str());
    r.append(" | ");
    r.append(pad("W", 1).as_str());
    r.append(" | ");
    r.append(pad("D", 1).as_str());
    r.append(" | ");
    r.append(pad("L", 1).as_str());
    r.append(" | ");
    r.append(pad("G", 1).as_str());
    r.append(" | ");
    r.append(pad("GA", 2).as_str());
    r.append(" | ");
    r.append(pad("GD", 2).as_str());
    r.append("\n");
    proof {
        assert(r@ =~= spec_header_line());
    }
    r
}

/// One row's line: each field rendered as text, padded to its column
/// width, in the fixed column order, ending in a newline.
pub open spec fn spec_row_line(st: Standing) -> Seq<char> {
    spec_pad(spec_dec(st.position as nat), 3) + " | "@ + spec_pad(st.team.name@, 26) + " | "@
        + spec_pad(spec_dec(st.played_games as nat), 2) + " | "@
        + spec_pad(spec_dec(st.points as nat), 3) + " | "@ + spec_pad(spec_dec(st.won as nat), 1)
        + " | "@ + spec_pad(spec_dec(st.draw as nat), 1) + " | "@
        + spec_pad(spec_dec(st.lost as nat), 1) + " | "@
        + spec_pad(spec_dec(st.goals_for as nat), 1) + " | "@
        + spec_pad(spec_dec(st.goals_against as nat), 2) + " | "@
        + spec_pad(spec_dec_signed(st.goal_difference as int), 2) + "\n"@
}

/// Renders one standings row.
pub fn row_line(st: &Standing) -> (r: String)
    ensures
        r@ == spec_row_line(*st),
{
    let mut r = pad(u8_to_string(st.position).as_str(), 3);
    r.append(" | ");
    r.append(pad(st.team.name.as_str(), 26).as_str());
    r.append(" | ");
    r.append(pad(u8_to_string(st.played_games).as_str(), 2).as_str());
    r.append(" | ");
    r.append(pad(u8_to_string(st.points).as_str(), 3).as_str());
    r.append(" | ");
    r.append(pad(u8_to_string(st.won).as_str(), 1).as_str());
    r.append(" | ");
    r.append(pad(u8_to_string(st.draw).as_str(), 1).as_str());
    r.append(" | ");
    r.append(pad(u8_to_string(st.lost).as_str(), 1).as_str());
    r.append(" | ");
    r.append(pad(u8_to_string(st.goals_for).as_str(), 1).as_str());
    r.append(" | ");
    r.append(pad(u8_to_string(st.goals_against).as_str(), 2).as_str());
    r.append(" | ");
    r.append(pad(i8_to_string(st.goal_difference).as_str(), 2).as_str());
    r.append("\n");
    proof {
        assert(r@ =~= spec_row_line(*st));
    }
    r
}

/// The row lines of a table, in the order of the input rows.
pub open spec fn spec_rows(rows: Seq<Standing>) -> Seq<char>
    decreases rows.len(),
{
    if rows.len() == 0 {
        Seq::empty()
    } else {
        spec_rows(rows.drop_last()) + spec_row_line(rows.last())
    }
}

/// The formatter keeps the input order: appending a row appends exactly
/// its one line after everything rendered before it, and an empty row
/// collection renders as no row lines at all.
pub proof fn lemma_rows_in_order(rows: Seq<Standing>, st: Standing)
    ensures
        spec_rows(rows.push(st)) == spec_rows(rows) + spec_row_line(st),
        spec_rows(Seq::<Standing>::empty()) == Seq::<char>::empty(),
{
    assert(rows.push(st).drop_last() =~= rows);
    assert(rows.push(st).last() == st);
}

/// The menu-file termination sequence.
pub open spec fn spec_termination() -> Seq<char> {
    "\r\n."@
}

/// Renders the menu-file termination sequence.
pub fn termination_line() -> (r: &'static str)
    ensures
        r@ == spec_termination(),
{
    "\r\n."
}

/// A whole competition table: the competition's name on its own line,
/// then the header line, then one line per row in input order, then the
/// termination sequence.
pub open spec fn spec_table(comp: Competition, rows: Seq<Standing>) -> Seq<char> {
    comp.name@ + "\n"@ + spec_header_line() + spec_rows(rows) + spec_termination()
}

/// Renders a competition's standings table.
pub fn create_table(standings: &Vec<Standing>, competition: &Competition) -> (r: String)
    ensures
        r@ == spec_table(*competition, standings@),
{
    let mut t = competition.name.clone();
    t.append("\n");
    t.append(header_line().as_str());
    proof {
        assert(standings@.take(0) =~= Seq::<Standing>::empty());
        assert(t@ =~= competition.name@ + "\n"@ + spec_header_line() + spec_rows(
            standings@.take(0),
        ));
    }
    let mut i: usize = 0;
    while i < standings.len()
        invariant
            i <= standings@.len(),
            t@ == competition.name@ + "\n"@ + spec_header_line() + spec_rows(
                standings@.take(i as int),
            ),
        decreases standings@.len() - i,
    {
        let line = row_line(&standings[i]);
        t.append(line.as_str());
        i = i + 1;
        proof {
            assert(standings@.take(i as int).drop_last() =~= standings@.take(i - 1));
            assert(standings@.take(i as int).last() == standings@[i - 1]);
            assert(t@ =~= competition.name@ + "\n"@ + spec_header_line() + spec_rows(
                standings@.take(i as int),
            ));
        }
    }
    proof {
        assert(standings@.take(standings@.len() as int) =~= standings@);
    }
    t.append("\r\n.");
    proof {
        assert(t@ =~= spec_table(*competition, standings@));
    }
    t
}

} // verus!
