//! Line structure of the formatted output: a table holds exactly one
//! name line, one header line, one line per row, and the terminator.

use vstd::prelude::*;
use crate::model::Competition;
use crate::model::Standing;
use crate::numfmt::digit_char;
use crate::numfmt::spec_dec;
use crate::numfmt::spec_dec_signed;
use crate::table::spaces;
use crate::table::spec_header_line;
use crate::table::spec_pad;
use crate::table::spec_row_line;
use crate::table::spec_rows;
use crate::table::spec_table;
use crate::table::spec_termination;

verus! {

/// The number of occurrences of `c` in `s`.
pub open spec fn count_char(s: Seq<char>, c: char) -> nat
    decreases s.len(),
{
    if s.len() == 0 {
        0
    } else {
        count_char(s.drop_last(), c) + if s.last() == c {
            1nat
        } else {
            0nat
        }
    }
}

/// Counting distributes over concatenation.
pub broadcast proof fn lemma_count_char_add(a: Seq<char>, b: Seq<char>, c: char)
    ensures
        #[trigger] count_char(a + b, c) == count_char(a, c) + count_char(b, c),
    decreases b.len(),
{
    if b.len() == 0 {
        assert(a + b =~= a);
    } else {
        lemma_count_char_add(a, b.drop_last(), c);
        assert((a + b).drop_last() =~= a + b.drop_last());
        assert((a + b).last() == b.last());
    }
}

/// A string without `c` counts zero.
pub proof fn lemma_count_zero(s: Seq<char>, c: char)
    requires
        forall|i: int| 0 <= i < s.len() ==> s[i] != c,
    ensures
        count_char(s, c) == 0,
    decreases s.len(),
{
    if s.len() > 0 {
        assert(s[s.len() - 1] != c);
        lemma_count_zero(s.drop_last(), c);
    }
}

/// Every character of a decimal rendering is a digit.
pub proof fn lemma_dec_digits(n: nat)
    ensures
        forall|i: int|
            0 <= i < spec_dec(n).len() ==> #[trigger] digit_char_at(spec_dec(n), i),
    decreases n,
{
    if n < 10 {
        assert forall|i: int| 0 <= i < spec_dec(n).len() implies digit_char_at(
            spec_dec(n),
            i,
        ) by {
            assert(spec_dec(n)[i] == digit_char(n));
        }
    } else {
        lemma_dec_digits(n / 10);
        assert forall|i: int| 0 <= i < spec_dec(n).len() implies digit_char_at(
            spec_dec(n),
            i,
        ) by {
            if i < spec_dec(n / 10).len() {
                assert(digit_char_at(spec_dec(n / 10), i));
                let d = choose|d: nat| d < 10 && spec_dec(n / 10)[i] == digit_char(d);
                assert(spec_dec(n)[i] == digit_char(d));
            } else {
                assert(spec_dec(n)[i] == digit_char(n % 10));
                assert(n % 10 < 10);
            }
        }
    }
}

/// Whether position `i` of `s` holds a decimal digit character.
pub open spec fn digit_char_at(s: Seq<char>, i: int) -> bool {
    exists|d: nat| d < 10 && s[i] == digit_char(d)
}

/// A decimal rendering contains no newline.
pub proof fn lemma_dec_no_newline(n: nat)
    ensures
        count_char(spec_dec(n), '\n') == 0,
{
    lemma_dec_digits(n);
    assert forall|i: int| 0 <= i < spec_dec(n).len() implies spec_dec(n)[i] != '\n' by {
        assert(digit_char_at(spec_dec(n), i));
        let d = choose|d: nat| d < 10 && spec_dec(n)[i] == digit_char(d);
        assert(digit_char(d) != '\n');
    }
    lemma_count_zero(spec_dec(n), '\n');
}

/// A signed decimal rendering contains no newline.
pub proof fn lemma_dec_signed_no_newline(v: int)
    ensures
        count_char(spec_dec_signed(v), '\n') == 0,
{
    broadcast use lemma_count_char_add;

    if v < 0 {
        lemma_dec_no_newline((-v) as nat);
        lemma_count_zero(seq!['-'], '\n');
    } else {
        lemma_dec_no_newline(v as nat);
    }
}

/// Padding adds only spaces, so it never adds a newline.
pub proof fn lemma_pad_no_newline(s: Seq<char>, w: nat)
    ensures
        count_char(spec_pad(s, w), '\n') == count_char(s, '\n'),
{
    broadcast use lemma_count_char_add;

    if s.len() < w {
        lemma_count_zero(spaces((w - s.len()) as nat), '\n');
    }
}

/// The bar separator contains no newline.
proof fn lemma_sep_no_newline()
    ensures
        count_char(" | "@, '\n') == 0,
{
    reveal_strlit(" | ");
    lemma_count_zero(" | "@, '\n');
}

/// A single newline counts one.
proof fn lemma_newline_count()
    ensures
        count_char("\n"@, '\n') == 1,
{
    reveal_strlit("\n");
    assert("\n"@ =~= seq!['\n']);
    assert("\n"@.drop_last() =~= Seq::<char>::empty());
    assert(count_char(Seq::<char>::empty(), '\n') == 0);
}

/// The header is exactly one line: it holds exactly one newline, and
/// that newline is its last character.
pub proof fn lemma_header_one_line()
    ensures
        count_char(spec_header_line(), '\n') == 1,
        spec_header_line().last() == '\n',
{
    broadcast use lemma_count_char_add;

    reveal_strlit("Pos");
    reveal_strlit("Team");
    reveal_strlit("GP");
    reveal_strlit("PTS");
    reveal_strlit("W");
    reveal_strlit("D");
    reveal_strlit("L");
    reveal_strlit("G");
    reveal_strlit("GA");
    reveal_strlit("GD");
    reveal_strlit("\n");
    lemma_sep_no_newline();
    lemma_newline_count();
    lemma_count_zero("Pos"@, '\n');
    lemma_count_zero("Team"@, '\n');
    lemma_count_zero("GP"@, '\n');
    lemma_count_zero("PTS"@, '\n');
    lemma_count_zero("W"@, '\n');
    lemma_count_zero("D"@, '\n');
    lemma_count_zero("L"@, '\n');
    lemma_count_zero("G"@, '\n');
    lemma_count_zero("GA"@, '\n');
    lemma_count_zero("GD"@, '\n');
    lemma_pad_no_newline("Pos"@, 3);
    lemma_pad_no_newline("Team"@, 26);
    lemma_pad_no_newline("GP"@, 2);
    lemma_pad_no_newline("PTS"@, 3);
    lemma_pad_no_newline("W"@, 1);
    lemma_pad_no_newline("D"@, 1);
    lemma_pad_no_newline("L"@, 1);
    lemma_pad_no_newline("G"@, 1);
    lemma_pad_no_newline("GA"@, 2);
    lemma_pad_no_newline("GD"@, 2);
}

/// A row renders as exactly one line, provided the team name holds no
/// newline: its text holds exactly one newline, its last character.
pub proof fn lemma_row_one_line(st: Standing)
    requires
        count_char(st.team.name@, '\n') == 0,
    ensures
        count_char(spec_row_line(st), '\n') == 1,
        spec_row_line(st).last() == '\n',
{
    broadcast use lemma_count_char_add;

    lemma_sep_no_newline();
    lemma_newline_count();
    lemma_dec_no_newline(st.position as nat);
    lemma_dec_no_newline(st.played_games as nat);
    lemma_dec_no_newline(st.points as nat);
    lemma_dec_no_newline(st.won as nat);
    lemma_dec_no_newline(st.draw as nat);
    lemma_dec_no_newline(st.lost as nat);
    lemma_dec_no_newline(st.goals_for as nat);
    lemma_dec_no_newline(st.goals_against as nat);
    lemma_dec_signed_no_newline(st.goal_difference as int);
    lemma_pad_no_newline(spec_dec(st.position as nat), 3);
    lemma_pad_no_newline(st.team.name@, 26);
    lemma_pad_no_newline(spec_dec(st.played_games as nat), 2);
    lemma_pad_no_newline(spec_dec(st.points as nat), 3);
    lemma_pad_no_newline(spec_dec(st.won as nat), 1);
    lemma_pad_no_newline(spec_dec(st.draw as nat), 1);
    lemma_pad_no_newline(spec_dec(st.lost as nat), 1);
    lemma_pad_no_newline(spec_dec(st.goals_for as nat), 1);
    lemma_pad_no_newline(spec_dec(st.goals_against as nat), 2);
    lemma_pad_no_newline(spec_dec_signed(st.goal_difference as int), 2);
    reveal_strlit("\n");
}

/// The rows render as exactly one line each, provided no team name
/// holds a newline.
pub proof fn lemma_rows_lines(rows: Seq<Standing>)
    requires
        forall|k: int| 0 <= k < rows.len() ==> count_char(#[trigger] rows[k].team.name@, '\n')
            == 0,
    ensures
        count_char(spec_rows(rows), '\n') == rows.len(),
    decreases rows.len(),
{
    broadcast use lemma_count_char_add;

    if rows.len() > 0 {
        lemma_rows_lines(rows.drop_last());
        lemma_row_one_line(rows.last());
    }
}

/// One header line, then one line per input row: a formatted table's
/// newline count is the competition's name line, the header line, one
/// line per row, and the terminator's line break — provided neither the
/// competition's name nor any team name holds a newline itself.
pub proof fn lemma_table_one_line_per_row(comp: Competition, rows: Seq<Standing>)
    requires
        count_char(comp.name@, '\n') == 0,
        forall|k: int| 0 <= k < rows.len() ==> count_char(#[trigger] rows[k].team.name@, '\n')
            == 0,
    ensures
        count_char(spec_table(comp, rows), '\n') == 3 + rows.len(),
{
    broadcast use lemma_count_char_add;

    lemma_newline_count();
    lemma_header_one_line();
    lemma_rows_lines(rows);
    reveal_strlit("\r\n.");
    lemma_count_zero(seq!['\r'], '\n');
    assert(spec_termination() =~= seq!['\r'] + seq!['\n'] + seq!['.']);
    assert(count_char(seq!['\n'], '\n') == 1) by {
        assert(seq!['\n'].drop_last() =~= Seq::<char>::empty());
        assert(count_char(Seq::<char>::empty(), '\n') == 0);
    }
    lemma_count_zero(seq!['.'], '\n');
    assert(count_char(spec_termination(), '\n') == 1);
}

} // verus!
