//! Re-parsing of a formatted line into its column texts: split on the
//! bar separator, then trim the surrounding spaces. The round-trip law
//! at the end ties the header line back to the declared column order.

use vstd::prelude::*;
use vstd::string::StrSliceExecFns;
use crate::table::spaces;
use crate::table::spec_header_line;

verus! {

/// `s` without its trailing spaces.
pub open spec fn spec_trim_end(s: Seq<char>) -> Seq<char>
    decreases s.len(),
{
    if s.len() > 0 && s.last() == ' ' {
        spec_trim_end(s.drop_last())
    } else {
        s
    }
}

/// `s` without its leading spaces.
pub open spec fn spec_trim_start(s: Seq<char>) -> Seq<char>
    decreases s.len(),
{
    if s.len() > 0 && s.first() == ' ' {
        spec_trim_start(s.drop_first())
    } else {
        s
    }
}

/// `s` without its leading and trailing spaces.
pub open spec fn spec_trim(s: Seq<char>) -> Seq<char> {
    spec_trim_start(spec_trim_end(s))
}

/// The chunks of `s` between `|` characters, in order. A string without
/// any bar is one chunk; each bar ends the chunk before it.
pub open spec fn spec_split_bars(s: Seq<char>) -> Seq<Seq<char>>
    decreases s.len(),
{
    if s.len() == 0 {
        seq![Seq::<char>::empty()]
    } else {
        let rest = spec_split_bars(s.drop_last());
        if s.last() == '|' {
            rest.push(Seq::<char>::empty())
        } else {
            rest.update(rest.len() - 1, rest.last().push(s.last()))
        }
    }
}

/// The column texts of a formatted line: the chunks between bars, each
/// with its surrounding spaces removed.
pub open spec fn spec_columns(s: Seq<char>) -> Seq<Seq<char>> {
    spec_split_bars(s).map_values(|f: Seq<char>| spec_trim(f))
}

/// The column labels of the header, in the fixed declared order.
pub open spec fn spec_column_labels() -> Seq<Seq<char>> {
    seq!["Pos"@, "Team"@, "GP"@, "PTS"@, "W"@, "D"@, "L"@, "G"@, "GA"@, "GD"@]
}

/// Splits a line on its bars into raw chunks.
pub fn split_bars(line: &str) -> (r: Vec<Vec<char>>)
    ensures
        r@.map_values(|f: Vec<char>| f@) == spec_split_bars(line@),
{
    let n = line.unicode_len();
    let mut done: Vec<Vec<char>> = Vec::new();
    let mut cur: Vec<char> = Vec::new();
    proof {
        assert(line@.take(0) =~= Seq::<char>::empty());
        assert(done@.map_values(|f: Vec<char>| f@).push(cur@) =~= spec_split_bars(line@.take(0)));
    }
    let mut i: usize = 0;
    while i < n
        invariant
            n == line@.len(),
            i <= n,
            done@.map_values(|f: Vec<char>| f@).push(cur@) == spec_split_bars(
                line@.take(i as int),
            ),
        decreases n - i,
    {
        let c = line.get_char(i);
        let ghost prev_done = done@;
        let ghost prev_cur = cur@;
        if c == '|' {
            done.push(cur);
            cur = Vec::new();
        } else {
            cur.push(c);
        }
        i = i + 1;
        proof {
            assert(line@.take(i as int).drop_last() =~= line@.take(i - 1));
            assert(line@.take(i as int).last() == line@[i - 1]);
            if c == '|' {
                assert(done@.map_values(|f: Vec<char>| f@) =~= prev_done.map_values(
                    |f: Vec<char>| f@,
                ).push(prev_cur));
            }
            assert(done@.map_values(|f: Vec<char>| f@).push(cur@) =~= spec_split_bars(
                line@.take(i as int),
            ));
        }
    }
    proof {
        assert(line@.take(n as int) =~= line@);
    }
    done.push(cur);
    proof {
        assert(done@.map_values(|f: Vec<char>| f@) =~= spec_split_bars(line@));
    }
    done
}

/// Removes the spaces at both ends of one chunk.
pub fn trim_spaces(field: Vec<char>) -> (r: Vec<char>)
    ensures
        r@ == spec_trim(field@),
{
    let mut f = field;
    while f.len() > 0 && f[f.len() - 1] == ' '
        invariant
            spec_trim_end(f@) == spec_trim_end(field@),
        decreases f@.len(),
    {
        let ghost prev = f@;
        let _last = f.pop();
        proof {
            assert(f@ =~= prev.drop_last());
        }
    }
    proof {
        assert(spec_trim_end(f@) == f@);
    }
    while f.len() > 0 && f[0] == ' '
        invariant
            spec_trim_start(f@) == spec_trim_start(spec_trim_end(field@)),
        decreases f@.len(),
    {
        let ghost prev = f@;
        let _first = f.remove(0);
        proof {
            assert(f@ =~= prev.drop_first());
        }
    }
    proof {
        assert(spec_trim_start(f@) == f@);
    }
    f
}

/// The column texts of a formatted line: its chunks between bars, each
/// with the surrounding spaces removed.
pub fn columns(line: &str) -> (r: Vec<Vec<char>>)
    ensures
        r@.map_values(|f: Vec<char>| f@) == spec_columns(line@),
{
    let mut fields = split_bars(line);
    let ghost all = fields@.map_values(|f: Vec<char>| f@);
    let mut out: Vec<Vec<char>> = Vec::new();
    proof {
        assert(out@.map_values(|f: Vec<char>| f@) =~= all.map_values(
            |f: Seq<char>| spec_trim(f),
        ).take(0));
        assert(fields@.map_values(|f: Vec<char>| f@) =~= all.skip(0));
    }
    while fields.len() > 0
        invariant
            out@.len() + fields@.len() == all.len(),
            out@.map_values(|f: Vec<char>| f@) == all.map_values(|f: Seq<char>| spec_trim(f)).take(
                out@.len() as int,
            ),
            fields@.map_values(|f: Vec<char>| f@) == all.skip(out@.len() as int),
        decreases fields@.len(),
    {
        let ghost prev_fields = fields@;
        let ghost k = out@.len() as int;
        let f = fields.remove(0);
        proof {
            assert(prev_fields.map_values(|f: Vec<char>| f@)[0] == f@);
            assert(f@ == all[k]);
        }
        proof {
            assert(fields@ =~= prev_fields.drop_first());
        }
        let t = trim_spaces(f);
        out.push(t);
        proof {
            assert(out@.map_values(|f: Vec<char>| f@) =~= all.map_values(
                |f: Seq<char>| spec_trim(f),
            ).take(out@.len() as int));
            assert forall|j: int| 0 <= j < fields@.len() implies fields@.map_values(
                |f: Vec<char>| f@,
            )[j] == all.skip(out@.len() as int)[j] by {
                assert(fields@[j] == prev_fields[j + 1]);
                assert(prev_fields.map_values(|f: Vec<char>| f@)[j + 1] == prev_fields[j + 1]@);
            }
            assert(fields@.map_values(|f: Vec<char>| f@) =~= all.skip(out@.len() as int));
        }
    }
    proof {
        assert(out@.map_values(|f: Vec<char>| f@) =~= spec_columns(line@));
    }
    out
}

/// A split always yields at least one chunk.
pub proof fn lemma_split_nonempty(s: Seq<char>)
    ensures
        spec_split_bars(s).len() >= 1,
    decreases s.len(),
{
    if s.len() > 0 {
        lemma_split_nonempty(s.drop_last());
    }
}

/// A string without any bar splits into exactly itself.
pub proof fn lemma_split_no_bar(s: Seq<char>)
    requires
        forall|i: int| 0 <= i < s.len() ==> s[i] != '|',
    ensures
        spec_split_bars(s) == seq![s],
    decreases s.len(),
{
    if s.len() == 0 {
        assert(s =~= Seq::<char>::empty());
    } else {
        lemma_split_no_bar(s.drop_last());
        assert(s[s.len() - 1] != '|');
        assert(s.drop_last().push(s.last()) =~= s);
        assert(spec_split_bars(s) =~= seq![s]);
    }
}

/// Appending a bar and then a bar-free chunk appends exactly that chunk
/// to the split.
pub proof fn lemma_split_append(a: Seq<char>, b: Seq<char>)
    requires
        forall|i: int| 0 <= i < b.len() ==> b[i] != '|',
    ensures
        spec_split_bars(a + seq!['|'] + b) == spec_split_bars(a).push(b),
    decreases b.len(),
{
    lemma_split_nonempty(a);
    if b.len() == 0 {
        let s = a + seq!['|'] + b;
        assert(b =~= Seq::<char>::empty());
        assert(s =~= a.push('|'));
        assert(s.drop_last() =~= a);
        assert(spec_split_bars(s) =~= spec_split_bars(a).push(b));
    } else {
        let s = a + seq!['|'] + b;
        lemma_split_append(a, b.drop_last());
        assert(s.drop_last() =~= a + seq!['|'] + b.drop_last());
        assert(b[b.len() - 1] != '|');
        assert(s.last() == b.last());
        assert(s.last() != '|');
        let rest = spec_split_bars(s.drop_last());
        assert(rest == spec_split_bars(a).push(b.drop_last()));
        assert(rest.last() == b.drop_last());
        assert(rest.last().push(s.last()) =~= b);
        let res = rest.update(rest.len() - 1, rest.last().push(s.last()));
        assert(spec_split_bars(s) == res);
        assert(res =~= spec_split_bars(a).push(b));
    }
}

/// Trailing spaces do not change a right trim.
pub proof fn lemma_trim_end_spaces(s: Seq<char>, n: nat)
    ensures
        spec_trim_end(s + spaces(n)) == spec_trim_end(s),
    decreases n,
{
    if n == 0 {
        assert(s + spaces(0) =~= s);
    } else {
        let t = s + spaces(n);
        assert(t.len() > 0 && t.last() == ' ');
        assert(t.drop_last() =~= s + spaces((n - 1) as nat));
        lemma_trim_end_spaces(s, (n - 1) as nat);
    }
}

/// Leading spaces do not change a left trim.
pub proof fn lemma_trim_start_spaces(s: Seq<char>, n: nat)
    ensures
        spec_trim_start(spaces(n) + s) == spec_trim_start(s),
    decreases n,
{
    if n == 0 {
        assert(spaces(0) + s =~= s);
    } else {
        let t = spaces(n) + s;
        assert(t.len() > 0 && t.first() == ' ');
        assert(t.drop_first() =~= spaces((n - 1) as nat) + s);
        lemma_trim_start_spaces(s, (n - 1) as nat);
    }
}

/// Trimming a label wrapped in spaces gives back the label, provided the
/// label itself neither starts nor ends with a space.
pub proof fn lemma_trim_field(label: Seq<char>, a: nat, b: nat)
    requires
        label.len() > 0,
        label.first() != ' ',
        label.last() != ' ',
    ensures
        spec_trim(spaces(a) + label + spaces(b)) == label,
{
    let w = spaces(a) + label;
    assert(spaces(a) + label + spaces(b) =~= w + spaces(b));
    lemma_trim_end_spaces(w, b);
    assert(w.last() == label.last());
    assert(spec_trim_end(w) == w);
    lemma_trim_start_spaces(label, a);
    assert(spec_trim_start(w) == label);
}

/// Round trip: re-parsing the header line (without its trailing newline)
/// yields the column labels in the fixed declared order.
pub proof fn lemma_header_round_trip()
    ensures
        spec_columns(spec_header_line().drop_last()) == spec_column_labels(),
{
    reveal_strlit("Pos");
    reveal_strlit("Team");
    reveal_strlit("GP");
    reveal_strlit("PTS");
    reveal_strlit("W");
    reveal_strlit("D");
    reveal_strlit("L");
    reveal_strlit("G");
    reveal_strlit("GA");
    reveal_strlit("GD");
    reveal_strlit(" | ");
    reveal_strlit("\n");
    let bar = seq!['|'];
    let f0 = "Pos"@ + spaces(1);
    let f1 = spaces(1) + "Team"@ + spaces(23);
    let f2 = spaces(1) + "GP"@ + spaces(1);
    let f3 = spaces(1) + "PTS"@ + spaces(1);
    let f4 = spaces(1) + "W"@ + spaces(1);
    let f5 = spaces(1) + "D"@ + spaces(1);
    let f6 = spaces(1) + "L"@ + spaces(1);
    let f7 = spaces(1) + "G"@ + spaces(1);
    let f8 = spaces(1) + "GA"@ + spaces(1);
    let f9 = spaces(1) + "GD"@;
    let a0 = f0;
    let a1 = a0 + bar + f1;
    let a2 = a1 + bar + f2;
    let a3 = a2 + bar + f3;
    let a4 = a3 + bar + f4;
    let a5 = a4 + bar + f5;
    let a6 = a5 + bar + f6;
    let a7 = a6 + bar + f7;
    let a8 = a7 + bar + f8;
    let a9 = a8 + bar + f9;
    assert(spec_header_line().drop_last() =~= a9);
    assert(forall|i: int| 0 <= i < f0.len() ==> f0[i] != '|');
    assert(forall|i: int| 0 <= i < f1.len() ==> f1[i] != '|');
    assert(forall|i: int| 0 <= i < f2.len() ==> f2[i] != '|');
    assert(forall|i: int| 0 <= i < f3.len() ==> f3[i] != '|');
    assert(forall|i: int| 0 <= i < f4.len() ==> f4[i] != '|');
    assert(forall|i: int| 0 <= i < f5.len() ==> f5[i] != '|');
    assert(forall|i: int| 0 <= i < f6.len() ==> f6[i] != '|');
    assert(forall|i: int| 0 <= i < f7.len() ==> f7[i] != '|');
    assert(forall|i: int| 0 <= i < f8.len() ==> f8[i] != '|');
    assert(forall|i: int| 0 <= i < f9.len() ==> f9[i] != '|');
    lemma_split_no_bar(f0);
    lemma_split_append(a0, f1);
    lemma_split_append(a1, f2);
    lemma_split_append(a2, f3);
    lemma_split_append(a3, f4);
    lemma_split_append(a4, f5);
    lemma_split_append(a5, f6);
    lemma_split_append(a6, f7);
    lemma_split_append(a7, f8);
    lemma_split_append(a8, f9);
    assert(spec_split_bars(a9) =~= seq![f0, f1, f2, f3, f4, f5, f6, f7, f8, f9]);
    assert(f0 =~= spaces(0) + "Pos"@ + spaces(1));
    lemma_trim_field("Pos"@, 0, 1);
    lemma_trim_field("Team"@, 1, 23);
    lemma_trim_field("GP"@, 1, 1);
    lemma_trim_field("PTS"@, 1, 1);
    lemma_trim_field("W"@, 1, 1);
    lemma_trim_field("D"@, 1, 1);
    lemma_trim_field("L"@, 1, 1);
    lemma_trim_field("G"@, 1, 1);
    lemma_trim_field("GA"@, 1, 1);
    assert(f9 =~= spaces(1) + "GD"@ + spaces(0));
    lemma_trim_field("GD"@, 1, 0);
    assert(spec_columns(a9) =~= spec_column_labels());
}

} // verus!
