//! The index page: a gophermap with a banner, one menu entry per
//! competition, and the menu-file termination sequence.

use vstd::prelude::*;
use vstd::string::StringExecFns;
use crate::clock::formatted_now;
use crate::model::Competition;
use crate::numfmt::spec_dec;
use crate::numfmt::u16_to_string;
use crate::table::spec_termination;
use crate::table::termination_line;

verus! {

/// The banner text that precedes the "last updated" timestamp.
pub open spec fn spec_banner() -> Seq<char> {
    "

   |             |             |
   |___          |          ___|
   |_  |         |         |  _|
  .| | |.       ,|.       .| | |.
  || | | )     ( | )     ( | | ||
  '|_| |'       `|'       `| |_|'
   |___|         |         |___|
   |             |             |
   |_____________|_____________|

See how your team is doing with some nice soccer standings.
Sync happens every 1 hour or so.

Last updated "@
}

/// The banner text that precedes the "last updated" timestamp.
fn banner_str() -> (r: &'static str)
    ensures
        r@ == spec_banner(),
{
    "

   |             |             |
   |___          |          ___|
   |_  |         |         |  _|
  .| | |.       ,|.       .| | |.
  || | | )     ( | )     ( | | ||
  '|_| |'       `|'       `| |_|'
   |___|         |         |___|
   |             |             |
   |_____________|_____________|

See how your team is doing with some nice soccer standings.
Sync happens every 1 hour or so.

Last updated "
}

/// The title block: the banner, the timestamp, and a blank line.
pub open spec fn spec_main_title(ts: Seq<char>) -> Seq<char> {
    spec_banner() + ts + "\n\n"@
}

/// Renders the title block around the given timestamp.
pub fn main_title(timestamp: &str) -> (r: String)
    ensures
        r@ == spec_main_title(timestamp@),
{
    let mut r = banner_str().to_owned();
    r.append(timestamp);
    r.append("\n\n");
    proof {
        assert(r@ =~= spec_main_title(timestamp@));
    }
    r
}

/// One competition's menu entry: a text-file item whose label is the
/// competition's name and whose target is `<id>.txt`.
pub open spec fn spec_menu_line(c: Competition) -> Seq<char> {
    "0"@ + c.name@ + "\t"@ + spec_dec(c.id as nat) + ".txt\n"@
}

/// Renders one competition's menu entry.
pub fn menu_line(c: &Competition) -> (r: String)
    ensures
        r@ == spec_menu_line(*c),
{
    let mut r = "0".to_owned();
    r.append(c.name.as_str());
    r.append("\t");
    let digits = u16_to_string(c.id);
    r.append(digits.as_str());
    r.append(".txt\n");
    proof {
        assert(r@ =~= spec_menu_line(*c));
    }
    r
}

/// The menu entries of the given competitions, in order.
pub open spec fn spec_menu_lines(comps: Seq<Competition>) -> Seq<char>
    decreases comps.len(),
{
    if comps.len() == 0 {
        Seq::empty()
    } else {
        spec_menu_lines(comps.drop_last()) + spec_menu_line(comps.last())
    }
}

/// A whole gophermap: the title block around the timestamp, one menu
/// entry per competition in order, and the termination sequence.
pub open spec fn spec_gophermap(ts: Seq<char>, comps: Seq<Competition>) -> Seq<char> {
    spec_main_title(ts) + spec_menu_lines(comps) + spec_termination()
}

/// Renders the gophermap around the given timestamp.
pub fn competitions_to_gophermap(timestamp: &str, comps: &Vec<Competition>) -> (r: String)
    ensures
        r@ == spec_gophermap(timestamp@, comps@),
{
    let mut r = main_title(timestamp);
    proof {
        assert(comps@.take(0) =~= Seq::<Competition>::empty());
        assert(r@ =~= spec_main_title(timestamp@) + spec_menu_lines(comps@.take(0)));
    }
    let mut i: usize = 0;
    while i < comps.len()
        invariant
            i <= comps@.len(),
            r@ == spec_main_title(timestamp@) + spec_menu_lines(comps@.take(i as int)),
        decreases comps@.len() - i,
    {
        let line = menu_line(&comps[i]);
        r.append(line.as_str());
        i = i + 1;
        proof {
            assert(comps@.take(i as int).drop_last() =~= comps@.take(i - 1));
            assert(comps@.take(i as int).last() == comps@[i - 1]);
            assert(r@ =~= spec_main_title(timestamp@) + spec_menu_lines(comps@.take(i as int)));
        }
    }
    proof {
        assert(comps@.take(comps@.len() as int) =~= comps@);
    }
    r.append(termination_line());
    proof {
        assert(r@ =~= spec_gophermap(timestamp@, comps@));
    }
    r
}

/// Renders the gophermap around the current time: whatever timestamp the
/// clock produced, the result is the gophermap built around it.
pub fn build_gophermap(comps: &Vec<Competition>) -> (r: String)
    ensures
        exists|ts: Seq<char>| r@ == #[trigger] spec_gophermap(ts, comps@),
{
    let now = formatted_now();
    let r = competitions_to_gophermap(now.as_str(), comps);
    proof {
        assert(r@ == spec_gophermap(now@, comps@));
    }
    r
}

} // verus!
