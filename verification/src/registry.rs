//! The competition registry: the fixed list of supported leagues.

use vstd::prelude::*;
use crate::model::Competition;

verus! {

/// The ids of the supported competitions, in menu order.
pub open spec fn spec_competition_ids() -> Seq<u16> {
    seq![2016u16, 2021u16, 2015u16, 2002u16, 2019u16, 2003u16, 2017u16]
}

/// The display names of the supported competitions, in menu order.
pub open spec fn spec_competition_names() -> Seq<Seq<char>> {
    seq![
        "Championship"@,
        "Premier League"@,
        "Ligue 1"@,
        "Bundesliga"@,
        "Serie A"@,
        "Eredivisie"@,
        "Primeira Liga"@,
    ]
}

/// The supported competitions, in the order the index page lists them.
pub fn competitions() -> (r: Vec<Competition>)
    ensures
        r@.len() == spec_competition_ids().len(),
        forall|i: int|
            0 <= i < r@.len() ==> #[trigger] r@[i].id == spec_competition_ids()[i]
                && r@[i].name@ == spec_competition_names()[i],
{
    let mut r: Vec<Competition> = Vec::new();
    r.push(Competition { id: 2016, name: "Championship".to_owned() });
    r.push(Competition { id: 2021, name: "Premier League".to_owned() });
    r.push(Competition { id: 2015, name: "Ligue 1".to_owned() });
    r.push(Competition { id: 2002, name: "Bundesliga".to_owned() });
    r.push(Competition { id: 2019, name: "Serie A".to_owned() });
    r.push(Competition { id: 2003, name: "Eredivisie".to_owned() });
    r.push(Competition { id: 2017, name: "Primeira Liga".to_owned() });
    r
}

} // verus!
