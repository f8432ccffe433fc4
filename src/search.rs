//! The filter of a server search: by region, by game type, by both, or by
//! neither. Matching is exact text equality.

use vstd::prelude::*;

use crate::json::{text_of, JsonValue};
use crate::models::GameServer;

verus! {

/// The criteria of a search; an absent criterion admits every server.
#[derive(Debug, Clone, PartialEq, Eq)]
pub struct SearchFilter {
    pub region: Option<String>,
    pub game_type: Option<String>,
}

impl SearchFilter {
    /// Whether `s` meets every criterion that is present.
    pub open spec fn admits(self, s: GameServer) -> bool {
        &&& (self.region matches Some(r) ==> s.region@ == r@)
        &&& (self.game_type matches Some(g) ==> s.game_type@ == g@)
    }

    /// The servers of `rows` that the filter admits, in their order.
    pub open spec fn select(self, rows: Seq<GameServer>) -> Seq<GameServer> {
        rows.filter(|s: GameServer| self.admits(s))
    }

    /// Reads the criteria of a search body: `region` and `game_type` are
    /// taken where they are strings and left out otherwise.
    pub fn from_json(body: &JsonValue) -> (r: SearchFilter)
        ensures
            r.region == text_of(body.field("region"@)),
            r.game_type == text_of(body.field("game_type"@)),
    {
        SearchFilter { region: body.text_at("region"), game_type: body.text_at("game_type") }
    }

    /// The region names the search mentions.
    pub open spec fn region_names(self) -> Seq<String> {
        match self.region {
            Some(name) => seq![name],
            None => Seq::empty(),
        }
    }

    /// The region names the search mentions, to be checked against the
    /// stored regions.
    pub fn region_candidates(&self) -> (r: Vec<String>)
        ensures
            r@ == self.region_names(),
    {
        let mut r: Vec<String> = Vec::new();
        if let Some(name) = &self.region {
            r.push(name.clone());
        }
        r
    }

    /// Whether `s` meets every criterion that is present.
    pub fn matches(&self, s: &GameServer) -> (r: bool)
        ensures
            r == self.admits(*s),
    {
        let region_ok = match &self.region {
            Some(r) => s.region == *r,
            None => true,
        };
        let game_type_ok = match &self.game_type {
            Some(g) => s.game_type == *g,
            None => true,
        };
        region_ok && game_type_ok
    }

    /// Keeps the servers of `rows` that the filter admits, in their order.
    pub fn apply(&self, rows: Vec<GameServer>) -> (r: Vec<GameServer>)
        ensures
            r@ == self.select(rows@),
    {
        let ghost all = rows@;
        let total = rows.len();
        let mut rest = rows;
        assert(all.skip(0) =~= all);
        let mut kept: Vec<GameServer> = Vec::new();
        let mut k: usize = 0;
        while rest.len() > 0
            invariant
                0 <= k <= all.len(),
                rest@ == all.skip(k as int),
                k + rest@.len() == all.len(),
                all.len() == total,
                kept@ == self.select(all.take(k as int)),
            decreases rest.len(),
        {
            let s = rest.remove(0);
            proof {
                reveal(Seq::filter);
                assert(s == all[k as int]);
                assert(all.take(k + 1).drop_last() =~= all.take(k as int));
                assert(rest@ =~= all.skip(k + 1));
                assert(all.take(k + 1).last() == s);
                assert(self.select(all.take(k + 1)) == (if self.admits(s) {
                    self.select(all.take(k as int)).push(s)
                } else {
                    self.select(all.take(k as int))
                }));
            }
            if self.matches(&s) {
                kept.push(s);
            }
            k = k + 1;
        }
        assert(all.take(k as int) =~= all);
        kept
    }
}

/// A search with neither criterion returns every server.
pub proof fn search_without_criteria_returns_all(rows: Seq<GameServer>)
    ensures
        (SearchFilter { region: None, game_type: None }).select(rows) == rows,
    decreases rows.len(),
{
    reveal(Seq::filter);
    let f = SearchFilter { region: None, game_type: None };
    if rows.len() > 0 {
        search_without_criteria_returns_all(rows.drop_last());
        assert(f.admits(rows.last()));
        assert(f.select(rows) == f.select(rows.drop_last()).push(rows.last()));
        assert(rows.drop_last().push(rows.last()) =~= rows);
    }
}

/// A search by region alone returns exactly the servers in that region, in
/// their order.
pub proof fn search_by_region_returns_region(rows: Seq<GameServer>, region: String)
    ensures
        (SearchFilter { region: Some(region), game_type: None }).select(rows)
            == rows.filter(|s: GameServer| s.region@ == region@),
    decreases rows.len(),
{
    reveal(Seq::filter);
    let f = SearchFilter { region: Some(region), game_type: None };
    if rows.len() > 0 {
        search_by_region_returns_region(rows.drop_last(), region);
        assert(f.admits(rows.last()) == (rows.last().region@ == region@));
    }
}

} // verus!
