//! Group membership policy: which rooms a user's groups call for.

use vstd::prelude::*;

use crate::models::group_mapping::GroupMapping;
use crate::text::{contains_str, seq_has_str};

verus! {

/// Whether a mapping applies to a user with the given groups.
pub open spec fn mapping_applies(m: GroupMapping, groups: Seq<String>) -> bool {
    seq_has_str(groups, m.keycloak_group@)
}

/// The mappings that apply to a user with the given groups, in order.
pub open spec fn applicable(ms: Seq<GroupMapping>, groups: Seq<String>) -> Seq<GroupMapping>
    decreases ms.len(),
{
    if ms.len() == 0 {
        Seq::empty()
    } else {
        let rest = applicable(ms.drop_last(), groups);
        if mapping_applies(ms.last(), groups) {
            rest.push(ms.last())
        } else {
            rest
        }
    }
}

/// The room IDs (as characters) of a sequence of mappings.
pub open spec fn room_ids(ms: Seq<GroupMapping>) -> Seq<Seq<char>> {
    ms.map_values(|m: GroupMapping| m.matrix_room_id@)
}

/// Evaluates group membership policy over the configured group to room
/// mappings.
#[derive(Debug, Clone)]
pub struct PolicyEngine {
    mappings: Vec<GroupMapping>,
}

impl Default for PolicyEngine {
    fn default() -> (res: Self)
        ensures
            res.spec_mappings().len() == 0,
    {
        PolicyEngine { mappings: Vec::new() }
    }
}

impl PolicyEngine {
    /// The configured mappings.
    pub closed spec fn spec_mappings(&self) -> Seq<GroupMapping> {
        self.mappings@
    }

    /// An engine over the given mappings.
    pub fn new(mappings: Vec<GroupMapping>) -> (res: Self)
        ensures
            res.spec_mappings() == mappings@,
    {
        PolicyEngine { mappings }
    }

    /// The room IDs of every mapping whose group the user has, in order.
    pub fn required_rooms_for(&self, user_groups: &[String]) -> (res: Vec<String>)
        ensures
            res@.map_values(|s: String| s@) == room_ids(applicable(self.spec_mappings(), user_groups@)),
    {
        let mut out: Vec<String> = Vec::new();
        let mut i: usize = 0;
        while i < self.mappings.len()
            invariant
                i <= self.mappings@.len(),
                out@.map_values(|s: String| s@) == room_ids(
                    applicable(self.mappings@.take(i as int), user_groups@),
                ),
            decreases self.mappings@.len() - i,
        {
            let m = &self.mappings[i];
            assert(self.mappings@.take(i + 1).drop_last() =~= self.mappings@.take(i as int));
            if contains_str(user_groups, m.keycloak_group.as_str()) {
                let ghost before = out@;
                out.push(m.matrix_room_id.clone());
                assert(out@.map_values(|s: String| s@) =~= before.map_values(|s: String| s@).push(
                    m.matrix_room_id@,
                ));
                assert(room_ids(applicable(self.mappings@.take(i + 1), user_groups@)) =~= room_ids(
                    applicable(self.mappings@.take(i as int), user_groups@),
                ).push(m.matrix_room_id@));
            }
            i = i + 1;
        }
        assert(self.mappings@.take(self.mappings@.len() as int) =~= self.mappings@);
        out
    }

    /// The mappings whose group the user has, in order.
    pub fn mappings_for<'a>(&'a self, user_groups: &[String]) -> (res: Vec<&'a GroupMapping>)
        ensures
            res@.map_values(|r: &GroupMapping| *r) == applicable(self.spec_mappings(), user_groups@),
    {
        let mut out: Vec<&'a GroupMapping> = Vec::new();
        let mut i: usize = 0;
        while i < self.mappings.len()
            invariant
                i <= self.mappings@.len(),
                out@.map_values(|r: &GroupMapping| *r) == applicable(self.mappings@.take(i as int), user_groups@),
            decreases self.mappings@.len() - i,
        {
            let m = &self.mappings[i];
            assert(self.mappings@.take(i + 1).drop_last() =~= self.mappings@.take(i as int));
            if contains_str(user_groups, m.keycloak_group.as_str()) {
                let ghost before = out@;
                out.push(m);
                assert(out@.map_values(|r: &GroupMapping| *r) =~= before.map_values(
                    |r: &GroupMapping| *r,
                ).push(*m));
            }
            i = i + 1;
        }
        assert(self.mappings@.take(self.mappings@.len() as int) =~= self.mappings@);
        out
    }

    /// Every configured mapping.
    pub fn all_mappings(&self) -> (res: &[GroupMapping])
        ensures
            res@ == self.spec_mappings(),
    {
        self.mappings.as_slice()
    }

    /// Whether no mapping is configured.
    pub fn is_empty(&self) -> (res: bool)
        ensures
            res == (self.spec_mappings().len() == 0),
    {
        self.mappings.len() == 0
    }
}

} // verus!

verus! {

proof fn lemma_applicable_members(ms: Seq<GroupMapping>, groups: Seq<String>, m: GroupMapping)
    ensures
        applicable(ms, groups).contains(m) <==> (ms.contains(m) && mapping_applies(m, groups)),
    decreases ms.len(),
{
    if ms.len() > 0 {
        lemma_applicable_members(ms.drop_last(), groups, m);
        let rest = applicable(ms.drop_last(), groups);
        if ms.contains(m) && !ms.drop_last().contains(m) {
            let i = choose|i: int| 0 <= i < ms.len() && ms[i] == m;
            if i < ms.len() - 1 {
                assert(ms.drop_last()[i] == m);
            }
        }
        if ms.drop_last().contains(m) {
            let i = choose|i: int| 0 <= i < ms.drop_last().len() && ms.drop_last()[i] == m;
            assert(ms[i] == m);
        }
        if mapping_applies(ms.last(), groups) {
            assert(rest.push(ms.last())[rest.len() as int] == ms.last());
            if rest.push(ms.last()).contains(m) {
                let i = choose|i: int| 0 <= i < rest.push(ms.last()).len() && rest.push(ms.last())[i] == m;
                if i < rest.len() {
                    assert(rest[i] == m);
                }
            }
            if rest.contains(m) {
                let i = choose|i: int| 0 <= i < rest.len() && rest[i] == m;
                assert(rest.push(ms.last())[i] == m);
            }
        }
        assert(ms[ms.len() - 1] == ms.last());
    }
}

/// Gaining groups never drops a mapping: when every group of `fewer` is
/// also in `more`, each mapping that applies with `fewer` applies with
/// `more`, so every room required before is still required.
pub proof fn law_more_groups_keep_rooms(
    ms: Seq<GroupMapping>,
    fewer: Seq<String>,
    more: Seq<String>,
    m: GroupMapping,
)
    requires
        forall|s: Seq<char>| seq_has_str(fewer, s) ==> seq_has_str(more, s),
        applicable(ms, fewer).contains(m),
    ensures
        applicable(ms, more).contains(m),
{
    lemma_applicable_members(ms, fewer, m);
    lemma_applicable_members(ms, more, m);
}

} // verus!
