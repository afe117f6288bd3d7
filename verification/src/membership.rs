//! What holds of every assembled hierarchy: membership is exclusive, and no
//! group in it is empty.
//!
//! Memberships are counted: each province of each area of each region of each
//! super-region contributes its identifier once to the bag of province
//! memberships, and likewise for areas and regions. Membership is exclusive
//! when no identifier is counted twice.
use vstd::prelude::*;
use vstd::multiset::Multiset;
use crate::lexicon::lookup;
use crate::map::{
    area_id, area_stage, AreaDefinitionView, AreaView, assembled, charter_marker, claim_provinces,
    name_key, province_of, ProvinceHistory, ProvinceView, region_id, region_references,
    region_stage, RegionDefinitionView, RegionView, super_region_stage, SuperRegionDefinitionView,
    SuperRegionView,
};
use crate::pool::{
    bag_sum, claim, holds, lemma_bag_sum_member, lemma_bag_sum_push, lemma_claim_conserves,
    lemma_claim_from_pool,
};

verus! {

/// The bag that holds the identifier of a province once.
pub open spec fn province_bag() -> spec_fn(ProvinceView) -> Multiset<u64> {
    |p: ProvinceView| Multiset::singleton(p.id)
}

/// The bag that holds the identifier of an area once.
pub open spec fn area_bag() -> spec_fn(AreaView) -> Multiset<Seq<char>> {
    |a: AreaView| Multiset::singleton(a.id)
}

/// The bag that holds the identifier of a region once.
pub open spec fn region_bag() -> spec_fn(RegionView) -> Multiset<Seq<char>> {
    |r: RegionView| Multiset::singleton(r.id)
}

/// The province memberships of an area.
pub open spec fn provinces_of_area() -> spec_fn(AreaView) -> Multiset<u64> {
    |a: AreaView| bag_sum(a.provinces, province_bag())
}

/// The province memberships of a region.
pub open spec fn provinces_of_region() -> spec_fn(RegionView) -> Multiset<u64> {
    |r: RegionView| bag_sum(r.areas, provinces_of_area())
}

/// The province memberships of a super-region.
pub open spec fn provinces_of_super_region() -> spec_fn(SuperRegionView) -> Multiset<u64> {
    |s: SuperRegionView| bag_sum(s.regions, provinces_of_region())
}

/// The area memberships of a region.
pub open spec fn areas_of_region() -> spec_fn(RegionView) -> Multiset<Seq<char>> {
    |r: RegionView| bag_sum(r.areas, area_bag())
}

/// The area memberships of a super-region.
pub open spec fn areas_of_super_region() -> spec_fn(SuperRegionView) -> Multiset<Seq<char>> {
    |s: SuperRegionView| bag_sum(s.regions, areas_of_region())
}

/// The region memberships of a super-region.
pub open spec fn regions_of_super_region() -> spec_fn(SuperRegionView) -> Multiset<Seq<char>> {
    |s: SuperRegionView| bag_sum(s.regions, region_bag())
}

/// How often each province identifier occurs in a hierarchy.
pub open spec fn province_memberships(hierarchy: Seq<SuperRegionView>) -> Multiset<u64> {
    bag_sum(hierarchy, provinces_of_super_region())
}

/// How often each area identifier occurs in a hierarchy.
pub open spec fn area_memberships(hierarchy: Seq<SuperRegionView>) -> Multiset<Seq<char>> {
    bag_sum(hierarchy, areas_of_super_region())
}

/// How often each region identifier occurs in a hierarchy.
pub open spec fn region_memberships(hierarchy: Seq<SuperRegionView>) -> Multiset<Seq<char>> {
    bag_sum(hierarchy, regions_of_super_region())
}

/// Every province is in at most one area, every area in at most one region,
/// every region in at most one super-region.
pub open spec fn exclusive(hierarchy: Seq<SuperRegionView>) -> bool {
    &&& forall|id: u64| province_memberships(hierarchy).count(id) <= 1
    &&& forall|id: Seq<char>| area_memberships(hierarchy).count(id) <= 1
    &&& forall|id: Seq<char>| region_memberships(hierarchy).count(id) <= 1
}

/// Every region of the list owns an area.
pub open spec fn regions_populated(regions: Seq<RegionView>) -> bool {
    forall|r: int| 0 <= r < regions.len() ==> (#[trigger] regions[r]).areas.len() > 0
}

/// Every super-region owns a region, and every region in it owns an area.
pub open spec fn populated(hierarchy: Seq<SuperRegionView>) -> bool {
    forall|s: int|
        0 <= s < hierarchy.len() ==> (#[trigger] hierarchy[s]).regions.len() > 0
            && regions_populated(hierarchy[s].regions)
}

/// The provinces that a claim takes had not been claimed before, are claimed
/// afterwards, and are taken once each.
proof fn lemma_claim_provinces(
    ids: Seq<u64>,
    claimed: Set<u64>,
    lexicon: Map<Seq<char>, Seq<char>>,
    histories: Map<u64, ProvinceHistory>,
)
    ensures
        claimed.subset_of(claim_provinces(ids, claimed, lexicon, histories).claimed),
        forall|id: u64|
            bag_sum(
                claim_provinces(ids, claimed, lexicon, histories).taken,
                province_bag(),
            ).count(id) <= 1,
        forall|id: u64|
            bag_sum(
                claim_provinces(ids, claimed, lexicon, histories).taken,
                province_bag(),
            ).count(id) > 0 ==> !claimed.contains(id) && claim_provinces(
                ids,
                claimed,
                lexicon,
                histories,
            ).claimed.contains(id),
    decreases ids.len(),
{
    if ids.len() > 0 {
        lemma_claim_provinces(ids.drop_last(), claimed, lexicon, histories);
        let before = claim_provinces(ids.drop_last(), claimed, lexicon, histories);
        if !before.claimed.contains(ids.last()) {
            lemma_bag_sum_push(
                before.taken,
                province_of(ids.last(), lexicon, histories),
                province_bag(),
            );
        }
    }
}

/// An identifier that the bag of a pool counts is held by the pool.
proof fn lemma_counted_area_is_held(pool: Seq<AreaView>, id: Seq<char>)
    requires
        bag_sum(pool, area_bag()).count(id) > 0,
    ensures
        holds(pool, area_id(), id),
{
    lemma_bag_sum_member(pool, area_bag(), id);
    let i = choose|i: int| 0 <= i < pool.len() && (area_bag())(#[trigger] pool[i]).count(id) > 0;
    assert(pool.map_values(area_id())[i] == id);
}

/// An identifier that the bag of a pool counts is held by the pool.
proof fn lemma_counted_region_is_held(pool: Seq<RegionView>, id: Seq<char>)
    requires
        bag_sum(pool, region_bag()).count(id) > 0,
    ensures
        holds(pool, region_id(), id),
{
    lemma_bag_sum_member(pool, region_bag(), id);
    let i = choose|i: int|
        0 <= i < pool.len() && (region_bag())(#[trigger] pool[i]).count(id) > 0;
    assert(pool.map_values(region_id())[i] == id);
}

/// In the pool of areas no province and no area identifier is counted twice.
proof fn lemma_area_stage(
    definitions: Seq<AreaDefinitionView>,
    lexicon: Map<Seq<char>, Seq<char>>,
    histories: Map<u64, ProvinceHistory>,
)
    ensures
        forall|id: u64|
            bag_sum(area_stage(definitions, lexicon, histories).pool, provinces_of_area()).count(
                id,
            ) <= 1,
        forall|id: u64|
            bag_sum(area_stage(definitions, lexicon, histories).pool, provinces_of_area()).count(
                id,
            ) > 0 ==> area_stage(definitions, lexicon, histories).claimed.contains(id),
        forall|id: Seq<char>|
            bag_sum(area_stage(definitions, lexicon, histories).pool, area_bag()).count(id) <= 1,
    decreases definitions.len(),
{
    if definitions.len() > 0 {
        lemma_area_stage(definitions.drop_last(), lexicon, histories);
        let before = area_stage(definitions.drop_last(), lexicon, histories);
        let after = area_stage(definitions, lexicon, histories);
        let definition = definitions.last();
        let provinces = claim_provinces(definition.provinces, before.claimed, lexicon, histories);
        lemma_claim_provinces(definition.provinces, before.claimed, lexicon, histories);
        if !holds(before.pool, area_id(), definition.id) {
            let area = AreaView {
                id: definition.id,
                name: lookup(lexicon, name_key(definition.id)),
                provinces: provinces.taken,
            };
            lemma_bag_sum_push(before.pool, area, provinces_of_area());
            lemma_bag_sum_push(before.pool, area, area_bag());
            assert forall|id: u64| bag_sum(after.pool, provinces_of_area()).count(id) <= 1 by {
                let old_count = bag_sum(before.pool, provinces_of_area()).count(id);
                let new_count = bag_sum(provinces.taken, province_bag()).count(id);
                assert((provinces_of_area())(area) == bag_sum(provinces.taken, province_bag()));
                assert(bag_sum(after.pool, provinces_of_area()).count(id) == old_count
                    + new_count);
                if new_count > 0 {
                    assert(!before.claimed.contains(id));
                }
            }
            assert forall|id: u64|
                bag_sum(after.pool, provinces_of_area()).count(id)
                    > 0 implies after.claimed.contains(id) by {
                let old_count = bag_sum(before.pool, provinces_of_area()).count(id);
                let new_count = bag_sum(provinces.taken, province_bag()).count(id);
                assert((provinces_of_area())(area) == bag_sum(provinces.taken, province_bag()));
                assert(bag_sum(after.pool, provinces_of_area()).count(id) == old_count
                    + new_count);
                if old_count > 0 {
                    assert(before.claimed.contains(id));
                }
            }
            assert forall|id: Seq<char>| bag_sum(after.pool, area_bag()).count(id) <= 1 by {
                if id == definition.id && bag_sum(before.pool, area_bag()).count(id) > 0 {
                    lemma_counted_area_is_held(before.pool, id);
                }
            }
        }
    }
}

/// The region stage moves areas and loses none twice: what the pool of areas
/// and the regions count together, the pool of areas counted before. No
/// region identifier is counted twice, and every region owns an area.
proof fn lemma_region_stage(
    definitions: Seq<RegionDefinitionView>,
    areas: Seq<AreaView>,
    lexicon: Map<Seq<char>, Seq<char>>,
)
    ensures
        bag_sum(region_stage(definitions, areas, lexicon).areas, provinces_of_area()).add(
            bag_sum(region_stage(definitions, areas, lexicon).regions, provinces_of_region()),
        ).subset_of(bag_sum(areas, provinces_of_area())),
        bag_sum(region_stage(definitions, areas, lexicon).areas, area_bag()).add(
            bag_sum(region_stage(definitions, areas, lexicon).regions, areas_of_region()),
        ).subset_of(bag_sum(areas, area_bag())),
        forall|id: Seq<char>|
            bag_sum(region_stage(definitions, areas, lexicon).regions, region_bag()).count(id)
                <= 1,
        regions_populated(region_stage(definitions, areas, lexicon).regions),
    decreases definitions.len(),
{
    if definitions.len() > 0 {
        lemma_region_stage(definitions.drop_last(), areas, lexicon);
        let before = region_stage(definitions.drop_last(), areas, lexicon);
        let after = region_stage(definitions, areas, lexicon);
        let definition = definitions.last();
        let claimed = claim(definition.areas, before.areas, area_id());
        lemma_claim_conserves(definition.areas, before.areas, area_id(), provinces_of_area());
        lemma_claim_conserves(definition.areas, before.areas, area_id(), area_bag());
        if claimed.taken.len() > 0 && !holds(before.regions, region_id(), definition.id) {
            let region = RegionView {
                id: definition.id,
                name: lookup(lexicon, name_key(definition.id)),
                areas: claimed.taken,
            };
            lemma_bag_sum_push(before.regions, region, provinces_of_region());
            lemma_bag_sum_push(before.regions, region, areas_of_region());
            lemma_bag_sum_push(before.regions, region, region_bag());
            assert forall|id: Seq<char>| bag_sum(after.regions, region_bag()).count(id) <= 1 by {
                if id == definition.id && bag_sum(before.regions, region_bag()).count(id) > 0 {
                    lemma_counted_region_is_held(before.regions, id);
                }
            }
            assert forall|r: int| 0 <= r < after.regions.len() implies (
            #[trigger] after.regions[r]).areas.len() > 0 by {
                if r < before.regions.len() {
                    assert(after.regions[r] == before.regions[r]);
                }
            }
        }
    }
}

/// The super-region stage moves regions and loses none twice: what the pool
/// of regions and the super-regions count together, the pool of regions
/// counted before. Every super-region owns a region, and every region in it
/// was in the pool.
proof fn lemma_super_region_stage(
    definitions: Seq<SuperRegionDefinitionView>,
    regions: Seq<RegionView>,
    lexicon: Map<Seq<char>, Seq<char>>,
)
    requires
        regions_populated(regions),
    ensures
        bag_sum(super_region_stage(definitions, regions, lexicon).regions, provinces_of_region()).add(
            bag_sum(
                super_region_stage(definitions, regions, lexicon).super_regions,
                provinces_of_super_region(),
            ),
        ).subset_of(bag_sum(regions, provinces_of_region())),
        bag_sum(super_region_stage(definitions, regions, lexicon).regions, areas_of_region()).add(
            bag_sum(
                super_region_stage(definitions, regions, lexicon).super_regions,
                areas_of_super_region(),
            ),
        ).subset_of(bag_sum(regions, areas_of_region())),
        bag_sum(super_region_stage(definitions, regions, lexicon).regions, region_bag()).add(
            bag_sum(
                super_region_stage(definitions, regions, lexicon).super_regions,
                regions_of_super_region(),
            ),
        ).subset_of(bag_sum(regions, region_bag())),
        regions_populated(super_region_stage(definitions, regions, lexicon).regions),
        populated(super_region_stage(definitions, regions, lexicon).super_regions),
    decreases definitions.len(),
{
    if definitions.len() > 0 {
        lemma_super_region_stage(definitions.drop_last(), regions, lexicon);
        let before = super_region_stage(definitions.drop_last(), regions, lexicon);
        let after = super_region_stage(definitions, regions, lexicon);
        let definition = definitions.last();
        let references = region_references(definition.members);
        let claimed = claim(references, before.regions, region_id());
        lemma_claim_conserves(references, before.regions, region_id(), provinces_of_region());
        lemma_claim_conserves(references, before.regions, region_id(), areas_of_region());
        lemma_claim_conserves(references, before.regions, region_id(), region_bag());
        lemma_claim_from_pool(references, before.regions, region_id());
        assert(regions_populated(claimed.pool)) by {
            assert forall|r: int| 0 <= r < claimed.pool.len() implies (
            #[trigger] claimed.pool[r]).areas.len() > 0 by {
                assert(before.regions.contains(claimed.pool[r]));
            }
        }
        assert(regions_populated(claimed.taken)) by {
            assert forall|r: int| 0 <= r < claimed.taken.len() implies (
            #[trigger] claimed.taken[r]).areas.len() > 0 by {
                assert(before.regions.contains(claimed.taken[r]));
            }
        }
        if claimed.taken.len() > 0 {
            let super_region = SuperRegionView {
                id: definition.id,
                name: lookup(lexicon, definition.id),
                regions: claimed.taken,
                restrict_charter: definition.members.contains(charter_marker()),
            };
            lemma_bag_sum_push(before.super_regions, super_region, provinces_of_super_region());
            lemma_bag_sum_push(before.super_regions, super_region, areas_of_super_region());
            lemma_bag_sum_push(before.super_regions, super_region, regions_of_super_region());
            assert forall|s: int| 0 <= s < after.super_regions.len() implies (
            #[trigger] after.super_regions[s]).regions.len() > 0 && regions_populated(
                after.super_regions[s].regions,
            ) by {
                if s < before.super_regions.len() {
                    assert(after.super_regions[s] == before.super_regions[s]);
                }
            }
        }
    }
}

/// In every assembled hierarchy membership is exclusive: every province is
/// in at most one area, every area in at most one region, and every region
/// in at most one super-region.
pub proof fn lemma_assembled_exclusive(
    areas: Seq<AreaDefinitionView>,
    regions: Seq<RegionDefinitionView>,
    super_regions: Seq<SuperRegionDefinitionView>,
    lexicon: Map<Seq<char>, Seq<char>>,
    histories: Map<u64, ProvinceHistory>,
)
    ensures
        exclusive(assembled(areas, regions, super_regions, lexicon, histories).super_regions),
{
    let area_pool = area_stage(areas, lexicon, histories).pool;
    let middle = region_stage(regions, area_pool, lexicon);
    let top = super_region_stage(super_regions, middle.regions, lexicon);
    lemma_area_stage(areas, lexicon, histories);
    lemma_region_stage(regions, area_pool, lexicon);
    lemma_super_region_stage(super_regions, middle.regions, lexicon);
    let hierarchy = top.super_regions;
    assert forall|id: u64| province_memberships(hierarchy).count(id) <= 1 by {
        assert(bag_sum(top.regions, provinces_of_region()).add(
            bag_sum(hierarchy, provinces_of_super_region()),
        ).count(id) <= bag_sum(middle.regions, provinces_of_region()).count(id));
        assert(bag_sum(middle.areas, provinces_of_area()).add(
            bag_sum(middle.regions, provinces_of_region()),
        ).count(id) <= bag_sum(area_pool, provinces_of_area()).count(id));
    }
    assert forall|id: Seq<char>| area_memberships(hierarchy).count(id) <= 1 by {
        assert(bag_sum(top.regions, areas_of_region()).add(
            bag_sum(hierarchy, areas_of_super_region()),
        ).count(id) <= bag_sum(middle.regions, areas_of_region()).count(id));
        assert(bag_sum(middle.areas, area_bag()).add(
            bag_sum(middle.regions, areas_of_region()),
        ).count(id) <= bag_sum(area_pool, area_bag()).count(id));
    }
    assert forall|id: Seq<char>| region_memberships(hierarchy).count(id) <= 1 by {
        assert(bag_sum(top.regions, region_bag()).add(
            bag_sum(hierarchy, regions_of_super_region()),
        ).count(id) <= bag_sum(middle.regions, region_bag()).count(id));
    }
}

/// In every assembled hierarchy no group is empty: every super-region owns a
/// region, and every region owns an area.
pub proof fn lemma_assembled_populated(
    areas: Seq<AreaDefinitionView>,
    regions: Seq<RegionDefinitionView>,
    super_regions: Seq<SuperRegionDefinitionView>,
    lexicon: Map<Seq<char>, Seq<char>>,
    histories: Map<u64, ProvinceHistory>,
)
    ensures
        populated(assembled(areas, regions, super_regions, lexicon, histories).super_regions),
{
    let area_pool = area_stage(areas, lexicon, histories).pool;
    let middle = region_stage(regions, area_pool, lexicon);
    lemma_region_stage(regions, area_pool, lexicon);
    lemma_super_region_stage(super_regions, middle.regions, lexicon);
}

/// Whether two history tables hold the same histories for the same
/// provinces.
pub open spec fn same_histories(
    first: Map<u64, ProvinceHistory>,
    second: Map<u64, ProvinceHistory>,
) -> bool {
    forall|id: u64|
        first.contains_key(id) == second.contains_key(id) && (first.contains_key(id)
            ==> first[id]@ == second[id]@)
}

proof fn lemma_claim_provinces_repeatable(
    ids: Seq<u64>,
    claimed: Set<u64>,
    lexicon: Map<Seq<char>, Seq<char>>,
    first: Map<u64, ProvinceHistory>,
    second: Map<u64, ProvinceHistory>,
)
    requires
        same_histories(first, second),
    ensures
        claim_provinces(ids, claimed, lexicon, first) == claim_provinces(
            ids,
            claimed,
            lexicon,
            second,
        ),
    decreases ids.len(),
{
    if ids.len() > 0 {
        lemma_claim_provinces_repeatable(ids.drop_last(), claimed, lexicon, first, second);
        assert(province_of(ids.last(), lexicon, first) == province_of(
            ids.last(),
            lexicon,
            second,
        ));
    }
}

proof fn lemma_area_stage_repeatable(
    definitions: Seq<AreaDefinitionView>,
    lexicon: Map<Seq<char>, Seq<char>>,
    first: Map<u64, ProvinceHistory>,
    second: Map<u64, ProvinceHistory>,
)
    requires
        same_histories(first, second),
    ensures
        area_stage(definitions, lexicon, first) == area_stage(definitions, lexicon, second),
    decreases definitions.len(),
{
    if definitions.len() > 0 {
        lemma_area_stage_repeatable(definitions.drop_last(), lexicon, first, second);
        lemma_claim_provinces_repeatable(
            definitions.last().provinces,
            area_stage(definitions.drop_last(), lexicon, first).claimed,
            lexicon,
            first,
            second,
        );
    }
}

/// Assembling is repeatable: from the same definitions and tables that hold
/// the same, the same hierarchy comes out, with the same members in the same
/// order.
pub proof fn lemma_assembled_repeatable(
    areas: Seq<AreaDefinitionView>,
    regions: Seq<RegionDefinitionView>,
    super_regions: Seq<SuperRegionDefinitionView>,
    lexicon: Map<Seq<char>, Seq<char>>,
    first: Map<u64, ProvinceHistory>,
    second: Map<u64, ProvinceHistory>,
)
    requires
        same_histories(first, second),
    ensures
        assembled(areas, regions, super_regions, lexicon, first) == assembled(
            areas,
            regions,
            super_regions,
            lexicon,
            second,
        ),
{
    lemma_area_stage_repeatable(areas, lexicon, first, second);
}

} // verus!
