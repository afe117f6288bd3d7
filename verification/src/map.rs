//! The hierarchy assembler: provinces are claimed into areas, areas into
//! regions and regions into super-regions, each at most once.
//!
//! The assembler works on three flat lists of definitions. Each level draws
//! its children from a pool; claiming a child removes it from the pool, so a
//! second reference to the same identifier does not resolve. A reference that
//! does not resolve is recorded and skipped. A region or super-region that
//! ends up without children is dropped.
use vstd::prelude::*;
use vstd::string::*;
use std::collections::{HashMap, HashSet};
use crate::document::{
    Document, Entry, first_flag, first_number, first_text, last_text, listed_texts, numbers_in,
    read_first_flag, read_first_number, read_first_text, read_last_text, read_listed_texts,
    read_numbers, read_texts, texts_in,
};
use crate::lexicon::{Lexicon, lookup};
use crate::membership::{exclusive, lemma_assembled_exclusive, lemma_assembled_populated, populated};
use crate::pool::{claim, holds, lemma_position, position};
use crate::amount::{parse_unsigned, unsigned_of};
use crate::text::{
    before_first, chars_of, decimal_string, decimal_text, find_first, optional_text, text_eq, texts,
    trim, trim_end_at, trim_start_at, view_files,
};
use crate::tree::{parse_document, parsed_document};

verus! {

broadcast use vstd::std_specs::hash::group_hash_axioms;

/// The starting state of a province, as its history file gives it.
#[derive(Debug, PartialEq, Eq)]
pub struct ProvinceHistory {
    pub owner: Option<String>,
    pub controller: Option<String>,
    pub culture: Option<String>,
    pub religion: Option<String>,
    pub base_tax: Option<u64>,
    pub base_production: Option<u64>,
    pub base_manpower: Option<u64>,
    pub trade_goods: Option<String>,
    pub is_city: Option<bool>,
}

/// A province. Two provinces with the same identifier are the same province.
#[derive(Debug)]
pub struct Province {
    pub id: u64,
    pub name: String,
    pub adj: String,
    pub history: Option<ProvinceHistory>,
}

/// An area and the provinces that it owns.
#[derive(Debug)]
pub struct Area {
    pub id: String,
    pub name: String,
    pub provinces: Vec<Province>,
}

/// A region and the areas that it owns.
#[derive(Debug)]
pub struct Region {
    pub id: String,
    pub name: String,
    pub areas: Vec<Area>,
}

/// A super-region and the regions that it owns.
#[derive(Debug)]
pub struct SuperRegion {
    pub id: String,
    pub name: String,
    pub regions: Vec<Region>,
    pub restrict_charter: bool,
}

/// The mathematical model of a [`ProvinceHistory`].
pub struct ProvinceHistoryView {
    pub owner: Option<Seq<char>>,
    pub controller: Option<Seq<char>>,
    pub culture: Option<Seq<char>>,
    pub religion: Option<Seq<char>>,
    pub base_tax: Option<u64>,
    pub base_production: Option<u64>,
    pub base_manpower: Option<u64>,
    pub trade_goods: Option<Seq<char>>,
    pub is_city: Option<bool>,
}

/// The mathematical model of a [`Province`].
pub struct ProvinceView {
    pub id: u64,
    pub name: Seq<char>,
    pub adj: Seq<char>,
    pub history: Option<ProvinceHistoryView>,
}

/// The mathematical model of an [`Area`].
pub struct AreaView {
    pub id: Seq<char>,
    pub name: Seq<char>,
    pub provinces: Seq<ProvinceView>,
}

/// The mathematical model of a [`Region`].
pub struct RegionView {
    pub id: Seq<char>,
    pub name: Seq<char>,
    pub areas: Seq<AreaView>,
}

/// The mathematical model of a [`SuperRegion`].
pub struct SuperRegionView {
    pub id: Seq<char>,
    pub name: Seq<char>,
    pub regions: Seq<RegionView>,
    pub restrict_charter: bool,
}

impl View for ProvinceHistory {
    type V = ProvinceHistoryView;

    open spec fn view(&self) -> ProvinceHistoryView {
        ProvinceHistoryView {
            owner: optional_text(self.owner),
            controller: optional_text(self.controller),
            culture: optional_text(self.culture),
            religion: optional_text(self.religion),
            base_tax: self.base_tax,
            base_production: self.base_production,
            base_manpower: self.base_manpower,
            trade_goods: optional_text(self.trade_goods),
            is_city: self.is_city,
        }
    }
}

impl View for Province {
    type V = ProvinceView;

    open spec fn view(&self) -> ProvinceView {
        ProvinceView {
            id: self.id,
            name: self.name@,
            adj: self.adj@,
            history: match self.history {
                Some(h) => Some(h@),
                None => None,
            },
        }
    }
}

/// The models of a list of provinces, in order.
pub open spec fn view_provinces(provinces: Seq<Province>) -> Seq<ProvinceView> {
    provinces.map_values(|p: Province| p@)
}

impl View for Area {
    type V = AreaView;

    open spec fn view(&self) -> AreaView {
        AreaView { id: self.id@, name: self.name@, provinces: view_provinces(self.provinces@) }
    }
}

/// The models of a list of areas, in order.
pub open spec fn view_areas(areas: Seq<Area>) -> Seq<AreaView> {
    areas.map_values(|a: Area| a@)
}

impl View for Region {
    type V = RegionView;

    open spec fn view(&self) -> RegionView {
        RegionView { id: self.id@, name: self.name@, areas: view_areas(self.areas@) }
    }
}

/// The models of a list of regions, in order.
pub open spec fn view_regions(regions: Seq<Region>) -> Seq<RegionView> {
    regions.map_values(|r: Region| r@)
}

impl View for SuperRegion {
    type V = SuperRegionView;

    open spec fn view(&self) -> SuperRegionView {
        SuperRegionView {
            id: self.id@,
            name: self.name@,
            regions: view_regions(self.regions@),
            restrict_charter: self.restrict_charter,
        }
    }
}

/// The models of a list of super-regions, in order.
pub open spec fn view_super_regions(super_regions: Seq<SuperRegion>) -> Seq<SuperRegionView> {
    super_regions.map_values(|s: SuperRegion| s@)
}

fn copy_text(text: &Option<String>) -> (copy: Option<String>)
    ensures
        optional_text(copy) == optional_text(*text),
{
    match text {
        Some(t) => Some(t.clone()),
        None => None,
    }
}

impl ProvinceHistory {
    /// A copy of this history.
    pub fn duplicate(&self) -> (copy: ProvinceHistory)
        ensures
            copy@ == self@,
    {
        ProvinceHistory {
            owner: copy_text(&self.owner),
            controller: copy_text(&self.controller),
            culture: copy_text(&self.culture),
            religion: copy_text(&self.religion),
            base_tax: self.base_tax,
            base_production: self.base_production,
            base_manpower: self.base_manpower,
            trade_goods: copy_text(&self.trade_goods),
            is_city: self.is_city,
        }
    }
}

/// An area as its file defines it: its identifier and the identifiers of the
/// provinces that it lists.
#[derive(Debug, PartialEq, Eq)]
pub struct AreaDefinition {
    pub id: String,
    pub provinces: Vec<u64>,
}

/// A region as its file defines it: its identifier and the identifiers of the
/// areas that it lists.
#[derive(Debug, PartialEq, Eq)]
pub struct RegionDefinition {
    pub id: String,
    pub areas: Vec<String>,
}

/// A super-region as its file defines it: its identifier and its members,
/// each the identifier of a region or the restrict-charter marker.
#[derive(Debug, PartialEq, Eq)]
pub struct SuperRegionDefinition {
    pub id: String,
    pub members: Vec<String>,
}

/// The mathematical model of an [`AreaDefinition`].
pub struct AreaDefinitionView {
    pub id: Seq<char>,
    pub provinces: Seq<u64>,
}

/// The mathematical model of a [`RegionDefinition`].
pub struct RegionDefinitionView {
    pub id: Seq<char>,
    pub areas: Seq<Seq<char>>,
}

/// The mathematical model of a [`SuperRegionDefinition`].
pub struct SuperRegionDefinitionView {
    pub id: Seq<char>,
    pub members: Seq<Seq<char>>,
}

impl View for AreaDefinition {
    type V = AreaDefinitionView;

    open spec fn view(&self) -> AreaDefinitionView {
        AreaDefinitionView { id: self.id@, provinces: self.provinces@ }
    }
}

impl View for RegionDefinition {
    type V = RegionDefinitionView;

    open spec fn view(&self) -> RegionDefinitionView {
        RegionDefinitionView { id: self.id@, areas: texts(self.areas@) }
    }
}

impl View for SuperRegionDefinition {
    type V = SuperRegionDefinitionView;

    open spec fn view(&self) -> SuperRegionDefinitionView {
        SuperRegionDefinitionView { id: self.id@, members: texts(self.members@) }
    }
}

/// The models of a list of area definitions, in order.
pub open spec fn view_area_definitions(definitions: Seq<AreaDefinition>) -> Seq<
    AreaDefinitionView,
> {
    definitions.map_values(|d: AreaDefinition| d@)
}

/// The models of a list of region definitions, in order.
pub open spec fn view_region_definitions(definitions: Seq<RegionDefinition>) -> Seq<
    RegionDefinitionView,
> {
    definitions.map_values(|d: RegionDefinition| d@)
}

/// The models of a list of super-region definitions, in order.
pub open spec fn view_super_region_definitions(definitions: Seq<SuperRegionDefinition>) -> Seq<
    SuperRegionDefinitionView,
> {
    definitions.map_values(|d: SuperRegionDefinition| d@)
}

/// The key under which the name of province `id` is stored.
pub open spec fn province_name_key(id: u64) -> Seq<char> {
    "PROV"@ + decimal_text(id as nat)
}

/// The key under which the adjective of province `id` is stored.
pub open spec fn province_adjective_key(id: u64) -> Seq<char> {
    "PROV_ADJ"@ + decimal_text(id as nat)
}

/// The key under which the name of the area or region `id` is stored.
pub open spec fn name_key(id: Seq<char>) -> Seq<char> {
    id + "_name"@
}

/// The member of a super-region's list that marks it as restricting
/// charters, and names no region.
pub open spec fn charter_marker() -> Seq<char> {
    "restrict_charter"@
}

/// The province `id`, with the name, adjective and history that the tables
/// hold for it: empty texts and no history where they hold none.
pub open spec fn province_of(
    id: u64,
    lexicon: Map<Seq<char>, Seq<char>>,
    histories: Map<u64, ProvinceHistory>,
) -> ProvinceView {
    ProvinceView {
        id,
        name: lookup(lexicon, province_name_key(id)),
        adj: lookup(lexicon, province_adjective_key(id)),
        history: if histories.contains_key(id) {
            Some(histories[id]@)
        } else {
            None
        },
    }
}

/// The outcome of claiming provinces: the provinces taken, and every
/// province identifier that has been claimed so far.
pub struct ProvinceClaim {
    pub taken: Seq<ProvinceView>,
    pub claimed: Set<u64>,
}

/// Walks `ids` in order and takes each province that has not been claimed
/// before.
pub open spec fn claim_provinces(
    ids: Seq<u64>,
    claimed: Set<u64>,
    lexicon: Map<Seq<char>, Seq<char>>,
    histories: Map<u64, ProvinceHistory>,
) -> ProvinceClaim
    decreases ids.len(),
{
    if ids.len() == 0 {
        ProvinceClaim { taken: Seq::empty(), claimed }
    } else {
        let before = claim_provinces(ids.drop_last(), claimed, lexicon, histories);
        if before.claimed.contains(ids.last()) {
            before
        } else {
            ProvinceClaim {
                taken: before.taken.push(province_of(ids.last(), lexicon, histories)),
                claimed: before.claimed.insert(ids.last()),
            }
        }
    }
}

/// The identifier of an area, as a function.
pub open spec fn area_id() -> spec_fn(AreaView) -> Seq<char> {
    |a: AreaView| a.id
}

/// The identifier of a region, as a function.
pub open spec fn region_id() -> spec_fn(RegionView) -> Seq<char> {
    |r: RegionView| r.id
}

/// The state after the area definitions: the pool of areas, and the province
/// identifiers claimed so far.
pub struct AreaStage {
    pub pool: Seq<AreaView>,
    pub claimed: Set<u64>,
}

/// Builds the areas in the order of their definitions. Each claims its
/// provinces; an area whose identifier the pool already holds is dropped
/// after it has claimed.
pub open spec fn area_stage(
    definitions: Seq<AreaDefinitionView>,
    lexicon: Map<Seq<char>, Seq<char>>,
    histories: Map<u64, ProvinceHistory>,
) -> AreaStage
    decreases definitions.len(),
{
    if definitions.len() == 0 {
        AreaStage { pool: Seq::empty(), claimed: Set::empty() }
    } else {
        let before = area_stage(definitions.drop_last(), lexicon, histories);
        let definition = definitions.last();
        let provinces = claim_provinces(definition.provinces, before.claimed, lexicon, histories);
        let area = AreaView {
            id: definition.id,
            name: lookup(lexicon, name_key(definition.id)),
            provinces: provinces.taken,
        };
        AreaStage {
            pool: if holds(before.pool, area_id(), definition.id) {
                before.pool
            } else {
                before.pool.push(area)
            },
            claimed: provinces.claimed,
        }
    }
}

/// The state after the region definitions: the areas that no region claimed,
/// the pool of regions, and the references that did not resolve.
pub struct RegionStage {
    pub areas: Seq<AreaView>,
    pub regions: Seq<RegionView>,
    pub unresolved: Seq<Seq<char>>,
}

/// Builds the regions in the order of their definitions. Each claims its
/// areas from the pool; a region without areas, or whose identifier the pool
/// of regions already holds, is dropped after it has claimed.
pub open spec fn region_stage(
    definitions: Seq<RegionDefinitionView>,
    areas: Seq<AreaView>,
    lexicon: Map<Seq<char>, Seq<char>>,
) -> RegionStage
    decreases definitions.len(),
{
    if definitions.len() == 0 {
        RegionStage { areas, regions: Seq::empty(), unresolved: Seq::empty() }
    } else {
        let before = region_stage(definitions.drop_last(), areas, lexicon);
        let definition = definitions.last();
        let claimed = claim(definition.areas, before.areas, area_id());
        let region = RegionView {
            id: definition.id,
            name: lookup(lexicon, name_key(definition.id)),
            areas: claimed.taken,
        };
        RegionStage {
            areas: claimed.pool,
            regions: if claimed.taken.len() > 0 && !holds(
                before.regions,
                region_id(),
                definition.id,
            ) {
                before.regions.push(region)
            } else {
                before.regions
            },
            unresolved: before.unresolved + claimed.unresolved,
        }
    }
}

/// The members of a super-region that name regions: all but the
/// restrict-charter marker, in order.
pub open spec fn region_references(members: Seq<Seq<char>>) -> Seq<Seq<char>>
    decreases members.len(),
{
    if members.len() == 0 {
        Seq::empty()
    } else if members.last() == charter_marker() {
        region_references(members.drop_last())
    } else {
        region_references(members.drop_last()).push(members.last())
    }
}

/// The state after the super-region definitions: the regions that no
/// super-region claimed, the super-regions, and the references that did not
/// resolve.
pub struct SuperRegionStage {
    pub regions: Seq<RegionView>,
    pub super_regions: Seq<SuperRegionView>,
    pub unresolved: Seq<Seq<char>>,
}

/// Builds the super-regions in the order of their definitions. Each claims
/// its regions from the pool; one without regions is dropped after it has
/// claimed.
pub open spec fn super_region_stage(
    definitions: Seq<SuperRegionDefinitionView>,
    regions: Seq<RegionView>,
    lexicon: Map<Seq<char>, Seq<char>>,
) -> SuperRegionStage
    decreases definitions.len(),
{
    if definitions.len() == 0 {
        SuperRegionStage { regions, super_regions: Seq::empty(), unresolved: Seq::empty() }
    } else {
        let before = super_region_stage(definitions.drop_last(), regions, lexicon);
        let definition = definitions.last();
        let claimed = claim(region_references(definition.members), before.regions, region_id());
        let super_region = SuperRegionView {
            id: definition.id,
            name: lookup(lexicon, definition.id),
            regions: claimed.taken,
            restrict_charter: definition.members.contains(charter_marker()),
        };
        SuperRegionStage {
            regions: claimed.pool,
            super_regions: if claimed.taken.len() > 0 {
                before.super_regions.push(super_region)
            } else {
                before.super_regions
            },
            unresolved: before.unresolved + claimed.unresolved,
        }
    }
}

/// The mathematical model of an [`Assembly`].
pub struct AssemblyView {
    pub super_regions: Seq<SuperRegionView>,
    pub unresolved: Seq<Seq<char>>,
}

/// The hierarchy that the three lists of definitions assemble to, and the
/// references of regions and super-regions that did not resolve, in order.
pub open spec fn assembled(
    areas: Seq<AreaDefinitionView>,
    regions: Seq<RegionDefinitionView>,
    super_regions: Seq<SuperRegionDefinitionView>,
    lexicon: Map<Seq<char>, Seq<char>>,
    histories: Map<u64, ProvinceHistory>,
) -> AssemblyView {
    let area_pool = area_stage(areas, lexicon, histories).pool;
    let middle = region_stage(regions, area_pool, lexicon);
    let top = super_region_stage(super_regions, middle.regions, lexicon);
    AssemblyView {
        super_regions: top.super_regions,
        unresolved: middle.unresolved + top.unresolved,
    }
}

fn make_province(id: u64, lexicon: &Lexicon, histories: &HashMap<u64, ProvinceHistory>) -> (province:
    Province)
    requires
        lexicon.wf(),
    ensures
        province@ == province_of(id, lexicon@, histories@),
{
    let digits = decimal_string(id);
    let mut name_key = "PROV".to_owned();
    name_key.append(digits.as_str());
    let mut adjective_key = "PROV_ADJ".to_owned();
    adjective_key.append(digits.as_str());
    let history = match histories.get(&id) {
        Some(h) => Some(h.duplicate()),
        None => None,
    };
    Province {
        id,
        name: lexicon.text(name_key.as_str()),
        adj: lexicon.text(adjective_key.as_str()),
        history,
    }
}

fn take_provinces(
    ids: &Vec<u64>,
    claimed: &mut HashSet<u64>,
    lexicon: &Lexicon,
    histories: &HashMap<u64, ProvinceHistory>,
) -> (taken: Vec<Province>)
    requires
        lexicon.wf(),
    ensures
        view_provinces(taken@) == claim_provinces(
            ids@,
            old(claimed)@,
            lexicon@,
            histories@,
        ).taken,
        final(claimed)@ == claim_provinces(ids@, old(claimed)@, lexicon@, histories@).claimed,
{
    let mut taken: Vec<Province> = Vec::new();
    let mut i: usize = 0;
    assert(view_provinces(taken@) =~= Seq::<ProvinceView>::empty());
    while i < ids.len()
        invariant
            i <= ids.len(),
            lexicon.wf(),
            view_provinces(taken@) == claim_provinces(
                ids@.take(i as int),
                old(claimed)@,
                lexicon@,
                histories@,
            ).taken,
            claimed@ == claim_provinces(
                ids@.take(i as int),
                old(claimed)@,
                lexicon@,
                histories@,
            ).claimed,
        decreases ids.len() - i,
    {
        assert(ids@.take(i + 1).drop_last() =~= ids@.take(i as int));
        let id = ids[i];
        if !claimed.contains(&id) {
            let province = make_province(id, lexicon, histories);
            let ghost before = view_provinces(taken@);
            taken.push(province);
            assert(view_provinces(taken@) =~= before.push(province@));
            claimed.insert(id);
        }
        i += 1;
    }
    assert(ids@.take(i as int) =~= ids@);
    taken
}

/// The place of the first area of `pool` whose identifier is `id`.
fn find_area(pool: &Vec<Area>, id: &str) -> (place: Option<usize>)
    ensures
        place is Some <==> position(view_areas(pool@), area_id(), id@) is Some,
        place matches Some(i) ==> i < pool.len() && position(view_areas(pool@), area_id(), id@)
            == Some(i as int),
{
    let mut i: usize = 0;
    while i < pool.len()
        invariant
            i <= pool.len(),
            forall|j: int| 0 <= j < i ==> pool@[j].id@ != id@,
        decreases pool.len() - i,
    {
        if text_eq(pool[i].id.as_str(), id) {
            proof {
                let units = view_areas(pool@);
                lemma_position(units, area_id(), id@);
                assert((area_id())(units[i as int]) == id@);
                assert forall|j: int| 0 <= j < i implies (area_id())(#[trigger] units[j]) != id@ by {
                    assert(units[j].id == pool@[j].id@);
                }
            }
            return Some(i);
        }
        i += 1;
    }
    proof {
        let units = view_areas(pool@);
        lemma_position(units, area_id(), id@);
        assert forall|j: int| 0 <= j < units.len() implies (area_id())(#[trigger] units[j]) != id@ by {
            assert(units[j].id == pool@[j].id@);
        }
    }
    None
}

/// The place of the first region of `pool` whose identifier is `id`.
fn find_region(pool: &Vec<Region>, id: &str) -> (place: Option<usize>)
    ensures
        place is Some <==> position(view_regions(pool@), region_id(), id@) is Some,
        place matches Some(i) ==> i < pool.len() && position(
            view_regions(pool@),
            region_id(),
            id@,
        ) == Some(i as int),
{
    let mut i: usize = 0;
    while i < pool.len()
        invariant
            i <= pool.len(),
            forall|j: int| 0 <= j < i ==> pool@[j].id@ != id@,
        decreases pool.len() - i,
    {
        if text_eq(pool[i].id.as_str(), id) {
            proof {
                let units = view_regions(pool@);
                lemma_position(units, region_id(), id@);
                assert((region_id())(units[i as int]) == id@);
                assert forall|j: int| 0 <= j < i implies (region_id())(#[trigger] units[j]) != id@ by {
                    assert(units[j].id == pool@[j].id@);
                }
            }
            return Some(i);
        }
        i += 1;
    }
    proof {
        let units = view_regions(pool@);
        lemma_position(units, region_id(), id@);
        assert forall|j: int| 0 <= j < units.len() implies (region_id())(#[trigger] units[j]) != id@ by {
            assert(units[j].id == pool@[j].id@);
        }
    }
    None
}

/// Takes the areas that `references` name out of `pool`, and records the
/// references that find none.
pub fn claim_areas(references: &Vec<String>, pool: &mut Vec<Area>, unresolved: &mut Vec<String>) -> (taken:
    Vec<Area>)
    ensures
        view_areas(taken@) == claim(texts(references@), view_areas(old(pool)@), area_id()).taken,
        view_areas(final(pool)@) == claim(
            texts(references@),
            view_areas(old(pool)@),
            area_id(),
        ).pool,
        texts(final(unresolved)@) == texts(old(unresolved)@) + claim(
            texts(references@),
            view_areas(old(pool)@),
            area_id(),
        ).unresolved,
{
    let mut taken: Vec<Area> = Vec::new();
    let ghost wanted = texts(references@);
    let ghost start = view_areas(pool@);
    let mut i: usize = 0;
    assert(view_areas(taken@) =~= Seq::<AreaView>::empty());
    assert(texts(unresolved@) =~= texts(old(unresolved)@) + Seq::<Seq<char>>::empty());
    while i < references.len()
        invariant
            i <= references.len(),
            wanted == texts(references@),
            view_areas(taken@) == claim(wanted.take(i as int), start, area_id()).taken,
            view_areas(pool@) == claim(wanted.take(i as int), start, area_id()).pool,
            texts(unresolved@) == texts(old(unresolved)@) + claim(
                wanted.take(i as int),
                start,
                area_id(),
            ).unresolved,
        decreases references.len() - i,
    {
        assert(wanted.take(i + 1).drop_last() =~= wanted.take(i as int));
        assert(wanted.take(i + 1).last() == references@[i as int]@);
        let ghost before = claim(wanted.take(i as int), start, area_id());
        match find_area(pool, references[i].as_str()) {
            Some(place) => {
                let ghost units = view_areas(pool@);
                let ghost held = view_areas(taken@);
                let unit = pool.remove(place);
                assert(view_areas(pool@) =~= units.remove(place as int));
                taken.push(unit);
                assert(view_areas(taken@) =~= held.push(units[place as int]));
            },
            None => {
                let ghost listed = texts(unresolved@);
                unresolved.push(references[i].clone());
                assert(texts(unresolved@) =~= listed.push(references@[i as int]@));
                assert(texts(unresolved@) =~= texts(old(unresolved)@) + before.unresolved.push(
                    references@[i as int]@,
                ));
            },
        }
        i += 1;
    }
    assert(wanted.take(i as int) =~= wanted);
    taken
}

/// Takes the regions that `references` name out of `pool`, and records the
/// references that find none.
pub fn claim_regions(references: &Vec<String>, pool: &mut Vec<Region>, unresolved: &mut Vec<String>) -> (taken:
    Vec<Region>)
    ensures
        view_regions(taken@) == claim(texts(references@), view_regions(old(pool)@), region_id()).taken,
        view_regions(final(pool)@) == claim(
            texts(references@),
            view_regions(old(pool)@),
            region_id(),
        ).pool,
        texts(final(unresolved)@) == texts(old(unresolved)@) + claim(
            texts(references@),
            view_regions(old(pool)@),
            region_id(),
        ).unresolved,
{
    let mut taken: Vec<Region> = Vec::new();
    let ghost wanted = texts(references@);
    let ghost start = view_regions(pool@);
    let mut i: usize = 0;
    assert(view_regions(taken@) =~= Seq::<RegionView>::empty());
    assert(texts(unresolved@) =~= texts(old(unresolved)@) + Seq::<Seq<char>>::empty());
    while i < references.len()
        invariant
            i <= references.len(),
            wanted == texts(references@),
            view_regions(taken@) == claim(wanted.take(i as int), start, region_id()).taken,
            view_regions(pool@) == claim(wanted.take(i as int), start, region_id()).pool,
            texts(unresolved@) == texts(old(unresolved)@) + claim(
                wanted.take(i as int),
                start,
                region_id(),
            ).unresolved,
        decreases references.len() - i,
    {
        assert(wanted.take(i + 1).drop_last() =~= wanted.take(i as int));
        assert(wanted.take(i + 1).last() == references@[i as int]@);
        let ghost before = claim(wanted.take(i as int), start, region_id());
        match find_region(pool, references[i].as_str()) {
            Some(place) => {
                let ghost units = view_regions(pool@);
                let ghost held = view_regions(taken@);
                let unit = pool.remove(place);
                assert(view_regions(pool@) =~= units.remove(place as int));
                taken.push(unit);
                assert(view_regions(taken@) =~= held.push(units[place as int]));
            },
            None => {
                let ghost listed = texts(unresolved@);
                unresolved.push(references[i].clone());
                assert(texts(unresolved@) =~= listed.push(references@[i as int]@));
                assert(texts(unresolved@) =~= texts(old(unresolved)@) + before.unresolved.push(
                    references@[i as int]@,
                ));
            },
        }
        i += 1;
    }
    assert(wanted.take(i as int) =~= wanted);
    taken
}

/// Builds the pool of areas from their definitions.
pub fn build_areas(
    definitions: &Vec<AreaDefinition>,
    lexicon: &Lexicon,
    histories: &HashMap<u64, ProvinceHistory>,
) -> (pool: Vec<Area>)
    requires
        lexicon.wf(),
    ensures
        view_areas(pool@) == area_stage(
            view_area_definitions(definitions@),
            lexicon@,
            histories@,
        ).pool,
{
    let mut pool: Vec<Area> = Vec::new();
    let mut claimed: HashSet<u64> = HashSet::new();
    let ghost all = view_area_definitions(definitions@);
    let mut i: usize = 0;
    assert(view_areas(pool@) =~= Seq::<AreaView>::empty());
    while i < definitions.len()
        invariant
            i <= definitions.len(),
            lexicon.wf(),
            all == view_area_definitions(definitions@),
            view_areas(pool@) == area_stage(all.take(i as int), lexicon@, histories@).pool,
            claimed@ == area_stage(all.take(i as int), lexicon@, histories@).claimed,
        decreases definitions.len() - i,
    {
        assert(all.take(i + 1).drop_last() =~= all.take(i as int));
        assert(all.take(i + 1).last() == definitions@[i as int]@);
        let definition = &definitions[i];
        let provinces = take_provinces(&definition.provinces, &mut claimed, lexicon, histories);
        proof {
            lemma_position(view_areas(pool@), area_id(), definition.id@);
        }
        if find_area(&pool, definition.id.as_str()).is_none() {
            let mut key = definition.id.clone();
            key.append("_name");
            let area = Area {
                id: definition.id.clone(),
                name: lexicon.text(key.as_str()),
                provinces,
            };
            let ghost before = view_areas(pool@);
            pool.push(area);
            assert(view_areas(pool@) =~= before.push(area@));
        }
        i += 1;
    }
    assert(all.take(i as int) =~= all);
    pool
}

/// Builds the pool of regions from their definitions, claiming areas from
/// `areas`.
pub fn build_regions(
    definitions: &Vec<RegionDefinition>,
    areas: Vec<Area>,
    lexicon: &Lexicon,
    unresolved: &mut Vec<String>,
) -> (pool: Vec<Region>)
    requires
        lexicon.wf(),
    ensures
        view_regions(pool@) == region_stage(
            view_region_definitions(definitions@),
            view_areas(areas@),
            lexicon@,
        ).regions,
        texts(final(unresolved)@) == texts(old(unresolved)@) + region_stage(
            view_region_definitions(definitions@),
            view_areas(areas@),
            lexicon@,
        ).unresolved,
{
    let mut areas = areas;
    let mut pool: Vec<Region> = Vec::new();
    let ghost all = view_region_definitions(definitions@);
    let ghost start = view_areas(areas@);
    let mut i: usize = 0;
    assert(view_regions(pool@) =~= Seq::<RegionView>::empty());
    assert(texts(unresolved@) =~= texts(old(unresolved)@) + Seq::<Seq<char>>::empty());
    while i < definitions.len()
        invariant
            i <= definitions.len(),
            lexicon.wf(),
            all == view_region_definitions(definitions@),
            view_areas(areas@) == region_stage(all.take(i as int), start, lexicon@).areas,
            view_regions(pool@) == region_stage(all.take(i as int), start, lexicon@).regions,
            texts(unresolved@) == texts(old(unresolved)@) + region_stage(
                all.take(i as int),
                start,
                lexicon@,
            ).unresolved,
        decreases definitions.len() - i,
    {
        assert(all.take(i + 1).drop_last() =~= all.take(i as int));
        assert(all.take(i + 1).last() == definitions@[i as int]@);
        let ghost before = region_stage(all.take(i as int), start, lexicon@);
        let ghost listed = texts(unresolved@);
        let definition = &definitions[i];
        let taken = claim_areas(&definition.areas, &mut areas, unresolved);
        assert(texts(unresolved@) =~= texts(old(unresolved)@) + (before.unresolved + claim(
            definition@.areas,
            before.areas,
            area_id(),
        ).unresolved));
        proof {
            lemma_position(view_regions(pool@), region_id(), definition.id@);
        }
        if taken.len() > 0 && find_region(&pool, definition.id.as_str()).is_none() {
            let mut key = definition.id.clone();
            key.append("_name");
            let region = Region {
                id: definition.id.clone(),
                name: lexicon.text(key.as_str()),
                areas: taken,
            };
            let ghost held = view_regions(pool@);
            pool.push(region);
            assert(view_regions(pool@) =~= held.push(region@));
        }
        i += 1;
    }
    assert(all.take(i as int) =~= all);
    pool
}

/// Splits the members of a super-region into the references to regions and
/// the restrict-charter flag.
fn split_members(members: &Vec<String>) -> (split: (Vec<String>, bool))
    ensures
        texts(split.0@) == region_references(texts(members@)),
        split.1 == texts(members@).contains(charter_marker()),
{
    let mut references: Vec<String> = Vec::new();
    let mut restrict_charter = false;
    let ghost all = texts(members@);
    let mut i: usize = 0;
    assert(texts(references@) =~= Seq::<Seq<char>>::empty());
    while i < members.len()
        invariant
            i <= members.len(),
            all == texts(members@),
            texts(references@) == region_references(all.take(i as int)),
            restrict_charter == all.take(i as int).contains(charter_marker()),
        decreases members.len() - i,
    {
        assert(all.take(i + 1).drop_last() =~= all.take(i as int));
        assert(all.take(i + 1).last() == members@[i as int]@);
        proof {
            let done = all.take(i as int);
            let next = all.take(i + 1);
            if done.contains(charter_marker()) {
                let j = choose|j: int| 0 <= j < done.len() && done[j] == charter_marker();
                assert(next[j] == charter_marker());
            }
            if next.contains(charter_marker()) && next.last() != charter_marker() {
                let j = choose|j: int| 0 <= j < next.len() && next[j] == charter_marker();
                assert(done[j] == charter_marker());
            }
            if next.last() == charter_marker() {
                assert(next[i as int] == charter_marker());
            }
        }
        if text_eq(members[i].as_str(), "restrict_charter") {
            restrict_charter = true;
        } else {
            let ghost before = texts(references@);
            references.push(members[i].clone());
            assert(texts(references@) =~= before.push(members@[i as int]@));
        }
        i += 1;
    }
    assert(all.take(i as int) =~= all);
    (references, restrict_charter)
}

/// Builds the super-regions from their definitions, claiming regions from
/// `regions`.
pub fn build_super_regions(
    definitions: &Vec<SuperRegionDefinition>,
    regions: Vec<Region>,
    lexicon: &Lexicon,
    unresolved: &mut Vec<String>,
) -> (super_regions: Vec<SuperRegion>)
    requires
        lexicon.wf(),
    ensures
        view_super_regions(super_regions@) == super_region_stage(
            view_super_region_definitions(definitions@),
            view_regions(regions@),
            lexicon@,
        ).super_regions,
        texts(final(unresolved)@) == texts(old(unresolved)@) + super_region_stage(
            view_super_region_definitions(definitions@),
            view_regions(regions@),
            lexicon@,
        ).unresolved,
{
    let mut regions = regions;
    let mut super_regions: Vec<SuperRegion> = Vec::new();
    let ghost all = view_super_region_definitions(definitions@);
    let ghost start = view_regions(regions@);
    let mut i: usize = 0;
    assert(view_super_regions(super_regions@) =~= Seq::<SuperRegionView>::empty());
    assert(texts(unresolved@) =~= texts(old(unresolved)@) + Seq::<Seq<char>>::empty());
    while i < definitions.len()
        invariant
            i <= definitions.len(),
            lexicon.wf(),
            all == view_super_region_definitions(definitions@),
            view_regions(regions@) == super_region_stage(
                all.take(i as int),
                start,
                lexicon@,
            ).regions,
            view_super_regions(super_regions@) == super_region_stage(
                all.take(i as int),
                start,
                lexicon@,
            ).super_regions,
            texts(unresolved@) == texts(old(unresolved)@) + super_region_stage(
                all.take(i as int),
                start,
                lexicon@,
            ).unresolved,
        decreases definitions.len() - i,
    {
        assert(all.take(i + 1).drop_last() =~= all.take(i as int));
        assert(all.take(i + 1).last() == definitions@[i as int]@);
        let ghost before = super_region_stage(all.take(i as int), start, lexicon@);
        let definition = &definitions[i];
        let (references, restrict_charter) = split_members(&definition.members);
        let taken = claim_regions(&references, &mut regions, unresolved);
        assert(texts(unresolved@) =~= texts(old(unresolved)@) + (before.unresolved + claim(
            region_references(definition@.members),
            before.regions,
            region_id(),
        ).unresolved));
        if taken.len() > 0 {
            let super_region = SuperRegion {
                id: definition.id.clone(),
                name: lexicon.text(definition.id.as_str()),
                regions: taken,
                restrict_charter,
            };
            let ghost held = view_super_regions(super_regions@);
            super_regions.push(super_region);
            assert(view_super_regions(super_regions@) =~= held.push(super_region@));
        }
        i += 1;
    }
    assert(all.take(i as int) =~= all);
    super_regions
}

/// An assembled hierarchy, and the references of regions and super-regions
/// that did not resolve, in the order in which they were met.
#[derive(Debug)]
pub struct Assembly {
    pub super_regions: Vec<SuperRegion>,
    pub unresolved: Vec<String>,
}

impl View for Assembly {
    type V = AssemblyView;

    open spec fn view(&self) -> AssemblyView {
        AssemblyView {
            super_regions: view_super_regions(self.super_regions@),
            unresolved: texts(self.unresolved@),
        }
    }
}

/// Assembles the hierarchy from the three lists of definitions. A reference
/// that does not resolve is recorded and skipped. In the hierarchy that
/// comes out, membership is exclusive and no group is empty.
pub fn assemble(
    areas: &Vec<AreaDefinition>,
    regions: &Vec<RegionDefinition>,
    super_regions: &Vec<SuperRegionDefinition>,
    lexicon: &Lexicon,
    histories: &HashMap<u64, ProvinceHistory>,
) -> (assembly: Assembly)
    requires
        lexicon.wf(),
    ensures
        assembly@ == assembled(
            view_area_definitions(areas@),
            view_region_definitions(regions@),
            view_super_region_definitions(super_regions@),
            lexicon@,
            histories@,
        ),
        exclusive(assembly@.super_regions),
        populated(assembly@.super_regions),
{
    proof {
        lemma_assembled_exclusive(
            view_area_definitions(areas@),
            view_region_definitions(regions@),
            view_super_region_definitions(super_regions@),
            lexicon@,
            histories@,
        );
        lemma_assembled_populated(
            view_area_definitions(areas@),
            view_region_definitions(regions@),
            view_super_region_definitions(super_regions@),
            lexicon@,
            histories@,
        );
    }
    let mut unresolved: Vec<String> = Vec::new();
    assert(texts(unresolved@) =~= Seq::<Seq<char>>::empty());
    let area_pool = build_areas(areas, lexicon, histories);
    let ghost middle = region_stage(
        view_region_definitions(regions@),
        view_areas(area_pool@),
        lexicon@,
    );
    let region_pool = build_regions(regions, area_pool, lexicon, &mut unresolved);
    assert(texts(unresolved@) =~= middle.unresolved);
    let built = build_super_regions(super_regions, region_pool, lexicon, &mut unresolved);
    Assembly { super_regions: built, unresolved }
}

/// The area that one top-level field of the area file defines: the key is
/// its identifier, and the numbers among the bare values are its provinces.
pub open spec fn area_definition_of(entry: Entry) -> AreaDefinitionView {
    AreaDefinitionView {
        id: entry.key,
        provinces: match entry.value.array() {
            Some(values) => numbers_in(values),
            None => Seq::empty(),
        },
    }
}

/// The areas that the area file defines, in file order.
pub open spec fn area_definitions_of(document: Seq<Entry>) -> Seq<AreaDefinitionView> {
    document.map_values(|e: Entry| area_definition_of(e))
}

/// The region that one top-level field of the region file defines: the key
/// is its identifier, and the texts among the bare values of its `areas`
/// fields are its areas.
pub open spec fn region_definition_of(entry: Entry) -> RegionDefinitionView {
    RegionDefinitionView {
        id: entry.key,
        areas: match entry.value.object() {
            Some(fields) => listed_texts(fields, "areas"@),
            None => Seq::empty(),
        },
    }
}

/// The regions that the region file defines, in file order.
pub open spec fn region_definitions_of(document: Seq<Entry>) -> Seq<RegionDefinitionView> {
    document.map_values(|e: Entry| region_definition_of(e))
}

/// The super-region that one top-level field of the super-region file
/// defines: the key is its identifier, and the texts among the bare values
/// are its members.
pub open spec fn super_region_definition_of(entry: Entry) -> SuperRegionDefinitionView {
    SuperRegionDefinitionView {
        id: entry.key,
        members: match entry.value.array() {
            Some(values) => texts_in(values),
            None => Seq::empty(),
        },
    }
}

/// The super-regions that the super-region file defines, in file order.
pub open spec fn super_region_definitions_of(document: Seq<Entry>) -> Seq<
    SuperRegionDefinitionView,
> {
    document.map_values(|e: Entry| super_region_definition_of(e))
}

/// Reads the area definitions of the area file.
pub fn area_definitions(document: &Document) -> (definitions: Vec<AreaDefinition>)
    ensures
        view_area_definitions(definitions@) == area_definitions_of(document@),
{
    let mut definitions: Vec<AreaDefinition> = Vec::new();
    let mut i: usize = 0;
    while i < document.fields.len()
        invariant
            i <= document.fields.len(),
            definitions@.len() == i,
            forall|j: int|
                0 <= j < i ==> (#[trigger] definitions@[j])@ == area_definition_of(document@[j]),
        decreases document.fields.len() - i,
    {
        let field = &document.fields[i];
        let provinces = match field.value.as_array() {
            Some(values) => read_numbers(values),
            None => Vec::new(),
        };
        definitions.push(AreaDefinition { id: field.key.clone(), provinces });
        i += 1;
    }
    assert(view_area_definitions(definitions@) =~= area_definitions_of(document@));
    definitions
}

/// Reads the region definitions of the region file.
pub fn region_definitions(document: &Document) -> (definitions: Vec<RegionDefinition>)
    ensures
        view_region_definitions(definitions@) == region_definitions_of(document@),
{
    let mut definitions: Vec<RegionDefinition> = Vec::new();
    let mut i: usize = 0;
    while i < document.fields.len()
        invariant
            i <= document.fields.len(),
            definitions@.len() == i,
            forall|j: int|
                0 <= j < i ==> (#[trigger] definitions@[j])@ == region_definition_of(
                    document@[j],
                ),
        decreases document.fields.len() - i,
    {
        let field = &document.fields[i];
        let areas = match field.value.as_object() {
            Some(fields) => read_listed_texts(fields, "areas"),
            None => {
                let none: Vec<String> = Vec::new();
                assert(texts(none@) =~= Seq::<Seq<char>>::empty());
                none
            },
        };
        definitions.push(RegionDefinition { id: field.key.clone(), areas });
        i += 1;
    }
    assert(view_region_definitions(definitions@) =~= region_definitions_of(document@));
    definitions
}

/// Reads the super-region definitions of the super-region file.
pub fn super_region_definitions(document: &Document) -> (definitions: Vec<SuperRegionDefinition>)
    ensures
        view_super_region_definitions(definitions@) == super_region_definitions_of(document@),
{
    let mut definitions: Vec<SuperRegionDefinition> = Vec::new();
    let mut i: usize = 0;
    while i < document.fields.len()
        invariant
            i <= document.fields.len(),
            definitions@.len() == i,
            forall|j: int|
                0 <= j < i ==> (#[trigger] definitions@[j])@ == super_region_definition_of(
                    document@[j],
                ),
        decreases document.fields.len() - i,
    {
        let field = &document.fields[i];
        let members = match field.value.as_array() {
            Some(values) => read_texts(values),
            None => {
                let none: Vec<String> = Vec::new();
                assert(texts(none@) =~= Seq::<Seq<char>>::empty());
                none
            },
        };
        definitions.push(SuperRegionDefinition { id: field.key.clone(), members });
        i += 1;
    }
    assert(view_super_region_definitions(definitions@) =~= super_region_definitions_of(
        document@,
    ));
    definitions
}

/// The hierarchy that the three map files assemble to.
pub open spec fn map_of(
    areas: Seq<Entry>,
    regions: Seq<Entry>,
    super_regions: Seq<Entry>,
    lexicon: Map<Seq<char>, Seq<char>>,
    histories: Map<u64, ProvinceHistory>,
) -> AssemblyView {
    assembled(
        area_definitions_of(areas),
        region_definitions_of(regions),
        super_region_definitions_of(super_regions),
        lexicon,
        histories,
    )
}

/// Assembles the hierarchy of super-regions, regions, areas and provinces
/// from the three map files. A reference that does not resolve is skipped.
pub fn parse_map(
    areas: &Document,
    regions: &Document,
    super_regions: &Document,
    lexicon: &Lexicon,
    histories: &HashMap<u64, ProvinceHistory>,
) -> (hierarchy: Vec<SuperRegion>)
    requires
        lexicon.wf(),
    ensures
        view_super_regions(hierarchy@) == map_of(
            areas@,
            regions@,
            super_regions@,
            lexicon@,
            histories@,
        ).super_regions,
        exclusive(view_super_regions(hierarchy@)),
        populated(view_super_regions(hierarchy@)),
{
    let area_list = area_definitions(areas);
    let region_list = region_definitions(regions);
    let super_region_list = super_region_definitions(super_regions);
    assemble(&area_list, &region_list, &super_region_list, lexicon, histories).super_regions
}

/// A reference of a region or a super-region that names nothing in the pool.
#[derive(Debug, PartialEq, Eq)]
pub struct UnresolvedReference {
    pub id: String,
}

/// Assembles the hierarchy as [`parse_map`] does, and fails with the first
/// reference that does not resolve, where there is one.
pub fn parse_map_strict(
    areas: &Document,
    regions: &Document,
    super_regions: &Document,
    lexicon: &Lexicon,
    histories: &HashMap<u64, ProvinceHistory>,
) -> (outcome: Result<Vec<SuperRegion>, UnresolvedReference>)
    requires
        lexicon.wf(),
    ensures
        outcome is Ok <==> map_of(
            areas@,
            regions@,
            super_regions@,
            lexicon@,
            histories@,
        ).unresolved.len() == 0,
        outcome matches Ok(hierarchy) ==> view_super_regions(hierarchy@) == map_of(
            areas@,
            regions@,
            super_regions@,
            lexicon@,
            histories@,
        ).super_regions && exclusive(view_super_regions(hierarchy@)) && populated(
            view_super_regions(hierarchy@),
        ),
        outcome matches Err(e) ==> e.id@ == map_of(
            areas@,
            regions@,
            super_regions@,
            lexicon@,
            histories@,
        ).unresolved[0],
{
    let area_list = area_definitions(areas);
    let region_list = region_definitions(regions);
    let super_region_list = super_region_definitions(super_regions);
    let assembly = assemble(&area_list, &region_list, &super_region_list, lexicon, histories);
    if assembly.unresolved.len() == 0 {
        Ok(assembly.super_regions)
    } else {
        Err(UnresolvedReference { id: assembly.unresolved[0].clone() })
    }
}

/// The history that a province history file holds. The owner and the trade
/// goods are those of the last field of their name; every other field counts
/// the first time it occurs. A field that is missing or of the wrong shape
/// leaves nothing.
pub open spec fn province_history_of(document: Seq<Entry>) -> ProvinceHistoryView {
    ProvinceHistoryView {
        owner: last_text(document, "owner"@),
        controller: first_text(document, "controller"@),
        culture: first_text(document, "culture"@),
        religion: first_text(document, "religion"@),
        base_tax: first_number(document, "base_tax"@),
        base_production: first_number(document, "base_production"@),
        base_manpower: first_number(document, "base_manpower"@),
        trade_goods: last_text(document, "trade_goods"@),
        is_city: first_flag(document, "is_city"@),
    }
}

/// Reads the history of a province from its history file.
pub fn province_history(document: &Document) -> (history: ProvinceHistory)
    ensures
        history@ == province_history_of(document@),
{
    let fields = &document.fields;
    ProvinceHistory {
        owner: read_last_text(fields, "owner"),
        controller: read_first_text(fields, "controller"),
        culture: read_first_text(fields, "culture"),
        religion: read_first_text(fields, "religion"),
        base_tax: read_first_number(fields, "base_tax"),
        base_production: read_first_number(fields, "base_production"),
        base_manpower: read_first_number(fields, "base_manpower"),
        trade_goods: read_last_text(fields, "trade_goods"),
        is_city: read_first_flag(fields, "is_city"),
    }
}

/// The province that a history file belongs to, by the stem of its name:
/// the number that the stem denotes, or, where the stem holds a `-`, the
/// number in front of it.
pub open spec fn province_id_of(stem: Seq<char>) -> Option<u64> {
    if stem.contains('-') {
        unsigned_of(trim(before_first(stem, '-')))
    } else {
        unsigned_of(stem)
    }
}

/// Reads the identifier of a province from the stem of the name of its
/// history file.
pub fn province_id(stem: &str) -> (id: Option<u64>)
    ensures
        id == province_id_of(stem@),
{
    let chars = chars_of(stem);
    assert(chars@.subrange(0, chars@.len() as int) =~= chars@);
    proof {
        chars@.index_of_first_ensures('-');
    }
    match find_first(&chars, 0, chars.len(), '-') {
        Some(dash) => {
            assert(chars@.subrange(0, dash as int) =~= chars@.take(dash as int));
            let start = trim_start_at(&chars, 0, dash);
            let end = trim_end_at(&chars, start, dash);
            parse_unsigned(&chars, start, end)
        },
        None => parse_unsigned(&chars, 0, chars.len()),
    }
}

/// The histories that a list of history files gives, each file a name stem
/// and its content: a file whose stem names no province or whose content
/// does not parse is passed over, and a later file stands in the place of
/// an earlier one for the same province.
pub open spec fn province_histories_of(files: Seq<(Seq<char>, Seq<u8>)>) -> Map<
    u64,
    ProvinceHistoryView,
>
    decreases files.len(),
{
    if files.len() == 0 {
        Map::empty()
    } else {
        match (province_id_of(files.last().0), parsed_document(files.last().1)) {
            (Some(id), Some(document)) => province_histories_of(files.drop_last()).insert(
                id,
                province_history_of(document),
            ),
            _ => province_histories_of(files.drop_last()),
        }
    }
}

/// Reads the province histories from their files, each given by the stem of
/// its name and its content.
pub fn parse_province_histories(files: &Vec<(String, Vec<u8>)>) -> (histories: HashMap<
    u64,
    ProvinceHistory,
>)
    ensures
        forall|id: u64|
            histories@.contains_key(id) <==> province_histories_of(
                view_files(files@),
            ).contains_key(id),
        forall|id: u64| #[trigger]
            histories@.contains_key(id) ==> histories@[id]@ == province_histories_of(
                view_files(files@),
            )[id],
{
    let ghost all = view_files(files@);
    let mut histories: HashMap<u64, ProvinceHistory> = HashMap::new();
    let mut i: usize = 0;
    while i < files.len()
        invariant
            i <= files.len(),
            all == view_files(files@),
            forall|id: u64|
                histories@.contains_key(id) <==> province_histories_of(
                    all.take(i as int),
                ).contains_key(id),
            forall|id: u64| #[trigger]
                histories@.contains_key(id) ==> histories@[id]@ == province_histories_of(
                    all.take(i as int),
                )[id],
        decreases files.len() - i,
    {
        assert(all.take(i + 1).drop_last() =~= all.take(i as int));
        assert(all.take(i + 1).last() == (files@[i as int].0@, files@[i as int].1@));
        match province_id(files[i].0.as_str()) {
            Some(id) => match parse_document(files[i].1.as_slice()) {
                Some(document) => {
                    histories.insert(id, province_history(&document));
                },
                None => {},
            },
            None => {},
        }
        i += 1;
    }
    assert(all.take(i as int) =~= all);
    histories
}

} // verus!
