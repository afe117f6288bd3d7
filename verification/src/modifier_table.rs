//! The modifier semantics table: for each raw internal field name, the
//! human-facing name, the numeric format, the sign convention and the
//! display multiplier.
//!
//! The table is written twice: once as the mathematical model that the
//! contracts speak of, and once as the executable search. The search is
//! proved to find exactly what the model holds. Both are split into parts of
//! a few dozen rows, in alphabetical order.
use vstd::prelude::*;
use crate::modifiers::{Modifier, ModifierFormat, ModifierNormal};
use crate::text::text_eq;

verus! {
/// Part 1 of the table: `accept_vassalization_reasons` to `build_time`.
pub open spec fn descriptor_1(key: Seq<char>) -> Option<Modifier> {
    if key == "accept_vassalization_reasons"@ {
        Some(Modifier { id: "accept_vassalization_reasons", name: "Vassalization Acceptance", format: ModifierFormat::Flat, normal: ModifierNormal::Positive, multiplier: 1 })
    }     else if key == "acolytes_influence_modifier"@ {
        Some(Modifier { id: "acolytes_influence_modifier", name: "Acolytes Influence", format: ModifierFormat::Percent, normal: ModifierNormal::Positive, multiplier: 100 })
    }     else if key == "adeen_loyalty_modifier"@ {
        Some(Modifier { id: "adeen_loyalty_modifier", name: "Adeen Loyalty Equilibrium", format: ModifierFormat::Percent, normal: ModifierNormal::Positive, multiplier: 100 })
    }     else if key == "adm_advisor_cost"@ {
        Some(Modifier { id: "adm_advisor_cost", name: "Administrative Advisor Cost", format: ModifierFormat::Percent, normal: ModifierNormal::Negative, multiplier: 100 })
    }     else if key == "adm_tech_cost_modifier"@ {
        Some(Modifier { id: "adm_tech_cost_modifier", name: "Administrative Technology Cost", format: ModifierFormat::Percent, normal: ModifierNormal::Negative, multiplier: 100 })
    }     else if key == "administrative_efficiency"@ {
        Some(Modifier { id: "administrative_efficiency", name: "Administrative Efficiency", format: ModifierFormat::Percent, normal: ModifierNormal::Positive, multiplier: 100 })
    }     else if key == "admiral_cost"@ {
        Some(Modifier { id: "admiral_cost", name: "Admiral Cost", format: ModifierFormat::Percent, normal: ModifierNormal::Negative, multiplier: 100 })
    }     else if key == "adventurers_loyalty_modifier"@ {
        Some(Modifier { id: "adventurers_loyalty_modifier", name: "Adventurers Loyalty Equilibrium", format: ModifierFormat::Percent, normal: ModifierNormal::Positive, multiplier: 100 })
    }     else if key == "advisor_cost"@ {
        Some(Modifier { id: "advisor_cost", name: "Advisor Cost", format: ModifierFormat::Percent, normal: ModifierNormal::Negative, multiplier: 100 })
    }     else if key == "advisor_pool"@ {
        Some(Modifier { id: "advisor_pool", name: "Possible Advisors", format: ModifierFormat::Flat, normal: ModifierNormal::Positive, multiplier: 1 })
    }     else if key == "ae_impact"@ {
        Some(Modifier { id: "ae_impact", name: "Aggressive Expansion Impact", format: ModifierFormat::Percent, normal: ModifierNormal::Negative, multiplier: 100 })
    }     else if key == "ahati_loyalty_modifier"@ {
        Some(Modifier { id: "ahati_loyalty_modifier", name: "Ahati Loyalty Equilibrium", format: ModifierFormat::Percent, normal: ModifierNormal::Positive, multiplier: 100 })
    }     else if key == "all_estate_loyalty_equilibrium"@ {
        Some(Modifier { id: "all_estate_loyalty_equilibrium", name: "All Estates' Loyalty Equilibrium", format: ModifierFormat::Percent, normal: ModifierNormal::Positive, multiplier: 100 })
    }     else if key == "all_power_cost"@ {
        Some(Modifier { id: "all_power_cost", name: "All Power Costs", format: ModifierFormat::Percent, normal: ModifierNormal::Negative, multiplier: 100 })
    }     else if key == "allowed_marine_fraction"@ {
        Some(Modifier { id: "allowed_marine_fraction", name: "Marines Force Limit", format: ModifierFormat::Percent, normal: ModifierNormal::Positive, multiplier: 100 })
    }     else if key == "allowed_rajput_fraction"@ {
        Some(Modifier { id: "allowed_rajput_fraction", name: "Allowed Rajput Fraction", format: ModifierFormat::Percent, normal: ModifierNormal::Positive, multiplier: 100 })
    }     else if key == "army_tradition"@ {
        Some(Modifier { id: "army_tradition", name: "Yearly Army Tradition", format: ModifierFormat::Flat, normal: ModifierNormal::Positive, multiplier: 1 })
    }     else if key == "army_tradition_decay"@ {
        Some(Modifier { id: "army_tradition_decay", name: "Yearly Army Tradition Decay", format: ModifierFormat::Percent, normal: ModifierNormal::Negative, multiplier: 100 })
    }     else if key == "army_tradition_from_battle"@ {
        Some(Modifier { id: "army_tradition_from_battle", name: "Army Tradition From Battles", format: ModifierFormat::Percent, normal: ModifierNormal::Positive, multiplier: 100 })
    }     else if key == "artificers_loyalty_modifier"@ {
        Some(Modifier { id: "artificers_loyalty_modifier", name: "Artificers Loyalty Equilibrium", format: ModifierFormat::Percent, normal: ModifierNormal::Positive, multiplier: 100 })
    }     else if key == "artillery_barrage_cost"@ {
        Some(Modifier { id: "artillery_barrage_cost", name: "Artillery Barrage Cost", format: ModifierFormat::Percent, normal: ModifierNormal::Negative, multiplier: 100 })
    }     else if key == "artillery_cost"@ {
        Some(Modifier { id: "artillery_cost", name: "Artillery Cost", format: ModifierFormat::Percent, normal: ModifierNormal::Negative, multiplier: 100 })
    }     else if key == "artillery_fire"@ {
        Some(Modifier { id: "artillery_fire", name: "Artillery Fire", format: ModifierFormat::Flat, normal: ModifierNormal::Positive, multiplier: 1 })
    }     else if key == "artillery_power"@ {
        Some(Modifier { id: "artillery_power", name: "Artillery Combat Ability", format: ModifierFormat::Percent, normal: ModifierNormal::Positive, multiplier: 100 })
    }     else if key == "artillery_shock"@ {
        Some(Modifier { id: "artillery_shock", name: "Artillery Shock", format: ModifierFormat::Flat, normal: ModifierNormal::Positive, multiplier: 1 })
    }     else if key == "assault_fort_ability"@ {
        Some(Modifier { id: "assault_fort_ability", name: "Assault Fort ability", format: ModifierFormat::Percent, normal: ModifierNormal::Positive, multiplier: 100 })
    }     else if key == "autonomy_change_time"@ {
        Some(Modifier { id: "autonomy_change_time", name: "Autonomy Change Cooldown", format: ModifierFormat::Percent, normal: ModifierNormal::Negative, multiplier: 100 })
    }     else if key == "available_province_loot"@ {
        Some(Modifier { id: "available_province_loot", name: "Available Loot", format: ModifierFormat::Percent, normal: ModifierNormal::Positive, multiplier: 100 })
    }     else if key == "backrow_artillery_damage"@ {
        Some(Modifier { id: "backrow_artillery_damage", name: "Artillery Damage from Back Row", format: ModifierFormat::Percent, normal: ModifierNormal::Positive, multiplier: 100 })
    }     else if key == "blockade_efficiency"@ {
        Some(Modifier { id: "blockade_efficiency", name: "Blockade Efficiency", format: ModifierFormat::Percent, normal: ModifierNormal::Positive, multiplier: 100 })
    }     else if key == "build_cost"@ {
        Some(Modifier { id: "build_cost", name: "Construction Cost", format: ModifierFormat::Percent, normal: ModifierNormal::Negative, multiplier: 100 })
    }     else if key == "build_time"@ {
        Some(Modifier { id: "build_time", name: "Construction Time", format: ModifierFormat::Percent, normal: ModifierNormal::Negative, multiplier: 100 })
    } else {
        None
    }
}

fn find_1(key: &str) -> (found: Option<Modifier>)
    ensures
        found == descriptor_1(key@),
{
    if text_eq(key, "accept_vassalization_reasons") {
        Some(Modifier { id: "accept_vassalization_reasons", name: "Vassalization Acceptance", format: ModifierFormat::Flat, normal: ModifierNormal::Positive, multiplier: 1 })
    }     else if text_eq(key, "acolytes_influence_modifier") {
        Some(Modifier { id: "acolytes_influence_modifier", name: "Acolytes Influence", format: ModifierFormat::Percent, normal: ModifierNormal::Positive, multiplier: 100 })
    }     else if text_eq(key, "adeen_loyalty_modifier") {
        Some(Modifier { id: "adeen_loyalty_modifier", name: "Adeen Loyalty Equilibrium", format: ModifierFormat::Percent, normal: ModifierNormal::Positive, multiplier: 100 })
    }     else if text_eq(key, "adm_advisor_cost") {
        Some(Modifier { id: "adm_advisor_cost", name: "Administrative Advisor Cost", format: ModifierFormat::Percent, normal: ModifierNormal::Negative, multiplier: 100 })
    }     else if text_eq(key, "adm_tech_cost_modifier") {
        Some(Modifier { id: "adm_tech_cost_modifier", name: "Administrative Technology Cost", format: ModifierFormat::Percent, normal: ModifierNormal::Negative, multiplier: 100 })
    }     else if text_eq(key, "administrative_efficiency") {
        Some(Modifier { id: "administrative_efficiency", name: "Administrative Efficiency", format: ModifierFormat::Percent, normal: ModifierNormal::Positive, multiplier: 100 })
    }     else if text_eq(key, "admiral_cost") {
        Some(Modifier { id: "admiral_cost", name: "Admiral Cost", format: ModifierFormat::Percent, normal: ModifierNormal::Negative, multiplier: 100 })
    }     else if text_eq(key, "adventurers_loyalty_modifier") {
        Some(Modifier { id: "adventurers_loyalty_modifier", name: "Adventurers Loyalty Equilibrium", format: ModifierFormat::Percent, normal: ModifierNormal::Positive, multiplier: 100 })
    }     else if text_eq(key, "advisor_cost") {
        Some(Modifier { id: "advisor_cost", name: "Advisor Cost", format: ModifierFormat::Percent, normal: ModifierNormal::Negative, multiplier: 100 })
    }     else if text_eq(key, "advisor_pool") {
        Some(Modifier { id: "advisor_pool", name: "Possible Advisors", format: ModifierFormat::Flat, normal: ModifierNormal::Positive, multiplier: 1 })
    }     else if text_eq(key, "ae_impact") {
        Some(Modifier { id: "ae_impact", name: "Aggressive Expansion Impact", format: ModifierFormat::Percent, normal: ModifierNormal::Negative, multiplier: 100 })
    }     else if text_eq(key, "ahati_loyalty_modifier") {
        Some(Modifier { id: "ahati_loyalty_modifier", name: "Ahati Loyalty Equilibrium", format: ModifierFormat::Percent, normal: ModifierNormal::Positive, multiplier: 100 })
    }     else if text_eq(key, "all_estate_loyalty_equilibrium") {
        Some(Modifier { id: "all_estate_loyalty_equilibrium", name: "All Estates' Loyalty Equilibrium", format: ModifierFormat::Percent, normal: ModifierNormal::Positive, multiplier: 100 })
    }     else if text_eq(key, "all_power_cost") {
        Some(Modifier { id: "all_power_cost", name: "All Power Costs", format: ModifierFormat::Percent, normal: ModifierNormal::Negative, multiplier: 100 })
    }     else if text_eq(key, "allowed_marine_fraction") {
        Some(Modifier { id: "allowed_marine_fraction", name: "Marines Force Limit", format: ModifierFormat::Percent, normal: ModifierNormal::Positive, multiplier: 100 })
    }     else if text_eq(key, "allowed_rajput_fraction") {
        Some(Modifier { id: "allowed_rajput_fraction", name: "Allowed Rajput Fraction", format: ModifierFormat::Percent, normal: ModifierNormal::Positive, multiplier: 100 })
    }     else if text_eq(key, "army_tradition") {
        Some(Modifier { id: "army_tradition", name: "Yearly Army Tradition", format: ModifierFormat::Flat, normal: ModifierNormal::Positive, multiplier: 1 })
    }     else if text_eq(key, "army_tradition_decay") {
        Some(Modifier { id: "army_tradition_decay", name: "Yearly Army Tradition Decay", format: ModifierFormat::Percent, normal: ModifierNormal::Negative, multiplier: 100 })
    }     else if text_eq(key, "army_tradition_from_battle") {
        Some(Modifier { id: "army_tradition_from_battle", name: "Army Tradition From Battles", format: ModifierFormat::Percent, normal: ModifierNormal::Positive, multiplier: 100 })
    }     else if text_eq(key, "artificers_loyalty_modifier") {
        Some(Modifier { id: "artificers_loyalty_modifier", name: "Artificers Loyalty Equilibrium", format: ModifierFormat::Percent, normal: ModifierNormal::Positive, multiplier: 100 })
    }     else if text_eq(key, "artillery_barrage_cost") {
        Some(Modifier { id: "artillery_barrage_cost", name: "Artillery Barrage Cost", format: ModifierFormat::Percent, normal: ModifierNormal::Negative, multiplier: 100 })
    }     else if text_eq(key, "artillery_cost") {
        Some(Modifier { id: "artillery_cost", name: "Artillery Cost", format: ModifierFormat::Percent, normal: ModifierNormal::Negative, multiplier: 100 })
    }     else if text_eq(key, "artillery_fire") {
        Some(Modifier { id: "artillery_fire", name: "Artillery Fire", format: ModifierFormat::Flat, normal: ModifierNormal::Positive, multiplier: 1 })
    }     else if text_eq(key, "artillery_power") {
        Some(Modifier { id: "artillery_power", name: "Artillery Combat Ability", format: ModifierFormat::Percent, normal: ModifierNormal::Positive, multiplier: 100 })
    }     else if text_eq(key, "artillery_shock") {
        Some(Modifier { id: "artillery_shock", name: "Artillery Shock", format: ModifierFormat::Flat, normal: ModifierNormal::Positive, multiplier: 1 })
    }     else if text_eq(key, "assault_fort_ability") {
        Some(Modifier { id: "assault_fort_ability", name: "Assault Fort ability", format: ModifierFormat::Percent, normal: ModifierNormal::Positive, multiplier: 100 })
    }     else if text_eq(key, "autonomy_change_time") {
        Some(Modifier { id: "autonomy_change_time", name: "Autonomy Change Cooldown", format: ModifierFormat::Percent, normal: ModifierNormal::Negative, multiplier: 100 })
    }     else if text_eq(key, "available_province_loot") {
        Some(Modifier { id: "available_province_loot", name: "Available Loot", format: ModifierFormat::Percent, normal: ModifierNormal::Positive, multiplier: 100 })
    }     else if text_eq(key, "backrow_artillery_damage") {
        Some(Modifier { id: "backrow_artillery_damage", name: "Artillery Damage from Back Row", format: ModifierFormat::Percent, normal: ModifierNormal::Positive, multiplier: 100 })
    }     else if text_eq(key, "blockade_efficiency") {
        Some(Modifier { id: "blockade_efficiency", name: "Blockade Efficiency", format: ModifierFormat::Percent, normal: ModifierNormal::Positive, multiplier: 100 })
    }     else if text_eq(key, "build_cost") {
        Some(Modifier { id: "build_cost", name: "Construction Cost", format: ModifierFormat::Percent, normal: ModifierNormal::Negative, multiplier: 100 })
    }     else if text_eq(key, "build_time") {
        Some(Modifier { id: "build_time", name: "Construction Time", format: ModifierFormat::Percent, normal: ModifierNormal::Negative, multiplier: 100 })
    } else {
        None
    }
}

proof fn lemma_descriptor_1(key: Seq<char>)
    ensures
        descriptor_1(key) matches Some(m) ==> m.id@ == key,
{
}

/// Part 2 of the table: `burghers_loyalty_modifier` to `diplomats`.
pub open spec fn descriptor_2(key: Seq<char>) -> Option<Modifier> {
    if key == "burghers_loyalty_modifier"@ {
        Some(Modifier { id: "burghers_loyalty_modifier", name: "Burghers Loyalty Equilibrium", format: ModifierFormat::Percent, normal: ModifierNormal::Positive, multiplier: 100 })
    }     else if key == "can_fabricate_for_vassals"@ {
        Some(Modifier { id: "can_fabricate_for_vassals", name: "May Fabricate Claims for Subjects", format: ModifierFormat::NoValue, normal: ModifierNormal::Positive, multiplier: 1 })
    }     else if key == "candidate_random_bonus"@ {
        Some(Modifier { id: "candidate_random_bonus", name: "Random Candidate Bonus", format: ModifierFormat::Flat, normal: ModifierNormal::Positive, multiplier: 1 })
    }     else if key == "capture_ship_chance"@ {
        Some(Modifier { id: "capture_ship_chance", name: "Chance to Capture Enemy Ships", format: ModifierFormat::Percent, normal: ModifierNormal::Positive, multiplier: 100 })
    }     else if key == "caravan_power"@ {
        Some(Modifier { id: "caravan_power", name: "Caravan Power", format: ModifierFormat::Percent, normal: ModifierNormal::Positive, multiplier: 100 })
    }     else if key == "cav_to_inf_ratio"@ {
        Some(Modifier { id: "cav_to_inf_ratio", name: "Cavalry to Infantry Ratio", format: ModifierFormat::Percent, normal: ModifierNormal::Positive, multiplier: 100 })
    }     else if key == "cavalry_cost"@ {
        Some(Modifier { id: "cavalry_cost", name: "Cavalry Cost", format: ModifierFormat::Percent, normal: ModifierNormal::Negative, multiplier: 100 })
    }     else if key == "cavalry_fire"@ {
        Some(Modifier { id: "cavalry_fire", name: "Cavalry Fire", format: ModifierFormat::Flat, normal: ModifierNormal::Positive, multiplier: 1 })
    }     else if key == "cavalry_flanking"@ {
        Some(Modifier { id: "cavalry_flanking", name: "Cavalry Flanking Ability", format: ModifierFormat::Percent, normal: ModifierNormal::Positive, multiplier: 100 })
    }     else if key == "cavalry_power"@ {
        Some(Modifier { id: "cavalry_power", name: "Cavalry Combat Ability", format: ModifierFormat::Percent, normal: ModifierNormal::Positive, multiplier: 100 })
    }     else if key == "cavalry_shock"@ {
        Some(Modifier { id: "cavalry_shock", name: "Cavalry Shock", format: ModifierFormat::Flat, normal: ModifierNormal::Positive, multiplier: 1 })
    }     else if key == "center_of_trade_upgrade_cost"@ {
        Some(Modifier { id: "center_of_trade_upgrade_cost", name: "Center of Trade Upgrade Cost", format: ModifierFormat::Percent, normal: ModifierNormal::Negative, multiplier: 100 })
    }     else if key == "church_loyalty_modifier"@ {
        Some(Modifier { id: "church_loyalty_modifier", name: "Clergy Loyalty Equilibrium", format: ModifierFormat::Percent, normal: ModifierNormal::Positive, multiplier: 100 })
    }     else if key == "church_power_modifier"@ {
        Some(Modifier { id: "church_power_modifier", name: "Religious Power", format: ModifierFormat::Percent, normal: ModifierNormal::Positive, multiplier: 100 })
    }     else if key == "claim_duration"@ {
        Some(Modifier { id: "claim_duration", name: "Claim Duration", format: ModifierFormat::Percent, normal: ModifierNormal::Positive, multiplier: 100 })
    }     else if key == "coast_raid_range"@ {
        Some(Modifier { id: "coast_raid_range", name: "Coastal Raiding Range", format: ModifierFormat::Flat, normal: ModifierNormal::Positive, multiplier: 1 })
    }     else if key == "colonist_placement_chance"@ {
        Some(Modifier { id: "colonist_placement_chance", name: "Settler Chance", format: ModifierFormat::Percent, normal: ModifierNormal::Positive, multiplier: 100 })
    }     else if key == "colonists"@ {
        Some(Modifier { id: "colonists", name: "Colonists", format: ModifierFormat::Flat, normal: ModifierNormal::Positive, multiplier: 1 })
    }     else if key == "core_creation"@ {
        Some(Modifier { id: "core_creation", name: "Core-Creation Cost", format: ModifierFormat::Percent, normal: ModifierNormal::Negative, multiplier: 100 })
    }     else if key == "core_decay_on_your_own"@ {
        Some(Modifier { id: "core_decay_on_your_own", name: "Foreign Core Duration", format: ModifierFormat::Percent, normal: ModifierNormal::Negative, multiplier: 100 })
    }     else if key == "culture_conversion_cost"@ {
        Some(Modifier { id: "culture_conversion_cost", name: "Culture Conversion Cost", format: ModifierFormat::Percent, normal: ModifierNormal::Negative, multiplier: 100 })
    }     else if key == "culture_conversion_time"@ {
        Some(Modifier { id: "culture_conversion_time", name: "Culture Conversion Time", format: ModifierFormat::Percent, normal: ModifierNormal::Negative, multiplier: 100 })
    }     else if key == "defensiveness"@ {
        Some(Modifier { id: "defensiveness", name: "Fort Defence", format: ModifierFormat::Percent, normal: ModifierNormal::Positive, multiplier: 100 })
    }     else if key == "development_cost"@ {
        Some(Modifier { id: "development_cost", name: "Development Cost", format: ModifierFormat::Percent, normal: ModifierNormal::Negative, multiplier: 100 })
    }     else if key == "development_cost_in_primary_culture"@ {
        Some(Modifier { id: "development_cost_in_primary_culture", name: "Development Cost in Primary Culture", format: ModifierFormat::Percent, normal: ModifierNormal::Negative, multiplier: 100 })
    }     else if key == "devotion"@ {
        Some(Modifier { id: "devotion", name: "Yearly Devotion", format: ModifierFormat::Flat, normal: ModifierNormal::Positive, multiplier: 1 })
    }     else if key == "dip_advisor_cost"@ {
        Some(Modifier { id: "dip_advisor_cost", name: "Diplomatic Advisor Cost", format: ModifierFormat::Percent, normal: ModifierNormal::Negative, multiplier: 100 })
    }     else if key == "dip_tech_cost_modifier"@ {
        Some(Modifier { id: "dip_tech_cost_modifier", name: "Diplomatic Technology Cost", format: ModifierFormat::Percent, normal: ModifierNormal::Negative, multiplier: 100 })
    }     else if key == "diplomatic_annexation_cost"@ {
        Some(Modifier { id: "diplomatic_annexation_cost", name: "Diplomatic Annexation Cost", format: ModifierFormat::Percent, normal: ModifierNormal::Negative, multiplier: 100 })
    }     else if key == "diplomatic_reputation"@ {
        Some(Modifier { id: "diplomatic_reputation", name: "Diplomatic Reputation", format: ModifierFormat::Flat, normal: ModifierNormal::Positive, multiplier: 1 })
    }     else if key == "diplomatic_upkeep"@ {
        Some(Modifier { id: "diplomatic_upkeep", name: "Diplomatic Relations", format: ModifierFormat::Flat, normal: ModifierNormal::Positive, multiplier: 1 })
    }     else if key == "diplomats"@ {
        Some(Modifier { id: "diplomats", name: "Diplomats", format: ModifierFormat::Flat, normal: ModifierNormal::Positive, multiplier: 1 })
    } else {
        None
    }
}

fn find_2(key: &str) -> (found: Option<Modifier>)
    ensures
        found == descriptor_2(key@),
{
    if text_eq(key, "burghers_loyalty_modifier") {
        Some(Modifier { id: "burghers_loyalty_modifier", name: "Burghers Loyalty Equilibrium", format: ModifierFormat::Percent, normal: ModifierNormal::Positive, multiplier: 100 })
    }     else if text_eq(key, "can_fabricate_for_vassals") {
        Some(Modifier { id: "can_fabricate_for_vassals", name: "May Fabricate Claims for Subjects", format: ModifierFormat::NoValue, normal: ModifierNormal::Positive, multiplier: 1 })
    }     else if text_eq(key, "candidate_random_bonus") {
        Some(Modifier { id: "candidate_random_bonus", name: "Random Candidate Bonus", format: ModifierFormat::Flat, normal: ModifierNormal::Positive, multiplier: 1 })
    }     else if text_eq(key, "capture_ship_chance") {
        Some(Modifier { id: "capture_ship_chance", name: "Chance to Capture Enemy Ships", format: ModifierFormat::Percent, normal: ModifierNormal::Positive, multiplier: 100 })
    }     else if text_eq(key, "caravan_power") {
        Some(Modifier { id: "caravan_power", name: "Caravan Power", format: ModifierFormat::Percent, normal: ModifierNormal::Positive, multiplier: 100 })
    }     else if text_eq(key, "cav_to_inf_ratio") {
        Some(Modifier { id: "cav_to_inf_ratio", name: "Cavalry to Infantry Ratio", format: ModifierFormat::Percent, normal: ModifierNormal::Positive, multiplier: 100 })
    }     else if text_eq(key, "cavalry_cost") {
        Some(Modifier { id: "cavalry_cost", name: "Cavalry Cost", format: ModifierFormat::Percent, normal: ModifierNormal::Negative, multiplier: 100 })
    }     else if text_eq(key, "cavalry_fire") {
        Some(Modifier { id: "cavalry_fire", name: "Cavalry Fire", format: ModifierFormat::Flat, normal: ModifierNormal::Positive, multiplier: 1 })
    }     else if text_eq(key, "cavalry_flanking") {
        Some(Modifier { id: "cavalry_flanking", name: "Cavalry Flanking Ability", format: ModifierFormat::Percent, normal: ModifierNormal::Positive, multiplier: 100 })
    }     else if text_eq(key, "cavalry_power") {
        Some(Modifier { id: "cavalry_power", name: "Cavalry Combat Ability", format: ModifierFormat::Percent, normal: ModifierNormal::Positive, multiplier: 100 })
    }     else if text_eq(key, "cavalry_shock") {
        Some(Modifier { id: "cavalry_shock", name: "Cavalry Shock", format: ModifierFormat::Flat, normal: ModifierNormal::Positive, multiplier: 1 })
    }     else if text_eq(key, "center_of_trade_upgrade_cost") {
        Some(Modifier { id: "center_of_trade_upgrade_cost", name: "Center of Trade Upgrade Cost", format: ModifierFormat::Percent, normal: ModifierNormal::Negative, multiplier: 100 })
    }     else if text_eq(key, "church_loyalty_modifier") {
        Some(Modifier { id: "church_loyalty_modifier", name: "Clergy Loyalty Equilibrium", format: ModifierFormat::Percent, normal: ModifierNormal::Positive, multiplier: 100 })
    }     else if text_eq(key, "church_power_modifier") {
        Some(Modifier { id: "church_power_modifier", name: "Religious Power", format: ModifierFormat::Percent, normal: ModifierNormal::Positive, multiplier: 100 })
    }     else if text_eq(key, "claim_duration") {
        Some(Modifier { id: "claim_duration", name: "Claim Duration", format: ModifierFormat::Percent, normal: ModifierNormal::Positive, multiplier: 100 })
    }     else if text_eq(key, "coast_raid_range") {
        Some(Modifier { id: "coast_raid_range", name: "Coastal Raiding Range", format: ModifierFormat::Flat, normal: ModifierNormal::Positive, multiplier: 1 })
    }     else if text_eq(key, "colonist_placement_chance") {
        Some(Modifier { id: "colonist_placement_chance", name: "Settler Chance", format: ModifierFormat::Percent, normal: ModifierNormal::Positive, multiplier: 100 })
    }     else if text_eq(key, "colonists") {
        Some(Modifier { id: "colonists", name: "Colonists", format: ModifierFormat::Flat, normal: ModifierNormal::Positive, multiplier: 1 })
    }     else if text_eq(key, "core_creation") {
        Some(Modifier { id: "core_creation", name: "Core-Creation Cost", format: ModifierFormat::Percent, normal: ModifierNormal::Negative, multiplier: 100 })
    }     else if text_eq(key, "core_decay_on_your_own") {
        Some(Modifier { id: "core_decay_on_your_own", name: "Foreign Core Duration", format: ModifierFormat::Percent, normal: ModifierNormal::Negative, multiplier: 100 })
    }     else if text_eq(key, "culture_conversion_cost") {
        Some(Modifier { id: "culture_conversion_cost", name: "Culture Conversion Cost", format: ModifierFormat::Percent, normal: ModifierNormal::Negative, multiplier: 100 })
    }     else if text_eq(key, "culture_conversion_time") {
        Some(Modifier { id: "culture_conversion_time", name: "Culture Conversion Time", format: ModifierFormat::Percent, normal: ModifierNormal::Negative, multiplier: 100 })
    }     else if text_eq(key, "defensiveness") {
        Some(Modifier { id: "defensiveness", name: "Fort Defence", format: ModifierFormat::Percent, normal: ModifierNormal::Positive, multiplier: 100 })
    }     else if text_eq(key, "development_cost") {
        Some(Modifier { id: "development_cost", name: "Development Cost", format: ModifierFormat::Percent, normal: ModifierNormal::Negative, multiplier: 100 })
    }     else if text_eq(key, "development_cost_in_primary_culture") {
        Some(Modifier { id: "development_cost_in_primary_culture", name: "Development Cost in Primary Culture", format: ModifierFormat::Percent, normal: ModifierNormal::Negative, multiplier: 100 })
    }     else if text_eq(key, "devotion") {
        Some(Modifier { id: "devotion", name: "Yearly Devotion", format: ModifierFormat::Flat, normal: ModifierNormal::Positive, multiplier: 1 })
    }     else if text_eq(key, "dip_advisor_cost") {
        Some(Modifier { id: "dip_advisor_cost", name: "Diplomatic Advisor Cost", format: ModifierFormat::Percent, normal: ModifierNormal::Negative, multiplier: 100 })
    }     else if text_eq(key, "dip_tech_cost_modifier") {
        Some(Modifier { id: "dip_tech_cost_modifier", name: "Diplomatic Technology Cost", format: ModifierFormat::Percent, normal: ModifierNormal::Negative, multiplier: 100 })
    }     else if text_eq(key, "diplomatic_annexation_cost") {
        Some(Modifier { id: "diplomatic_annexation_cost", name: "Diplomatic Annexation Cost", format: ModifierFormat::Percent, normal: ModifierNormal::Negative, multiplier: 100 })
    }     else if text_eq(key, "diplomatic_reputation") {
        Some(Modifier { id: "diplomatic_reputation", name: "Diplomatic Reputation", format: ModifierFormat::Flat, normal: ModifierNormal::Positive, multiplier: 1 })
    }     else if text_eq(key, "diplomatic_upkeep") {
        Some(Modifier { id: "diplomatic_upkeep", name: "Diplomatic Relations", format: ModifierFormat::Flat, normal: ModifierNormal::Positive, multiplier: 1 })
    }     else if text_eq(key, "diplomats") {
        Some(Modifier { id: "diplomats", name: "Diplomats", format: ModifierFormat::Flat, normal: ModifierNormal::Positive, multiplier: 1 })
    } else {
        None
    }
}

proof fn lemma_descriptor_2(key: Seq<char>)
    ensures
        descriptor_2(key) matches Some(m) ==> m.id@ == key,
{
}

/// Part 3 of the table: `discipline` to `global_autonomy`.
pub open spec fn descriptor_3(key: Seq<char>) -> Option<Modifier> {
    if key == "discipline"@ {
        Some(Modifier { id: "discipline", name: "Discipline", format: ModifierFormat::Percent, normal: ModifierNormal::Positive, multiplier: 100 })
    }     else if key == "discovered_relations_impact"@ {
        Some(Modifier { id: "discovered_relations_impact", name: "Covert Action Relation Impact", format: ModifierFormat::Percent, normal: ModifierNormal::Negative, multiplier: 100 })
    }     else if key == "disengagement_chance"@ {
        Some(Modifier { id: "disengagement_chance", name: "Ship Disengagement Chance", format: ModifierFormat::Percent, normal: ModifierNormal::Positive, multiplier: 100 })
    }     else if key == "dragon_command_influence_modifier"@ {
        Some(Modifier { id: "dragon_command_influence_modifier", name: "Dragon Command Influence", format: ModifierFormat::Percent, normal: ModifierNormal::Positive, multiplier: 100 })
    }     else if key == "dragon_command_loyalty_modifier"@ {
        Some(Modifier { id: "dragon_command_loyalty_modifier", name: "Dragon Command Loyalty Equilibrium", format: ModifierFormat::Percent, normal: ModifierNormal::Positive, multiplier: 100 })
    }     else if key == "drill_decay_modifier"@ {
        Some(Modifier { id: "drill_decay_modifier", name: "Regiment Drill Loss", format: ModifierFormat::Percent, normal: ModifierNormal::Negative, multiplier: 100 })
    }     else if key == "drill_gain_modifier"@ {
        Some(Modifier { id: "drill_gain_modifier", name: "Army Drill Gain Modifier", format: ModifierFormat::Percent, normal: ModifierNormal::Positive, multiplier: 100 })
    }     else if key == "elephant_command_influence_modifier"@ {
        Some(Modifier { id: "elephant_command_influence_modifier", name: "Elephant Command Influence", format: ModifierFormat::Percent, normal: ModifierNormal::Positive, multiplier: 100 })
    }     else if key == "elephant_command_loyalty_modifier"@ {
        Some(Modifier { id: "elephant_command_loyalty_modifier", name: "Elephant Command Loyalty Equilibrium", format: ModifierFormat::Percent, normal: ModifierNormal::Positive, multiplier: 100 })
    }     else if key == "embargo_efficiency"@ {
        Some(Modifier { id: "embargo_efficiency", name: "Embargo Efficiency", format: ModifierFormat::Percent, normal: ModifierNormal::Positive, multiplier: 100 })
    }     else if key == "embracement_cost"@ {
        Some(Modifier { id: "embracement_cost", name: "Institution Embracement Cost", format: ModifierFormat::Percent, normal: ModifierNormal::Negative, multiplier: 100 })
    }     else if key == "enforce_religion_cost"@ {
        Some(Modifier { id: "enforce_religion_cost", name: "Cost of enforcing religion through war", format: ModifierFormat::Percent, normal: ModifierNormal::Negative, multiplier: 100 })
    }     else if key == "envoy_travel_time"@ {
        Some(Modifier { id: "envoy_travel_time", name: "Envoy Travel Time", format: ModifierFormat::Percent, normal: ModifierNormal::Negative, multiplier: 100 })
    }     else if key == "establish_order_cost"@ {
        Some(Modifier { id: "establish_order_cost", name: "Establish Local Organization Cost", format: ModifierFormat::Percent, normal: ModifierNormal::Negative, multiplier: 100 })
    }     else if key == "expand_administration_cost"@ {
        Some(Modifier { id: "expand_administration_cost", name: "Expand Administration Cost", format: ModifierFormat::Percent, normal: ModifierNormal::Negative, multiplier: 100 })
    }     else if key == "fabricate_claims_cost"@ {
        Some(Modifier { id: "fabricate_claims_cost", name: "Cost to fabricate claims", format: ModifierFormat::Percent, normal: ModifierNormal::Negative, multiplier: 100 })
    }     else if key == "female_advisor_chance"@ {
        Some(Modifier { id: "female_advisor_chance", name: "Female Advisor Chance", format: ModifierFormat::Percent, normal: ModifierNormal::Positive, multiplier: 100 })
    }     else if key == "fire_damage"@ {
        Some(Modifier { id: "fire_damage", name: "Land Fire Damage", format: ModifierFormat::Percent, normal: ModifierNormal::Positive, multiplier: 100 })
    }     else if key == "fire_damage_received"@ {
        Some(Modifier { id: "fire_damage_received", name: "Fire Damage Received", format: ModifierFormat::Percent, normal: ModifierNormal::Negative, multiplier: 100 })
    }     else if key == "flagship_cost"@ {
        Some(Modifier { id: "flagship_cost", name: "Flagship Cost", format: ModifierFormat::Percent, normal: ModifierNormal::Negative, multiplier: 100 })
    }     else if key == "fort_maintenance_modifier"@ {
        Some(Modifier { id: "fort_maintenance_modifier", name: "Fort Maintenance", format: ModifierFormat::Percent, normal: ModifierNormal::Negative, multiplier: 100 })
    }     else if key == "free_adm_policy"@ {
        Some(Modifier { id: "free_adm_policy", name: "Administrative Free Policies", format: ModifierFormat::Flat, normal: ModifierNormal::Positive, multiplier: 1 })
    }     else if key == "free_dip_policy"@ {
        Some(Modifier { id: "free_dip_policy", name: "Diplomatic Free Policies", format: ModifierFormat::Flat, normal: ModifierNormal::Positive, multiplier: 1 })
    }     else if key == "free_land_leader_pool"@ {
        Some(Modifier { id: "free_land_leader_pool", name: "Land Leader(s) without Upkeep", format: ModifierFormat::Flat, normal: ModifierNormal::Positive, multiplier: 1 })
    }     else if key == "free_leader_pool"@ {
        Some(Modifier { id: "free_leader_pool", name: "Leader(s) without Upkeep", format: ModifierFormat::Flat, normal: ModifierNormal::Positive, multiplier: 1 })
    }     else if key == "free_mil_policy"@ {
        Some(Modifier { id: "free_mil_policy", name: "Military Free Policies", format: ModifierFormat::Flat, normal: ModifierNormal::Positive, multiplier: 1 })
    }     else if key == "free_policy"@ {
        Some(Modifier { id: "free_policy", name: "Free Policies", format: ModifierFormat::Flat, normal: ModifierNormal::Positive, multiplier: 1 })
    }     else if key == "galley_cost"@ {
        Some(Modifier { id: "galley_cost", name: "Galley Cost", format: ModifierFormat::Percent, normal: ModifierNormal::Negative, multiplier: 100 })
    }     else if key == "galley_power"@ {
        Some(Modifier { id: "galley_power", name: "Galley Combat Ability", format: ModifierFormat::Percent, normal: ModifierNormal::Positive, multiplier: 100 })
    }     else if key == "garrison_size"@ {
        Some(Modifier { id: "garrison_size", name: "Garrison Size", format: ModifierFormat::Percent, normal: ModifierNormal::Positive, multiplier: 100 })
    }     else if key == "general_cost"@ {
        Some(Modifier { id: "general_cost", name: "General Cost", format: ModifierFormat::Percent, normal: ModifierNormal::Negative, multiplier: 100 })
    }     else if key == "global_autonomy"@ {
        Some(Modifier { id: "global_autonomy", name: "Monthly Autonomy Change", format: ModifierFormat::Flat, normal: ModifierNormal::Negative, multiplier: 1 })
    } else {
        None
    }
}

fn find_3(key: &str) -> (found: Option<Modifier>)
    ensures
        found == descriptor_3(key@),
{
    if text_eq(key, "discipline") {
        Some(Modifier { id: "discipline", name: "Discipline", format: ModifierFormat::Percent, normal: ModifierNormal::Positive, multiplier: 100 })
    }     else if text_eq(key, "discovered_relations_impact") {
        Some(Modifier { id: "discovered_relations_impact", name: "Covert Action Relation Impact", format: ModifierFormat::Percent, normal: ModifierNormal::Negative, multiplier: 100 })
    }     else if text_eq(key, "disengagement_chance") {
        Some(Modifier { id: "disengagement_chance", name: "Ship Disengagement Chance", format: ModifierFormat::Percent, normal: ModifierNormal::Positive, multiplier: 100 })
    }     else if text_eq(key, "dragon_command_influence_modifier") {
        Some(Modifier { id: "dragon_command_influence_modifier", name: "Dragon Command Influence", format: ModifierFormat::Percent, normal: ModifierNormal::Positive, multiplier: 100 })
    }     else if text_eq(key, "dragon_command_loyalty_modifier") {
        Some(Modifier { id: "dragon_command_loyalty_modifier", name: "Dragon Command Loyalty Equilibrium", format: ModifierFormat::Percent, normal: ModifierNormal::Positive, multiplier: 100 })
    }     else if text_eq(key, "drill_decay_modifier") {
        Some(Modifier { id: "drill_decay_modifier", name: "Regiment Drill Loss", format: ModifierFormat::Percent, normal: ModifierNormal::Negative, multiplier: 100 })
    }     else if text_eq(key, "drill_gain_modifier") {
        Some(Modifier { id: "drill_gain_modifier", name: "Army Drill Gain Modifier", format: ModifierFormat::Percent, normal: ModifierNormal::Positive, multiplier: 100 })
    }     else if text_eq(key, "elephant_command_influence_modifier") {
        Some(Modifier { id: "elephant_command_influence_modifier", name: "Elephant Command Influence", format: ModifierFormat::Percent, normal: ModifierNormal::Positive, multiplier: 100 })
    }     else if text_eq(key, "elephant_command_loyalty_modifier") {
        Some(Modifier { id: "elephant_command_loyalty_modifier", name: "Elephant Command Loyalty Equilibrium", format: ModifierFormat::Percent, normal: ModifierNormal::Positive, multiplier: 100 })
    }     else if text_eq(key, "embargo_efficiency") {
        Some(Modifier { id: "embargo_efficiency", name: "Embargo Efficiency", format: ModifierFormat::Percent, normal: ModifierNormal::Positive, multiplier: 100 })
    }     else if text_eq(key, "embracement_cost") {
        Some(Modifier { id: "embracement_cost", name: "Institution Embracement Cost", format: ModifierFormat::Percent, normal: ModifierNormal::Negative, multiplier: 100 })
    }     else if text_eq(key, "enforce_religion_cost") {
        Some(Modifier { id: "enforce_religion_cost", name: "Cost of enforcing religion through war", format: ModifierFormat::Percent, normal: ModifierNormal::Negative, multiplier: 100 })
    }     else if text_eq(key, "envoy_travel_time") {
        Some(Modifier { id: "envoy_travel_time", name: "Envoy Travel Time", format: ModifierFormat::Percent, normal: ModifierNormal::Negative, multiplier: 100 })
    }     else if text_eq(key, "establish_order_cost") {
        Some(Modifier { id: "establish_order_cost", name: "Establish Local Organization Cost", format: ModifierFormat::Percent, normal: ModifierNormal::Negative, multiplier: 100 })
    }     else if text_eq(key, "expand_administration_cost") {
        Some(Modifier { id: "expand_administration_cost", name: "Expand Administration Cost", format: ModifierFormat::Percent, normal: ModifierNormal::Negative, multiplier: 100 })
    }     else if text_eq(key, "fabricate_claims_cost") {
        Some(Modifier { id: "fabricate_claims_cost", name: "Cost to fabricate claims", format: ModifierFormat::Percent, normal: ModifierNormal::Negative, multiplier: 100 })
    }     else if text_eq(key, "female_advisor_chance") {
        Some(Modifier { id: "female_advisor_chance", name: "Female Advisor Chance", format: ModifierFormat::Percent, normal: ModifierNormal::Positive, multiplier: 100 })
    }     else if text_eq(key, "fire_damage") {
        Some(Modifier { id: "fire_damage", name: "Land Fire Damage", format: ModifierFormat::Percent, normal: ModifierNormal::Positive, multiplier: 100 })
    }     else if text_eq(key, "fire_damage_received") {
        Some(Modifier { id: "fire_damage_received", name: "Fire Damage Received", format: ModifierFormat::Percent, normal: ModifierNormal::Negative, multiplier: 100 })
    }     else if text_eq(key, "flagship_cost") {
        Some(Modifier { id: "flagship_cost", name: "Flagship Cost", format: ModifierFormat::Percent, normal: ModifierNormal::Negative, multiplier: 100 })
    }     else if text_eq(key, "fort_maintenance_modifier") {
        Some(Modifier { id: "fort_maintenance_modifier", name: "Fort Maintenance", format: ModifierFormat::Percent, normal: ModifierNormal::Negative, multiplier: 100 })
    }     else if text_eq(key, "free_adm_policy") {
        Some(Modifier { id: "free_adm_policy", name: "Administrative Free Policies", format: ModifierFormat::Flat, normal: ModifierNormal::Positive, multiplier: 1 })
    }     else if text_eq(key, "free_dip_policy") {
        Some(Modifier { id: "free_dip_policy", name: "Diplomatic Free Policies", format: ModifierFormat::Flat, normal: ModifierNormal::Positive, multiplier: 1 })
    }     else if text_eq(key, "free_land_leader_pool") {
        Some(Modifier { id: "free_land_leader_pool", name: "Land Leader(s) without Upkeep", format: ModifierFormat::Flat, normal: ModifierNormal::Positive, multiplier: 1 })
    }     else if text_eq(key, "free_leader_pool") {
        Some(Modifier { id: "free_leader_pool", name: "Leader(s) without Upkeep", format: ModifierFormat::Flat, normal: ModifierNormal::Positive, multiplier: 1 })
    }     else if text_eq(key, "free_mil_policy") {
        Some(Modifier { id: "free_mil_policy", name: "Military Free Policies", format: ModifierFormat::Flat, normal: ModifierNormal::Positive, multiplier: 1 })
    }     else if text_eq(key, "free_policy") {
        Some(Modifier { id: "free_policy", name: "Free Policies", format: ModifierFormat::Flat, normal: ModifierNormal::Positive, multiplier: 1 })
    }     else if text_eq(key, "galley_cost") {
        Some(Modifier { id: "galley_cost", name: "Galley Cost", format: ModifierFormat::Percent, normal: ModifierNormal::Negative, multiplier: 100 })
    }     else if text_eq(key, "galley_power") {
        Some(Modifier { id: "galley_power", name: "Galley Combat Ability", format: ModifierFormat::Percent, normal: ModifierNormal::Positive, multiplier: 100 })
    }     else if text_eq(key, "garrison_size") {
        Some(Modifier { id: "garrison_size", name: "Garrison Size", format: ModifierFormat::Percent, normal: ModifierNormal::Positive, multiplier: 100 })
    }     else if text_eq(key, "general_cost") {
        Some(Modifier { id: "general_cost", name: "General Cost", format: ModifierFormat::Percent, normal: ModifierNormal::Negative, multiplier: 100 })
    }     else if text_eq(key, "global_autonomy") {
        Some(Modifier { id: "global_autonomy", name: "Monthly Autonomy Change", format: ModifierFormat::Flat, normal: ModifierNormal::Negative, multiplier: 1 })
    } else {
        None
    }
}

proof fn lemma_descriptor_3(key: Seq<char>)
    ensures
        descriptor_3(key) matches Some(m) ==> m.id@ == key,
{
}

/// Part 4 of the table: `global_colonial_growth` to `great_project_upgrade_cost`.
pub open spec fn descriptor_4(key: Seq<char>) -> Option<Modifier> {
    if key == "global_colonial_growth"@ {
        Some(Modifier { id: "global_colonial_growth", name: "Global Settler Increase", format: ModifierFormat::Flat, normal: ModifierNormal::Positive, multiplier: 1 })
    }     else if key == "global_foreign_trade_power"@ {
        Some(Modifier { id: "global_foreign_trade_power", name: "Trade Power Abroad", format: ModifierFormat::Percent, normal: ModifierNormal::Positive, multiplier: 100 })
    }     else if key == "global_garrison_growth"@ {
        Some(Modifier { id: "global_garrison_growth", name: "National Garrison Growth", format: ModifierFormat::Percent, normal: ModifierNormal::Positive, multiplier: 100 })
    }     else if key == "global_heathen_missionary_strength"@ {
        Some(Modifier { id: "global_heathen_missionary_strength", name: "Missionary Strength vs Heathens", format: ModifierFormat::Percent, normal: ModifierNormal::Positive, multiplier: 100 })
    }     else if key == "global_heretic_missionary_strength"@ {
        Some(Modifier { id: "global_heretic_missionary_strength", name: "Missionary Strength vs Heretics", format: ModifierFormat::Percent, normal: ModifierNormal::Positive, multiplier: 100 })
    }     else if key == "global_institution_spread"@ {
        Some(Modifier { id: "global_institution_spread", name: "Institution Spread", format: ModifierFormat::Percent, normal: ModifierNormal::Positive, multiplier: 100 })
    }     else if key == "global_manpower_modifier"@ {
        Some(Modifier { id: "global_manpower_modifier", name: "National Manpower Modifier", format: ModifierFormat::Percent, normal: ModifierNormal::Positive, multiplier: 100 })
    }     else if key == "global_missionary_strength"@ {
        Some(Modifier { id: "global_missionary_strength", name: "Missionary Strength", format: ModifierFormat::Percent, normal: ModifierNormal::Positive, multiplier: 100 })
    }     else if key == "global_monthly_devastation"@ {
        Some(Modifier { id: "global_monthly_devastation", name: "Global Monthly Devastation", format: ModifierFormat::Flat, normal: ModifierNormal::Negative, multiplier: 1 })
    }     else if key == "global_naval_barrage_cost"@ {
        Some(Modifier { id: "global_naval_barrage_cost", name: "Naval Barrage cost", format: ModifierFormat::Percent, normal: ModifierNormal::Negative, multiplier: 100 })
    }     else if key == "global_naval_engagement_modifier"@ {
        Some(Modifier { id: "global_naval_engagement_modifier", name: "Global Naval Engagement Modifier", format: ModifierFormat::Percent, normal: ModifierNormal::Positive, multiplier: 100 })
    }     else if key == "global_own_trade_power"@ {
        Some(Modifier { id: "global_own_trade_power", name: "Domestic Trade Power", format: ModifierFormat::Percent, normal: ModifierNormal::Positive, multiplier: 100 })
    }     else if key == "global_prosperity_growth"@ {
        Some(Modifier { id: "global_prosperity_growth", name: "Global Prosperity Growth", format: ModifierFormat::Percent, normal: ModifierNormal::Positive, multiplier: 100 })
    }     else if key == "global_prov_trade_power_modifier"@ {
        Some(Modifier { id: "global_prov_trade_power_modifier", name: "Provincial Trade Power Modifier", format: ModifierFormat::Percent, normal: ModifierNormal::Positive, multiplier: 100 })
    }     else if key == "global_rebel_suppression_efficiency"@ {
        Some(Modifier { id: "global_rebel_suppression_efficiency", name: "Rebel Suppression Efficiency", format: ModifierFormat::Percent, normal: ModifierNormal::Positive, multiplier: 100 })
    }     else if key == "global_regiment_cost"@ {
        Some(Modifier { id: "global_regiment_cost", name: "Regiment Costs", format: ModifierFormat::Percent, normal: ModifierNormal::Negative, multiplier: 100 })
    }     else if key == "global_regiment_recruit_speed"@ {
        Some(Modifier { id: "global_regiment_recruit_speed", name: "Recruitment Time", format: ModifierFormat::Percent, normal: ModifierNormal::Negative, multiplier: 100 })
    }     else if key == "global_sailors"@ {
        Some(Modifier { id: "global_sailors", name: "Sailor Increase", format: ModifierFormat::Flat, normal: ModifierNormal::Positive, multiplier: 1 })
    }     else if key == "global_sailors_modifier"@ {
        Some(Modifier { id: "global_sailors_modifier", name: "National Sailors Modifier", format: ModifierFormat::Percent, normal: ModifierNormal::Positive, multiplier: 100 })
    }     else if key == "global_ship_cost"@ {
        Some(Modifier { id: "global_ship_cost", name: "Ship Costs", format: ModifierFormat::Percent, normal: ModifierNormal::Negative, multiplier: 100 })
    }     else if key == "global_ship_recruit_speed"@ {
        Some(Modifier { id: "global_ship_recruit_speed", name: "Shipbuilding Time", format: ModifierFormat::Percent, normal: ModifierNormal::Negative, multiplier: 100 })
    }     else if key == "global_ship_repair"@ {
        Some(Modifier { id: "global_ship_repair", name: "Global Ship Repair", format: ModifierFormat::Percent, normal: ModifierNormal::Positive, multiplier: 100 })
    }     else if key == "global_ship_trade_power"@ {
        Some(Modifier { id: "global_ship_trade_power", name: "Ship Trade Power", format: ModifierFormat::Percent, normal: ModifierNormal::Positive, multiplier: 100 })
    }     else if key == "global_spy_defence"@ {
        Some(Modifier { id: "global_spy_defence", name: "Foreign Spy Detection", format: ModifierFormat::Percent, normal: ModifierNormal::Positive, multiplier: 100 })
    }     else if key == "global_supply_limit_modifier"@ {
        Some(Modifier { id: "global_supply_limit_modifier", name: "National Supply Limit Modifier", format: ModifierFormat::Percent, normal: ModifierNormal::Positive, multiplier: 100 })
    }     else if key == "global_tariffs"@ {
        Some(Modifier { id: "global_tariffs", name: "Merchants", format: ModifierFormat::Percent, normal: ModifierNormal::Positive, multiplier: 100 })
    }     else if key == "global_tax_modifier"@ {
        Some(Modifier { id: "global_tax_modifier", name: "National Tax Modifier", format: ModifierFormat::Percent, normal: ModifierNormal::Positive, multiplier: 100 })
    }     else if key == "global_trade_goods_size_modifier"@ {
        Some(Modifier { id: "global_trade_goods_size_modifier", name: "Goods Produced Modifier", format: ModifierFormat::Percent, normal: ModifierNormal::Positive, multiplier: 100 })
    }     else if key == "global_trade_power"@ {
        Some(Modifier { id: "global_trade_power", name: "Global Trade Power", format: ModifierFormat::Percent, normal: ModifierNormal::Positive, multiplier: 100 })
    }     else if key == "global_unrest"@ {
        Some(Modifier { id: "global_unrest", name: "National Unrest", format: ModifierFormat::Flat, normal: ModifierNormal::Negative, multiplier: 1 })
    }     else if key == "governing_capacity_modifier"@ {
        Some(Modifier { id: "governing_capacity_modifier", name: "Governing Capacity Modifier", format: ModifierFormat::Percent, normal: ModifierNormal::Positive, multiplier: 100 })
    }     else if key == "great_project_upgrade_cost"@ {
        Some(Modifier { id: "great_project_upgrade_cost", name: "Great Project Upgrade Cost", format: ModifierFormat::Percent, normal: ModifierNormal::Negative, multiplier: 100 })
    } else {
        None
    }
}

fn find_4(key: &str) -> (found: Option<Modifier>)
    ensures
        found == descriptor_4(key@),
{
    if text_eq(key, "global_colonial_growth") {
        Some(Modifier { id: "global_colonial_growth", name: "Global Settler Increase", format: ModifierFormat::Flat, normal: ModifierNormal::Positive, multiplier: 1 })
    }     else if text_eq(key, "global_foreign_trade_power") {
        Some(Modifier { id: "global_foreign_trade_power", name: "Trade Power Abroad", format: ModifierFormat::Percent, normal: ModifierNormal::Positive, multiplier: 100 })
    }     else if text_eq(key, "global_garrison_growth") {
        Some(Modifier { id: "global_garrison_growth", name: "National Garrison Growth", format: ModifierFormat::Percent, normal: ModifierNormal::Positive, multiplier: 100 })
    }     else if text_eq(key, "global_heathen_missionary_strength") {
        Some(Modifier { id: "global_heathen_missionary_strength", name: "Missionary Strength vs Heathens", format: ModifierFormat::Percent, normal: ModifierNormal::Positive, multiplier: 100 })
    }     else if text_eq(key, "global_heretic_missionary_strength") {
        Some(Modifier { id: "global_heretic_missionary_strength", name: "Missionary Strength vs Heretics", format: ModifierFormat::Percent, normal: ModifierNormal::Positive, multiplier: 100 })
    }     else if text_eq(key, "global_institution_spread") {
        Some(Modifier { id: "global_institution_spread", name: "Institution Spread", format: ModifierFormat::Percent, normal: ModifierNormal::Positive, multiplier: 100 })
    }     else if text_eq(key, "global_manpower_modifier") {
        Some(Modifier { id: "global_manpower_modifier", name: "National Manpower Modifier", format: ModifierFormat::Percent, normal: ModifierNormal::Positive, multiplier: 100 })
    }     else if text_eq(key, "global_missionary_strength") {
        Some(Modifier { id: "global_missionary_strength", name: "Missionary Strength", format: ModifierFormat::Percent, normal: ModifierNormal::Positive, multiplier: 100 })
    }     else if text_eq(key, "global_monthly_devastation") {
        Some(Modifier { id: "global_monthly_devastation", name: "Global Monthly Devastation", format: ModifierFormat::Flat, normal: ModifierNormal::Negative, multiplier: 1 })
    }     else if text_eq(key, "global_naval_barrage_cost") {
        Some(Modifier { id: "global_naval_barrage_cost", name: "Naval Barrage cost", format: ModifierFormat::Percent, normal: ModifierNormal::Negative, multiplier: 100 })
    }     else if text_eq(key, "global_naval_engagement_modifier") {
        Some(Modifier { id: "global_naval_engagement_modifier", name: "Global Naval Engagement Modifier", format: ModifierFormat::Percent, normal: ModifierNormal::Positive, multiplier: 100 })
    }     else if text_eq(key, "global_own_trade_power") {
        Some(Modifier { id: "global_own_trade_power", name: "Domestic Trade Power", format: ModifierFormat::Percent, normal: ModifierNormal::Positive, multiplier: 100 })
    }     else if text_eq(key, "global_prosperity_growth") {
        Some(Modifier { id: "global_prosperity_growth", name: "Global Prosperity Growth", format: ModifierFormat::Percent, normal: ModifierNormal::Positive, multiplier: 100 })
    }     else if text_eq(key, "global_prov_trade_power_modifier") {
        Some(Modifier { id: "global_prov_trade_power_modifier", name: "Provincial Trade Power Modifier", format: ModifierFormat::Percent, normal: ModifierNormal::Positive, multiplier: 100 })
    }     else if text_eq(key, "global_rebel_suppression_efficiency") {
        Some(Modifier { id: "global_rebel_suppression_efficiency", name: "Rebel Suppression Efficiency", format: ModifierFormat::Percent, normal: ModifierNormal::Positive, multiplier: 100 })
    }     else if text_eq(key, "global_regiment_cost") {
        Some(Modifier { id: "global_regiment_cost", name: "Regiment Costs", format: ModifierFormat::Percent, normal: ModifierNormal::Negative, multiplier: 100 })
    }     else if text_eq(key, "global_regiment_recruit_speed") {
        Some(Modifier { id: "global_regiment_recruit_speed", name: "Recruitment Time", format: ModifierFormat::Percent, normal: ModifierNormal::Negative, multiplier: 100 })
    }     else if text_eq(key, "global_sailors") {
        Some(Modifier { id: "global_sailors", name: "Sailor Increase", format: ModifierFormat::Flat, normal: ModifierNormal::Positive, multiplier: 1 })
    }     else if text_eq(key, "global_sailors_modifier") {
        Some(Modifier { id: "global_sailors_modifier", name: "National Sailors Modifier", format: ModifierFormat::Percent, normal: ModifierNormal::Positive, multiplier: 100 })
    }     else if text_eq(key, "global_ship_cost") {
        Some(Modifier { id: "global_ship_cost", name: "Ship Costs", format: ModifierFormat::Percent, normal: ModifierNormal::Negative, multiplier: 100 })
    }     else if text_eq(key, "global_ship_recruit_speed") {
        Some(Modifier { id: "global_ship_recruit_speed", name: "Shipbuilding Time", format: ModifierFormat::Percent, normal: ModifierNormal::Negative, multiplier: 100 })
    }     else if text_eq(key, "global_ship_repair") {
        Some(Modifier { id: "global_ship_repair", name: "Global Ship Repair", format: ModifierFormat::Percent, normal: ModifierNormal::Positive, multiplier: 100 })
    }     else if text_eq(key, "global_ship_trade_power") {
        Some(Modifier { id: "global_ship_trade_power", name: "Ship Trade Power", format: ModifierFormat::Percent, normal: ModifierNormal::Positive, multiplier: 100 })
    }     else if text_eq(key, "global_spy_defence") {
        Some(Modifier { id: "global_spy_defence", name: "Foreign Spy Detection", format: ModifierFormat::Percent, normal: ModifierNormal::Positive, multiplier: 100 })
    }     else if text_eq(key, "global_supply_limit_modifier") {
        Some(Modifier { id: "global_supply_limit_modifier", name: "National Supply Limit Modifier", format: ModifierFormat::Percent, normal: ModifierNormal::Positive, multiplier: 100 })
    }     else if text_eq(key, "global_tariffs") {
        Some(Modifier { id: "global_tariffs", name: "Merchants", format: ModifierFormat::Percent, normal: ModifierNormal::Positive, multiplier: 100 })
    }     else if text_eq(key, "global_tax_modifier") {
        Some(Modifier { id: "global_tax_modifier", name: "National Tax Modifier", format: ModifierFormat::Percent, normal: ModifierNormal::Positive, multiplier: 100 })
    }     else if text_eq(key, "global_trade_goods_size_modifier") {
        Some(Modifier { id: "global_trade_goods_size_modifier", name: "Goods Produced Modifier", format: ModifierFormat::Percent, normal: ModifierNormal::Positive, multiplier: 100 })
    }     else if text_eq(key, "global_trade_power") {
        Some(Modifier { id: "global_trade_power", name: "Global Trade Power", format: ModifierFormat::Percent, normal: ModifierNormal::Positive, multiplier: 100 })
    }     else if text_eq(key, "global_unrest") {
        Some(Modifier { id: "global_unrest", name: "National Unrest", format: ModifierFormat::Flat, normal: ModifierNormal::Negative, multiplier: 1 })
    }     else if text_eq(key, "governing_capacity_modifier") {
        Some(Modifier { id: "governing_capacity_modifier", name: "Governing Capacity Modifier", format: ModifierFormat::Percent, normal: ModifierNormal::Positive, multiplier: 100 })
    }     else if text_eq(key, "great_project_upgrade_cost") {
        Some(Modifier { id: "great_project_upgrade_cost", name: "Great Project Upgrade Cost", format: ModifierFormat::Percent, normal: ModifierNormal::Negative, multiplier: 100 })
    } else {
        None
    }
}

proof fn lemma_descriptor_4(key: Seq<char>)
    ensures
        descriptor_4(key) matches Some(m) ==> m.id@ == key,
{
}

/// Part 5 of the table: `harsh_treatment_cost` to `leader_naval_fire`.
pub open spec fn descriptor_5(key: Seq<char>) -> Option<Modifier> {
    if key == "harsh_treatment_cost"@ {
        Some(Modifier { id: "harsh_treatment_cost", name: "Harsh Treatment Cost", format: ModifierFormat::Percent, normal: ModifierNormal::Negative, multiplier: 100 })
    }     else if key == "heavy_ship_cost"@ {
        Some(Modifier { id: "heavy_ship_cost", name: "Heavy Ship Cost", format: ModifierFormat::Percent, normal: ModifierNormal::Negative, multiplier: 100 })
    }     else if key == "heavy_ship_hull_size_modifier"@ {
        Some(Modifier { id: "heavy_ship_hull_size_modifier", name: "Heavy Ship Hull Size", format: ModifierFormat::Percent, normal: ModifierNormal::Positive, multiplier: 100 })
    }     else if key == "heavy_ship_power"@ {
        Some(Modifier { id: "heavy_ship_power", name: "Heavy Ship Combat Ability", format: ModifierFormat::Percent, normal: ModifierNormal::Positive, multiplier: 100 })
    }     else if key == "heir_chance"@ {
        Some(Modifier { id: "heir_chance", name: "Chance of New Heir", format: ModifierFormat::Percent, normal: ModifierNormal::Positive, multiplier: 100 })
    }     else if key == "horde_unity"@ {
        Some(Modifier { id: "horde_unity", name: "Yearly Horde Unity", format: ModifierFormat::Flat, normal: ModifierNormal::Positive, multiplier: 1 })
    }     else if key == "hostile_attrition"@ {
        Some(Modifier { id: "hostile_attrition", name: "Attrition for Enemies", format: ModifierFormat::Flat, normal: ModifierNormal::Positive, multiplier: 1 })
    }     else if key == "hull_size_modifier"@ {
        Some(Modifier { id: "hull_size_modifier", name: "Ship Hull Size", format: ModifierFormat::Percent, normal: ModifierNormal::Positive, multiplier: 100 })
    }     else if key == "idea_claim_colonies"@ {
        Some(Modifier { id: "idea_claim_colonies", name: "Can Fabricate Claims in any colonial region belonging to another nation who are also overseas from the province, or to their colonial nations", format: ModifierFormat::NoValue, normal: ModifierNormal::Positive, multiplier: 1 })
    }     else if key == "idea_cost"@ {
        Some(Modifier { id: "idea_cost", name: "Idea Cost", format: ModifierFormat::Percent, normal: ModifierNormal::Negative, multiplier: 100 })
    }     else if key == "imperial_authority"@ {
        Some(Modifier { id: "imperial_authority", name: "Imperial Authority Growth Modifier", format: ModifierFormat::Percent, normal: ModifierNormal::Positive, multiplier: 100 })
    }     else if key == "imperial_mandate"@ {
        Some(Modifier { id: "imperial_mandate", name: "Monthly Mandate", format: ModifierFormat::Flat, normal: ModifierNormal::Positive, multiplier: 1 })
    }     else if key == "improve_relation_modifier"@ {
        Some(Modifier { id: "improve_relation_modifier", name: "Improve Relations", format: ModifierFormat::Percent, normal: ModifierNormal::Positive, multiplier: 100 })
    }     else if key == "infantry_cost"@ {
        Some(Modifier { id: "infantry_cost", name: "Infantry Cost", format: ModifierFormat::Percent, normal: ModifierNormal::Negative, multiplier: 100 })
    }     else if key == "infantry_fire"@ {
        Some(Modifier { id: "infantry_fire", name: "Infantry Fire", format: ModifierFormat::Flat, normal: ModifierNormal::Positive, multiplier: 1 })
    }     else if key == "infantry_power"@ {
        Some(Modifier { id: "infantry_power", name: "Infantry Combat Ability", format: ModifierFormat::Percent, normal: ModifierNormal::Positive, multiplier: 100 })
    }     else if key == "infantry_shock"@ {
        Some(Modifier { id: "infantry_shock", name: "Infantry Shock", format: ModifierFormat::Flat, normal: ModifierNormal::Positive, multiplier: 1 })
    }     else if key == "inflation_action_cost"@ {
        Some(Modifier { id: "inflation_action_cost", name: "Reduce Inflation Cost", format: ModifierFormat::Percent, normal: ModifierNormal::Negative, multiplier: 100 })
    }     else if key == "inflation_reduction"@ {
        Some(Modifier { id: "inflation_reduction", name: "Yearly Inflation Reduction", format: ModifierFormat::Flat, normal: ModifierNormal::Positive, multiplier: 1 })
    }     else if key == "innovativeness_gain"@ {
        Some(Modifier { id: "innovativeness_gain", name: "Innovativeness Gain", format: ModifierFormat::Percent, normal: ModifierNormal::Positive, multiplier: 100 })
    }     else if key == "institution_spread_from_true_faith"@ {
        Some(Modifier { id: "institution_spread_from_true_faith", name: "Institution Spread In True Faith Provinces", format: ModifierFormat::Percent, normal: ModifierNormal::Positive, multiplier: 100 })
    }     else if key == "interest"@ {
        Some(Modifier { id: "interest", name: "Interest Per Annum", format: ModifierFormat::Flat, normal: ModifierNormal::Negative, multiplier: 1 })
    }     else if key == "justify_trade_conflict_cost"@ {
        Some(Modifier { id: "justify_trade_conflict_cost", name: "Cost to justify trade conflict", format: ModifierFormat::Percent, normal: ModifierNormal::Negative, multiplier: 100 })
    }     else if key == "land_attrition"@ {
        Some(Modifier { id: "land_attrition", name: "Land Attrition", format: ModifierFormat::Percent, normal: ModifierNormal::Negative, multiplier: 100 })
    }     else if key == "land_forcelimit_modifier"@ {
        Some(Modifier { id: "land_forcelimit_modifier", name: "Land Force Limit Modifier", format: ModifierFormat::Percent, normal: ModifierNormal::Positive, multiplier: 100 })
    }     else if key == "land_maintenance_modifier"@ {
        Some(Modifier { id: "land_maintenance_modifier", name: "Land Maintenance Modifier", format: ModifierFormat::Percent, normal: ModifierNormal::Negative, multiplier: 100 })
    }     else if key == "land_morale"@ {
        Some(Modifier { id: "land_morale", name: "Morale of Armies", format: ModifierFormat::Percent, normal: ModifierNormal::Positive, multiplier: 100 })
    }     else if key == "leader_cost"@ {
        Some(Modifier { id: "leader_cost", name: "Leader Cost", format: ModifierFormat::Percent, normal: ModifierNormal::Negative, multiplier: 100 })
    }     else if key == "leader_land_fire"@ {
        Some(Modifier { id: "leader_land_fire", name: "Land Leader Fire", format: ModifierFormat::Flat, normal: ModifierNormal::Positive, multiplier: 1 })
    }     else if key == "leader_land_manuever"@ {
        Some(Modifier { id: "leader_land_manuever", name: "Land Leader Manoeuvre", format: ModifierFormat::Flat, normal: ModifierNormal::Positive, multiplier: 1 })
    }     else if key == "leader_land_shock"@ {
        Some(Modifier { id: "leader_land_shock", name: "Land Leader Shock", format: ModifierFormat::Flat, normal: ModifierNormal::Positive, multiplier: 1 })
    }     else if key == "leader_naval_fire"@ {
        Some(Modifier { id: "leader_naval_fire", name: "Naval Leader Fire", format: ModifierFormat::Flat, normal: ModifierNormal::Positive, multiplier: 1 })
    } else {
        None
    }
}

fn find_5(key: &str) -> (found: Option<Modifier>)
    ensures
        found == descriptor_5(key@),
{
    if text_eq(key, "harsh_treatment_cost") {
        Some(Modifier { id: "harsh_treatment_cost", name: "Harsh Treatment Cost", format: ModifierFormat::Percent, normal: ModifierNormal::Negative, multiplier: 100 })
    }     else if text_eq(key, "heavy_ship_cost") {
        Some(Modifier { id: "heavy_ship_cost", name: "Heavy Ship Cost", format: ModifierFormat::Percent, normal: ModifierNormal::Negative, multiplier: 100 })
    }     else if text_eq(key, "heavy_ship_hull_size_modifier") {
        Some(Modifier { id: "heavy_ship_hull_size_modifier", name: "Heavy Ship Hull Size", format: ModifierFormat::Percent, normal: ModifierNormal::Positive, multiplier: 100 })
    }     else if text_eq(key, "heavy_ship_power") {
        Some(Modifier { id: "heavy_ship_power", name: "Heavy Ship Combat Ability", format: ModifierFormat::Percent, normal: ModifierNormal::Positive, multiplier: 100 })
    }     else if text_eq(key, "heir_chance") {
        Some(Modifier { id: "heir_chance", name: "Chance of New Heir", format: ModifierFormat::Percent, normal: ModifierNormal::Positive, multiplier: 100 })
    }     else if text_eq(key, "horde_unity") {
        Some(Modifier { id: "horde_unity", name: "Yearly Horde Unity", format: ModifierFormat::Flat, normal: ModifierNormal::Positive, multiplier: 1 })
    }     else if text_eq(key, "hostile_attrition") {
        Some(Modifier { id: "hostile_attrition", name: "Attrition for Enemies", format: ModifierFormat::Flat, normal: ModifierNormal::Positive, multiplier: 1 })
    }     else if text_eq(key, "hull_size_modifier") {
        Some(Modifier { id: "hull_size_modifier", name: "Ship Hull Size", format: ModifierFormat::Percent, normal: ModifierNormal::Positive, multiplier: 100 })
    }     else if text_eq(key, "idea_claim_colonies") {
        Some(Modifier { id: "idea_claim_colonies", name: "Can Fabricate Claims in any colonial region belonging to another nation who are also overseas from the province, or to their colonial nations", format: ModifierFormat::NoValue, normal: ModifierNormal::Positive, multiplier: 1 })
    }     else if text_eq(key, "idea_cost") {
        Some(Modifier { id: "idea_cost", name: "Idea Cost", format: ModifierFormat::Percent, normal: ModifierNormal::Negative, multiplier: 100 })
    }     else if text_eq(key, "imperial_authority") {
        Some(Modifier { id: "imperial_authority", name: "Imperial Authority Growth Modifier", format: ModifierFormat::Percent, normal: ModifierNormal::Positive, multiplier: 100 })
    }     else if text_eq(key, "imperial_mandate") {
        Some(Modifier { id: "imperial_mandate", name: "Monthly Mandate", format: ModifierFormat::Flat, normal: ModifierNormal::Positive, multiplier: 1 })
    }     else if text_eq(key, "improve_relation_modifier") {
        Some(Modifier { id: "improve_relation_modifier", name: "Improve Relations", format: ModifierFormat::Percent, normal: ModifierNormal::Positive, multiplier: 100 })
    }     else if text_eq(key, "infantry_cost") {
        Some(Modifier { id: "infantry_cost", name: "Infantry Cost", format: ModifierFormat::Percent, normal: ModifierNormal::Negative, multiplier: 100 })
    }     else if text_eq(key, "infantry_fire") {
        Some(Modifier { id: "infantry_fire", name: "Infantry Fire", format: ModifierFormat::Flat, normal: ModifierNormal::Positive, multiplier: 1 })
    }     else if text_eq(key, "infantry_power") {
        Some(Modifier { id: "infantry_power", name: "Infantry Combat Ability", format: ModifierFormat::Percent, normal: ModifierNormal::Positive, multiplier: 100 })
    }     else if text_eq(key, "infantry_shock") {
        Some(Modifier { id: "infantry_shock", name: "Infantry Shock", format: ModifierFormat::Flat, normal: ModifierNormal::Positive, multiplier: 1 })
    }     else if text_eq(key, "inflation_action_cost") {
        Some(Modifier { id: "inflation_action_cost", name: "Reduce Inflation Cost", format: ModifierFormat::Percent, normal: ModifierNormal::Negative, multiplier: 100 })
    }     else if text_eq(key, "inflation_reduction") {
        Some(Modifier { id: "inflation_reduction", name: "Yearly Inflation Reduction", format: ModifierFormat::Flat, normal: ModifierNormal::Positive, multiplier: 1 })
    }     else if text_eq(key, "innovativeness_gain") {
        Some(Modifier { id: "innovativeness_gain", name: "Innovativeness Gain", format: ModifierFormat::Percent, normal: ModifierNormal::Positive, multiplier: 100 })
    }     else if text_eq(key, "institution_spread_from_true_faith") {
        Some(Modifier { id: "institution_spread_from_true_faith", name: "Institution Spread In True Faith Provinces", format: ModifierFormat::Percent, normal: ModifierNormal::Positive, multiplier: 100 })
    }     else if text_eq(key, "interest") {
        Some(Modifier { id: "interest", name: "Interest Per Annum", format: ModifierFormat::Flat, normal: ModifierNormal::Negative, multiplier: 1 })
    }     else if text_eq(key, "justify_trade_conflict_cost") {
        Some(Modifier { id: "justify_trade_conflict_cost", name: "Cost to justify trade conflict", format: ModifierFormat::Percent, normal: ModifierNormal::Negative, multiplier: 100 })
    }     else if text_eq(key, "land_attrition") {
        Some(Modifier { id: "land_attrition", name: "Land Attrition", format: ModifierFormat::Percent, normal: ModifierNormal::Negative, multiplier: 100 })
    }     else if text_eq(key, "land_forcelimit_modifier") {
        Some(Modifier { id: "land_forcelimit_modifier", name: "Land Force Limit Modifier", format: ModifierFormat::Percent, normal: ModifierNormal::Positive, multiplier: 100 })
    }     else if text_eq(key, "land_maintenance_modifier") {
        Some(Modifier { id: "land_maintenance_modifier", name: "Land Maintenance Modifier", format: ModifierFormat::Percent, normal: ModifierNormal::Negative, multiplier: 100 })
    }     else if text_eq(key, "land_morale") {
        Some(Modifier { id: "land_morale", name: "Morale of Armies", format: ModifierFormat::Percent, normal: ModifierNormal::Positive, multiplier: 100 })
    }     else if text_eq(key, "leader_cost") {
        Some(Modifier { id: "leader_cost", name: "Leader Cost", format: ModifierFormat::Percent, normal: ModifierNormal::Negative, multiplier: 100 })
    }     else if text_eq(key, "leader_land_fire") {
        Some(Modifier { id: "leader_land_fire", name: "Land Leader Fire", format: ModifierFormat::Flat, normal: ModifierNormal::Positive, multiplier: 1 })
    }     else if text_eq(key, "leader_land_manuever") {
        Some(Modifier { id: "leader_land_manuever", name: "Land Leader Manoeuvre", format: ModifierFormat::Flat, normal: ModifierNormal::Positive, multiplier: 1 })
    }     else if text_eq(key, "leader_land_shock") {
        Some(Modifier { id: "leader_land_shock", name: "Land Leader Shock", format: ModifierFormat::Flat, normal: ModifierNormal::Positive, multiplier: 1 })
    }     else if text_eq(key, "leader_naval_fire") {
        Some(Modifier { id: "leader_naval_fire", name: "Naval Leader Fire", format: ModifierFormat::Flat, normal: ModifierNormal::Positive, multiplier: 1 })
    } else {
        None
    }
}

proof fn lemma_descriptor_5(key: Seq<char>)
    ensures
        descriptor_5(key) matches Some(m) ==> m.id@ == key,
{
}

/// Part 6 of the table: `leader_naval_manuever` to `migration_cost`.
pub open spec fn descriptor_6(key: Seq<char>) -> Option<Modifier> {
    if key == "leader_naval_manuever"@ {
        Some(Modifier { id: "leader_naval_manuever", name: "Naval Leader Manoeuvre", format: ModifierFormat::Flat, normal: ModifierNormal::Positive, multiplier: 1 })
    }     else if key == "leader_naval_shock"@ {
        Some(Modifier { id: "leader_naval_shock", name: "Naval Leader Shock", format: ModifierFormat::Flat, normal: ModifierNormal::Positive, multiplier: 1 })
    }     else if key == "leader_siege"@ {
        Some(Modifier { id: "leader_siege", name: "Leader Siege", format: ModifierFormat::Flat, normal: ModifierNormal::Positive, multiplier: 1 })
    }     else if key == "legitimacy"@ {
        Some(Modifier { id: "legitimacy", name: "Yearly Legitimacy", format: ModifierFormat::Flat, normal: ModifierNormal::Positive, multiplier: 1 })
    }     else if key == "liberty_desire_from_subject_development"@ {
        Some(Modifier { id: "liberty_desire_from_subject_development", name: "Liberty Desire from Subject Development", format: ModifierFormat::Percent, normal: ModifierNormal::Negative, multiplier: 100 })
    }     else if key == "light_ship_cost"@ {
        Some(Modifier { id: "light_ship_cost", name: "Light Ship Cost", format: ModifierFormat::Percent, normal: ModifierNormal::Negative, multiplier: 100 })
    }     else if key == "light_ship_power"@ {
        Some(Modifier { id: "light_ship_power", name: "Light Ship Combat Ability", format: ModifierFormat::Percent, normal: ModifierNormal::Positive, multiplier: 100 })
    }     else if key == "loot_amount"@ {
        Some(Modifier { id: "loot_amount", name: "Looting Speed", format: ModifierFormat::Percent, normal: ModifierNormal::Positive, multiplier: 100 })
    }     else if key == "lowercastes_loyalty_modifier"@ {
        Some(Modifier { id: "lowercastes_loyalty_modifier", name: "Lower Castes Loyalty Equilibrium", format: ModifierFormat::Percent, normal: ModifierNormal::Positive, multiplier: 100 })
    }     else if key == "mages_loyalty_modifier"@ {
        Some(Modifier { id: "mages_loyalty_modifier", name: "Mages Loyalty Equilibrium", format: ModifierFormat::Percent, normal: ModifierNormal::Positive, multiplier: 100 })
    }     else if key == "manpower_in_accepted_culture_provinces"@ {
        Some(Modifier { id: "manpower_in_accepted_culture_provinces", name: "Manpower in Accepted Culture provinces", format: ModifierFormat::Percent, normal: ModifierNormal::Positive, multiplier: 100 })
    }     else if key == "manpower_in_culture_group_provinces"@ {
        Some(Modifier { id: "manpower_in_culture_group_provinces", name: "Manpower in same Culture Group provinces", format: ModifierFormat::Percent, normal: ModifierNormal::Positive, multiplier: 100 })
    }     else if key == "manpower_in_own_culture_provinces"@ {
        Some(Modifier { id: "manpower_in_own_culture_provinces", name: "Manpower in Primary Culture provinces", format: ModifierFormat::Percent, normal: ModifierNormal::Positive, multiplier: 100 })
    }     else if key == "manpower_in_true_faith_provinces"@ {
        Some(Modifier { id: "manpower_in_true_faith_provinces", name: "Manpower in True Faith provinces", format: ModifierFormat::Percent, normal: ModifierNormal::Positive, multiplier: 100 })
    }     else if key == "manpower_recovery_speed"@ {
        Some(Modifier { id: "manpower_recovery_speed", name: "Manpower Recovery Speed", format: ModifierFormat::Percent, normal: ModifierNormal::Positive, multiplier: 100 })
    }     else if key == "max_absolutism"@ {
        Some(Modifier { id: "max_absolutism", name: "Maximum Absolutism", format: ModifierFormat::Flat, normal: ModifierNormal::Positive, multiplier: 1 })
    }     else if key == "max_absolutism_effect"@ {
        Some(Modifier { id: "max_absolutism_effect", name: "Max Effect of Absolutism", format: ModifierFormat::Percent, normal: ModifierNormal::Positive, multiplier: 100 })
    }     else if key == "max_general_maneuver"@ {
        Some(Modifier { id: "max_general_maneuver", name: "Max General Manoeuvre", format: ModifierFormat::Flat, normal: ModifierNormal::Positive, multiplier: 1 })
    }     else if key == "max_hostile_attrition"@ {
        Some(Modifier { id: "max_hostile_attrition", name: "Max Hostile Attrition", format: ModifierFormat::Flat, normal: ModifierNormal::Positive, multiplier: 1 })
    }     else if key == "max_revolutionary_zeal"@ {
        Some(Modifier { id: "max_revolutionary_zeal", name: "Maximum Revolutionary Zeal", format: ModifierFormat::Flat, normal: ModifierNormal::Positive, multiplier: 1 })
    }     else if key == "may_explore"@ {
        Some(Modifier { id: "may_explore", name: "Allows recruitment of explorers & conquistadors", format: ModifierFormat::NoValue, normal: ModifierNormal::Positive, multiplier: 1 })
    }     else if key == "may_perform_slave_raid"@ {
        Some(Modifier { id: "may_perform_slave_raid", name: "May Raid Coasts", format: ModifierFormat::NoValue, normal: ModifierNormal::Positive, multiplier: 1 })
    }     else if key == "may_perform_slave_raid_on_same_religion"@ {
        Some(Modifier { id: "may_perform_slave_raid_on_same_religion", name: "May Raid Coasts, including coasts of countries with same religion", format: ModifierFormat::NoValue, normal: ModifierNormal::Positive, multiplier: 1 })
    }     else if key == "may_recruit_female_generals"@ {
        Some(Modifier { id: "may_recruit_female_generals", name: "May Recruit Female Generals", format: ModifierFormat::NoValue, normal: ModifierNormal::Positive, multiplier: 1 })
    }     else if key == "merc_leader_army_tradition"@ {
        Some(Modifier { id: "merc_leader_army_tradition", name: "Mercenary Leader Army Tradition", format: ModifierFormat::Percent, normal: ModifierNormal::Positive, multiplier: 100 })
    }     else if key == "merc_maintenance_modifier"@ {
        Some(Modifier { id: "merc_maintenance_modifier", name: "Mercenary Maintenance", format: ModifierFormat::Percent, normal: ModifierNormal::Negative, multiplier: 100 })
    }     else if key == "mercantilism_cost"@ {
        Some(Modifier { id: "mercantilism_cost", name: "Cost to Promote Mercantilism", format: ModifierFormat::Percent, normal: ModifierNormal::Negative, multiplier: 100 })
    }     else if key == "mercenary_cost"@ {
        Some(Modifier { id: "mercenary_cost", name: "Mercenary Cost", format: ModifierFormat::Percent, normal: ModifierNormal::Negative, multiplier: 100 })
    }     else if key == "mercenary_discipline"@ {
        Some(Modifier { id: "mercenary_discipline", name: "Mercenary Discipline", format: ModifierFormat::Percent, normal: ModifierNormal::Positive, multiplier: 100 })
    }     else if key == "mercenary_manpower"@ {
        Some(Modifier { id: "mercenary_manpower", name: "Mercenary Manpower", format: ModifierFormat::Percent, normal: ModifierNormal::Positive, multiplier: 100 })
    }     else if key == "merchants"@ {
        Some(Modifier { id: "merchants", name: "Merchants", format: ModifierFormat::Flat, normal: ModifierNormal::Positive, multiplier: 1 })
    }     else if key == "migration_cost"@ {
        Some(Modifier { id: "migration_cost", name: "Migration Cost", format: ModifierFormat::Percent, normal: ModifierNormal::Negative, multiplier: 100 })
    } else {
        None
    }
}

fn find_6(key: &str) -> (found: Option<Modifier>)
    ensures
        found == descriptor_6(key@),
{
    if text_eq(key, "leader_naval_manuever") {
        Some(Modifier { id: "leader_naval_manuever", name: "Naval Leader Manoeuvre", format: ModifierFormat::Flat, normal: ModifierNormal::Positive, multiplier: 1 })
    }     else if text_eq(key, "leader_naval_shock") {
        Some(Modifier { id: "leader_naval_shock", name: "Naval Leader Shock", format: ModifierFormat::Flat, normal: ModifierNormal::Positive, multiplier: 1 })
    }     else if text_eq(key, "leader_siege") {
        Some(Modifier { id: "leader_siege", name: "Leader Siege", format: ModifierFormat::Flat, normal: ModifierNormal::Positive, multiplier: 1 })
    }     else if text_eq(key, "legitimacy") {
        Some(Modifier { id: "legitimacy", name: "Yearly Legitimacy", format: ModifierFormat::Flat, normal: ModifierNormal::Positive, multiplier: 1 })
    }     else if text_eq(key, "liberty_desire_from_subject_development") {
        Some(Modifier { id: "liberty_desire_from_subject_development", name: "Liberty Desire from Subject Development", format: ModifierFormat::Percent, normal: ModifierNormal::Negative, multiplier: 100 })
    }     else if text_eq(key, "light_ship_cost") {
        Some(Modifier { id: "light_ship_cost", name: "Light Ship Cost", format: ModifierFormat::Percent, normal: ModifierNormal::Negative, multiplier: 100 })
    }     else if text_eq(key, "light_ship_power") {
        Some(Modifier { id: "light_ship_power", name: "Light Ship Combat Ability", format: ModifierFormat::Percent, normal: ModifierNormal::Positive, multiplier: 100 })
    }     else if text_eq(key, "loot_amount") {
        Some(Modifier { id: "loot_amount", name: "Looting Speed", format: ModifierFormat::Percent, normal: ModifierNormal::Positive, multiplier: 100 })
    }     else if text_eq(key, "lowercastes_loyalty_modifier") {
        Some(Modifier { id: "lowercastes_loyalty_modifier", name: "Lower Castes Loyalty Equilibrium", format: ModifierFormat::Percent, normal: ModifierNormal::Positive, multiplier: 100 })
    }     else if text_eq(key, "mages_loyalty_modifier") {
        Some(Modifier { id: "mages_loyalty_modifier", name: "Mages Loyalty Equilibrium", format: ModifierFormat::Percent, normal: ModifierNormal::Positive, multiplier: 100 })
    }     else if text_eq(key, "manpower_in_accepted_culture_provinces") {
        Some(Modifier { id: "manpower_in_accepted_culture_provinces", name: "Manpower in Accepted Culture provinces", format: ModifierFormat::Percent, normal: ModifierNormal::Positive, multiplier: 100 })
    }     else if text_eq(key, "manpower_in_culture_group_provinces") {
        Some(Modifier { id: "manpower_in_culture_group_provinces", name: "Manpower in same Culture Group provinces", format: ModifierFormat::Percent, normal: ModifierNormal::Positive, multiplier: 100 })
    }     else if text_eq(key, "manpower_in_own_culture_provinces") {
        Some(Modifier { id: "manpower_in_own_culture_provinces", name: "Manpower in Primary Culture provinces", format: ModifierFormat::Percent, normal: ModifierNormal::Positive, multiplier: 100 })
    }     else if text_eq(key, "manpower_in_true_faith_provinces") {
        Some(Modifier { id: "manpower_in_true_faith_provinces", name: "Manpower in True Faith provinces", format: ModifierFormat::Percent, normal: ModifierNormal::Positive, multiplier: 100 })
    }     else if text_eq(key, "manpower_recovery_speed") {
        Some(Modifier { id: "manpower_recovery_speed", name: "Manpower Recovery Speed", format: ModifierFormat::Percent, normal: ModifierNormal::Positive, multiplier: 100 })
    }     else if text_eq(key, "max_absolutism") {
        Some(Modifier { id: "max_absolutism", name: "Maximum Absolutism", format: ModifierFormat::Flat, normal: ModifierNormal::Positive, multiplier: 1 })
    }     else if text_eq(key, "max_absolutism_effect") {
        Some(Modifier { id: "max_absolutism_effect", name: "Max Effect of Absolutism", format: ModifierFormat::Percent, normal: ModifierNormal::Positive, multiplier: 100 })
    }     else if text_eq(key, "max_general_maneuver") {
        Some(Modifier { id: "max_general_maneuver", name: "Max General Manoeuvre", format: ModifierFormat::Flat, normal: ModifierNormal::Positive, multiplier: 1 })
    }     else if text_eq(key, "max_hostile_attrition") {
        Some(Modifier { id: "max_hostile_attrition", name: "Max Hostile Attrition", format: ModifierFormat::Flat, normal: ModifierNormal::Positive, multiplier: 1 })
    }     else if text_eq(key, "max_revolutionary_zeal") {
        Some(Modifier { id: "max_revolutionary_zeal", name: "Maximum Revolutionary Zeal", format: ModifierFormat::Flat, normal: ModifierNormal::Positive, multiplier: 1 })
    }     else if text_eq(key, "may_explore") {
        Some(Modifier { id: "may_explore", name: "Allows recruitment of explorers & conquistadors", format: ModifierFormat::NoValue, normal: ModifierNormal::Positive, multiplier: 1 })
    }     else if text_eq(key, "may_perform_slave_raid") {
        Some(Modifier { id: "may_perform_slave_raid", name: "May Raid Coasts", format: ModifierFormat::NoValue, normal: ModifierNormal::Positive, multiplier: 1 })
    }     else if text_eq(key, "may_perform_slave_raid_on_same_religion") {
        Some(Modifier { id: "may_perform_slave_raid_on_same_religion", name: "May Raid Coasts, including coasts of countries with same religion", format: ModifierFormat::NoValue, normal: ModifierNormal::Positive, multiplier: 1 })
    }     else if text_eq(key, "may_recruit_female_generals") {
        Some(Modifier { id: "may_recruit_female_generals", name: "May Recruit Female Generals", format: ModifierFormat::NoValue, normal: ModifierNormal::Positive, multiplier: 1 })
    }     else if text_eq(key, "merc_leader_army_tradition") {
        Some(Modifier { id: "merc_leader_army_tradition", name: "Mercenary Leader Army Tradition", format: ModifierFormat::Percent, normal: ModifierNormal::Positive, multiplier: 100 })
    }     else if text_eq(key, "merc_maintenance_modifier") {
        Some(Modifier { id: "merc_maintenance_modifier", name: "Mercenary Maintenance", format: ModifierFormat::Percent, normal: ModifierNormal::Negative, multiplier: 100 })
    }     else if text_eq(key, "mercantilism_cost") {
        Some(Modifier { id: "mercantilism_cost", name: "Cost to Promote Mercantilism", format: ModifierFormat::Percent, normal: ModifierNormal::Negative, multiplier: 100 })
    }     else if text_eq(key, "mercenary_cost") {
        Some(Modifier { id: "mercenary_cost", name: "Mercenary Cost", format: ModifierFormat::Percent, normal: ModifierNormal::Negative, multiplier: 100 })
    }     else if text_eq(key, "mercenary_discipline") {
        Some(Modifier { id: "mercenary_discipline", name: "Mercenary Discipline", format: ModifierFormat::Percent, normal: ModifierNormal::Positive, multiplier: 100 })
    }     else if text_eq(key, "mercenary_manpower") {
        Some(Modifier { id: "mercenary_manpower", name: "Mercenary Manpower", format: ModifierFormat::Percent, normal: ModifierNormal::Positive, multiplier: 100 })
    }     else if text_eq(key, "merchants") {
        Some(Modifier { id: "merchants", name: "Merchants", format: ModifierFormat::Flat, normal: ModifierNormal::Positive, multiplier: 1 })
    }     else if text_eq(key, "migration_cost") {
        Some(Modifier { id: "migration_cost", name: "Migration Cost", format: ModifierFormat::Percent, normal: ModifierNormal::Negative, multiplier: 100 })
    } else {
        None
    }
}

proof fn lemma_descriptor_6(key: Seq<char>)
    ensures
        descriptor_6(key) matches Some(m) ==> m.id@ == key,
{
}

/// Part 7 of the table: `mil_advisor_cost` to `naval_tradition_from_trade`.
pub open spec fn descriptor_7(key: Seq<char>) -> Option<Modifier> {
    if key == "mil_advisor_cost"@ {
        Some(Modifier { id: "mil_advisor_cost", name: "Military Advisor Cost", format: ModifierFormat::Percent, normal: ModifierNormal::Negative, multiplier: 100 })
    }     else if key == "mil_tech_cost_modifier"@ {
        Some(Modifier { id: "mil_tech_cost_modifier", name: "Military Technology Cost", format: ModifierFormat::Percent, normal: ModifierNormal::Negative, multiplier: 100 })
    }     else if key == "missionaries"@ {
        Some(Modifier { id: "missionaries", name: "Missionaries", format: ModifierFormat::Flat, normal: ModifierNormal::Positive, multiplier: 1 })
    }     else if key == "missionary_maintenance_cost"@ {
        Some(Modifier { id: "missionary_maintenance_cost", name: "Missionary Maintenance Cost", format: ModifierFormat::Percent, normal: ModifierNormal::Negative, multiplier: 100 })
    }     else if key == "monarch_admin_power"@ {
        Some(Modifier { id: "monarch_admin_power", name: "Monarch Administrative Skill", format: ModifierFormat::Flat, normal: ModifierNormal::Positive, multiplier: 1 })
    }     else if key == "monarch_diplomatic_power"@ {
        Some(Modifier { id: "monarch_diplomatic_power", name: "Monarch Diplomatic Skill", format: ModifierFormat::Flat, normal: ModifierNormal::Positive, multiplier: 1 })
    }     else if key == "monarch_lifespan"@ {
        Some(Modifier { id: "monarch_lifespan", name: "Average Monarch Lifespan", format: ModifierFormat::Percent, normal: ModifierNormal::Positive, multiplier: 100 })
    }     else if key == "monarch_military_power"@ {
        Some(Modifier { id: "monarch_military_power", name: "Monarch Military Skill", format: ModifierFormat::Flat, normal: ModifierNormal::Positive, multiplier: 1 })
    }     else if key == "monstrous_tribes_loyalty_modifier"@ {
        Some(Modifier { id: "monstrous_tribes_loyalty_modifier", name: "Monstrous Tribes Loyalty Equilibrium", format: ModifierFormat::Percent, normal: ModifierNormal::Positive, multiplier: 100 })
    }     else if key == "monthly_church_power"@ {
        Some(Modifier { id: "monthly_church_power", name: "Monthly Faith Power", format: ModifierFormat::Percent, normal: ModifierNormal::Positive, multiplier: 100 })
    }     else if key == "monthly_fervor_increase"@ {
        Some(Modifier { id: "monthly_fervor_increase", name: "Monthly Fervour", format: ModifierFormat::Flat, normal: ModifierNormal::Positive, multiplier: 1 })
    }     else if key == "monthly_gold_inflation_modifier"@ {
        Some(Modifier { id: "monthly_gold_inflation_modifier", name: "Monthly Gold Inflation Multiplier", format: ModifierFormat::Percent, normal: ModifierNormal::Negative, multiplier: 100 })
    }     else if key == "monthly_heir_claim_increase"@ {
        Some(Modifier { id: "monthly_heir_claim_increase", name: "Monthly Heir Claim Increase", format: ModifierFormat::Flat, normal: ModifierNormal::Positive, multiplier: 1 })
    }     else if key == "monthly_reform_progress_modifier"@ {
        Some(Modifier { id: "monthly_reform_progress_modifier", name: "Monthly Reform Progress Modifier", format: ModifierFormat::Percent, normal: ModifierNormal::Positive, multiplier: 100 })
    }     else if key == "monthly_splendor"@ {
        Some(Modifier { id: "monthly_splendor", name: "Monthly Splendour", format: ModifierFormat::Flat, normal: ModifierNormal::Positive, multiplier: 1 })
    }     else if key == "morale_damage"@ {
        Some(Modifier { id: "morale_damage", name: "Morale Damage", format: ModifierFormat::Percent, normal: ModifierNormal::Positive, multiplier: 100 })
    }     else if key == "morale_damage_received"@ {
        Some(Modifier { id: "morale_damage_received", name: "Morale Damage Received", format: ModifierFormat::Percent, normal: ModifierNormal::Negative, multiplier: 100 })
    }     else if key == "move_capital_cost_modifier"@ {
        Some(Modifier { id: "move_capital_cost_modifier", name: "Move Capital cost modifier", format: ModifierFormat::Percent, normal: ModifierNormal::Negative, multiplier: 100 })
    }     else if key == "movement_speed"@ {
        Some(Modifier { id: "movement_speed", name: "Movement Speed", format: ModifierFormat::Percent, normal: ModifierNormal::Positive, multiplier: 100 })
    }     else if key == "movement_speed_in_fleet_modifier"@ {
        Some(Modifier { id: "movement_speed_in_fleet_modifier", name: "Fleet Movement Speed", format: ModifierFormat::Percent, normal: ModifierNormal::Positive, multiplier: 100 })
    }     else if key == "movement_speed_onto_off_boat_modifier"@ {
        Some(Modifier { id: "movement_speed_onto_off_boat_modifier", name: "Movement Speed On and Off Ships", format: ModifierFormat::Percent, normal: ModifierNormal::Positive, multiplier: 100 })
    }     else if key == "national_focus_years"@ {
        Some(Modifier { id: "national_focus_years", name: "Change National Focus Cooldown Years", format: ModifierFormat::Flat, normal: ModifierNormal::Negative, multiplier: 1 })
    }     else if key == "native_assimilation"@ {
        Some(Modifier { id: "native_assimilation", name: "Native Assimilation", format: ModifierFormat::Percent, normal: ModifierNormal::Positive, multiplier: 100 })
    }     else if key == "native_uprising_chance"@ {
        Some(Modifier { id: "native_uprising_chance", name: "Native Uprising Chance", format: ModifierFormat::Percent, normal: ModifierNormal::Negative, multiplier: 100 })
    }     else if key == "naval_attrition"@ {
        Some(Modifier { id: "naval_attrition", name: "Naval Attrition", format: ModifierFormat::Percent, normal: ModifierNormal::Negative, multiplier: 100 })
    }     else if key == "naval_forcelimit_modifier"@ {
        Some(Modifier { id: "naval_forcelimit_modifier", name: "Naval Force Limit Modifier", format: ModifierFormat::Percent, normal: ModifierNormal::Positive, multiplier: 100 })
    }     else if key == "naval_maintenance_modifier"@ {
        Some(Modifier { id: "naval_maintenance_modifier", name: "Naval Maintenance Modifier", format: ModifierFormat::Percent, normal: ModifierNormal::Negative, multiplier: 100 })
    }     else if key == "naval_morale"@ {
        Some(Modifier { id: "naval_morale", name: "Morale of Navies", format: ModifierFormat::Percent, normal: ModifierNormal::Positive, multiplier: 100 })
    }     else if key == "naval_morale_damage"@ {
        Some(Modifier { id: "naval_morale_damage", name: "Naval Morale Damage", format: ModifierFormat::Percent, normal: ModifierNormal::Positive, multiplier: 100 })
    }     else if key == "naval_morale_damage_received"@ {
        Some(Modifier { id: "naval_morale_damage_received", name: "Naval Morale Damage Received", format: ModifierFormat::Percent, normal: ModifierNormal::Negative, multiplier: 100 })
    }     else if key == "naval_tradition_from_battle"@ {
        Some(Modifier { id: "naval_tradition_from_battle", name: "Naval Tradition From Battles", format: ModifierFormat::Percent, normal: ModifierNormal::Positive, multiplier: 100 })
    }     else if key == "naval_tradition_from_trade"@ {
        Some(Modifier { id: "naval_tradition_from_trade", name: "Naval Tradition From Trade", format: ModifierFormat::Percent, normal: ModifierNormal::Positive, multiplier: 100 })
    } else {
        None
    }
}

fn find_7(key: &str) -> (found: Option<Modifier>)
    ensures
        found == descriptor_7(key@),
{
    if text_eq(key, "mil_advisor_cost") {
        Some(Modifier { id: "mil_advisor_cost", name: "Military Advisor Cost", format: ModifierFormat::Percent, normal: ModifierNormal::Negative, multiplier: 100 })
    }     else if text_eq(key, "mil_tech_cost_modifier") {
        Some(Modifier { id: "mil_tech_cost_modifier", name: "Military Technology Cost", format: ModifierFormat::Percent, normal: ModifierNormal::Negative, multiplier: 100 })
    }     else if text_eq(key, "missionaries") {
        Some(Modifier { id: "missionaries", name: "Missionaries", format: ModifierFormat::Flat, normal: ModifierNormal::Positive, multiplier: 1 })
    }     else if text_eq(key, "missionary_maintenance_cost") {
        Some(Modifier { id: "missionary_maintenance_cost", name: "Missionary Maintenance Cost", format: ModifierFormat::Percent, normal: ModifierNormal::Negative, multiplier: 100 })
    }     else if text_eq(key, "monarch_admin_power") {
        Some(Modifier { id: "monarch_admin_power", name: "Monarch Administrative Skill", format: ModifierFormat::Flat, normal: ModifierNormal::Positive, multiplier: 1 })
    }     else if text_eq(key, "monarch_diplomatic_power") {
        Some(Modifier { id: "monarch_diplomatic_power", name: "Monarch Diplomatic Skill", format: ModifierFormat::Flat, normal: ModifierNormal::Positive, multiplier: 1 })
    }     else if text_eq(key, "monarch_lifespan") {
        Some(Modifier { id: "monarch_lifespan", name: "Average Monarch Lifespan", format: ModifierFormat::Percent, normal: ModifierNormal::Positive, multiplier: 100 })
    }     else if text_eq(key, "monarch_military_power") {
        Some(Modifier { id: "monarch_military_power", name: "Monarch Military Skill", format: ModifierFormat::Flat, normal: ModifierNormal::Positive, multiplier: 1 })
    }     else if text_eq(key, "monstrous_tribes_loyalty_modifier") {
        Some(Modifier { id: "monstrous_tribes_loyalty_modifier", name: "Monstrous Tribes Loyalty Equilibrium", format: ModifierFormat::Percent, normal: ModifierNormal::Positive, multiplier: 100 })
    }     else if text_eq(key, "monthly_church_power") {
        Some(Modifier { id: "monthly_church_power", name: "Monthly Faith Power", format: ModifierFormat::Percent, normal: ModifierNormal::Positive, multiplier: 100 })
    }     else if text_eq(key, "monthly_fervor_increase") {
        Some(Modifier { id: "monthly_fervor_increase", name: "Monthly Fervour", format: ModifierFormat::Flat, normal: ModifierNormal::Positive, multiplier: 1 })
    }     else if text_eq(key, "monthly_gold_inflation_modifier") {
        Some(Modifier { id: "monthly_gold_inflation_modifier", name: "Monthly Gold Inflation Multiplier", format: ModifierFormat::Percent, normal: ModifierNormal::Negative, multiplier: 100 })
    }     else if text_eq(key, "monthly_heir_claim_increase") {
        Some(Modifier { id: "monthly_heir_claim_increase", name: "Monthly Heir Claim Increase", format: ModifierFormat::Flat, normal: ModifierNormal::Positive, multiplier: 1 })
    }     else if text_eq(key, "monthly_reform_progress_modifier") {
        Some(Modifier { id: "monthly_reform_progress_modifier", name: "Monthly Reform Progress Modifier", format: ModifierFormat::Percent, normal: ModifierNormal::Positive, multiplier: 100 })
    }     else if text_eq(key, "monthly_splendor") {
        Some(Modifier { id: "monthly_splendor", name: "Monthly Splendour", format: ModifierFormat::Flat, normal: ModifierNormal::Positive, multiplier: 1 })
    }     else if text_eq(key, "morale_damage") {
        Some(Modifier { id: "morale_damage", name: "Morale Damage", format: ModifierFormat::Percent, normal: ModifierNormal::Positive, multiplier: 100 })
    }     else if text_eq(key, "morale_damage_received") {
        Some(Modifier { id: "morale_damage_received", name: "Morale Damage Received", format: ModifierFormat::Percent, normal: ModifierNormal::Negative, multiplier: 100 })
    }     else if text_eq(key, "move_capital_cost_modifier") {
        Some(Modifier { id: "move_capital_cost_modifier", name: "Move Capital cost modifier", format: ModifierFormat::Percent, normal: ModifierNormal::Negative, multiplier: 100 })
    }     else if text_eq(key, "movement_speed") {
        Some(Modifier { id: "movement_speed", name: "Movement Speed", format: ModifierFormat::Percent, normal: ModifierNormal::Positive, multiplier: 100 })
    }     else if text_eq(key, "movement_speed_in_fleet_modifier") {
        Some(Modifier { id: "movement_speed_in_fleet_modifier", name: "Fleet Movement Speed", format: ModifierFormat::Percent, normal: ModifierNormal::Positive, multiplier: 100 })
    }     else if text_eq(key, "movement_speed_onto_off_boat_modifier") {
        Some(Modifier { id: "movement_speed_onto_off_boat_modifier", name: "Movement Speed On and Off Ships", format: ModifierFormat::Percent, normal: ModifierNormal::Positive, multiplier: 100 })
    }     else if text_eq(key, "national_focus_years") {
        Some(Modifier { id: "national_focus_years", name: "Change National Focus Cooldown Years", format: ModifierFormat::Flat, normal: ModifierNormal::Negative, multiplier: 1 })
    }     else if text_eq(key, "native_assimilation") {
        Some(Modifier { id: "native_assimilation", name: "Native Assimilation", format: ModifierFormat::Percent, normal: ModifierNormal::Positive, multiplier: 100 })
    }     else if text_eq(key, "native_uprising_chance") {
        Some(Modifier { id: "native_uprising_chance", name: "Native Uprising Chance", format: ModifierFormat::Percent, normal: ModifierNormal::Negative, multiplier: 100 })
    }     else if text_eq(key, "naval_attrition") {
        Some(Modifier { id: "naval_attrition", name: "Naval Attrition", format: ModifierFormat::Percent, normal: ModifierNormal::Negative, multiplier: 100 })
    }     else if text_eq(key, "naval_forcelimit_modifier") {
        Some(Modifier { id: "naval_forcelimit_modifier", name: "Naval Force Limit Modifier", format: ModifierFormat::Percent, normal: ModifierNormal::Positive, multiplier: 100 })
    }     else if text_eq(key, "naval_maintenance_modifier") {
        Some(Modifier { id: "naval_maintenance_modifier", name: "Naval Maintenance Modifier", format: ModifierFormat::Percent, normal: ModifierNormal::Negative, multiplier: 100 })
    }     else if text_eq(key, "naval_morale") {
        Some(Modifier { id: "naval_morale", name: "Morale of Navies", format: ModifierFormat::Percent, normal: ModifierNormal::Positive, multiplier: 100 })
    }     else if text_eq(key, "naval_morale_damage") {
        Some(Modifier { id: "naval_morale_damage", name: "Naval Morale Damage", format: ModifierFormat::Percent, normal: ModifierNormal::Positive, multiplier: 100 })
    }     else if text_eq(key, "naval_morale_damage_received") {
        Some(Modifier { id: "naval_morale_damage_received", name: "Naval Morale Damage Received", format: ModifierFormat::Percent, normal: ModifierNormal::Negative, multiplier: 100 })
    }     else if text_eq(key, "naval_tradition_from_battle") {
        Some(Modifier { id: "naval_tradition_from_battle", name: "Naval Tradition From Battles", format: ModifierFormat::Percent, normal: ModifierNormal::Positive, multiplier: 100 })
    }     else if text_eq(key, "naval_tradition_from_trade") {
        Some(Modifier { id: "naval_tradition_from_trade", name: "Naval Tradition From Trade", format: ModifierFormat::Percent, normal: ModifierNormal::Positive, multiplier: 100 })
    } else {
        None
    }
}

proof fn lemma_descriptor_7(key: Seq<char>)
    ensures
        descriptor_7(key) matches Some(m) ==> m.id@ == key,
{
}

/// Part 8 of the table: `navy_tradition` to `reduced_liberty_desire`.
pub open spec fn descriptor_8(key: Seq<char>) -> Option<Modifier> {
    if key == "navy_tradition"@ {
        Some(Modifier { id: "navy_tradition", name: "Yearly Navy Tradition", format: ModifierFormat::Flat, normal: ModifierNormal::Positive, multiplier: 1 })
    }     else if key == "navy_tradition_decay"@ {
        Some(Modifier { id: "navy_tradition_decay", name: "Yearly Naval Tradition Decay", format: ModifierFormat::Percent, normal: ModifierNormal::Negative, multiplier: 100 })
    }     else if key == "no_religion_penalty"@ {
        Some(Modifier { id: "no_religion_penalty", name: "Heretic and heathen provinces do not give any penalties", format: ModifierFormat::NoValue, normal: ModifierNormal::Positive, multiplier: 1 })
    }     else if key == "nobles_influence_modifier"@ {
        Some(Modifier { id: "nobles_influence_modifier", name: "Nobility Influence", format: ModifierFormat::Percent, normal: ModifierNormal::Negative, multiplier: 100 })
    }     else if key == "nobles_loyalty_modifier"@ {
        Some(Modifier { id: "nobles_loyalty_modifier", name: "Nobility Loyalty Equilibrium", format: ModifierFormat::Percent, normal: ModifierNormal::Positive, multiplier: 100 })
    }     else if key == "num_accepted_cultures"@ {
        Some(Modifier { id: "num_accepted_cultures", name: "Max Promoted Cultures", format: ModifierFormat::Flat, normal: ModifierNormal::Positive, multiplier: 1 })
    }     else if key == "number_of_cannons_modifier"@ {
        Some(Modifier { id: "number_of_cannons_modifier", name: "Number of Cannons Modifier", format: ModifierFormat::Percent, normal: ModifierNormal::Negative, multiplier: 100 })
    }     else if key == "own_coast_naval_combat_bonus"@ {
        Some(Modifier { id: "own_coast_naval_combat_bonus", name: "Naval Combat Bonus off owned coast", format: ModifierFormat::Flat, normal: ModifierNormal::Positive, multiplier: 1 })
    }     else if key == "papal_influence"@ {
        Some(Modifier { id: "papal_influence", name: "Yearly Rectorate Influence", format: ModifierFormat::Flat, normal: ModifierNormal::Positive, multiplier: 1 })
    }     else if key == "papal_influence_from_cardinals"@ {
        Some(Modifier { id: "papal_influence_from_cardinals", name: "Rectorate Influence from Veridicals", format: ModifierFormat::Percent, normal: ModifierNormal::Positive, multiplier: 100 })
    }     else if key == "placed_merchant_power"@ {
        Some(Modifier { id: "placed_merchant_power", name: "Merchant Trade Power", format: ModifierFormat::Flat, normal: ModifierNormal::Positive, multiplier: 1 })
    }     else if key == "possible_adm_policy"@ {
        Some(Modifier { id: "possible_adm_policy", name: "Administrative Possible Policies", format: ModifierFormat::Flat, normal: ModifierNormal::Positive, multiplier: 1 })
    }     else if key == "possible_condottieri"@ {
        Some(Modifier { id: "possible_condottieri", name: "Possible Condottieri", format: ModifierFormat::Percent, normal: ModifierNormal::Positive, multiplier: 100 })
    }     else if key == "possible_dip_policy"@ {
        Some(Modifier { id: "possible_dip_policy", name: "Diplomatic Possible Policies", format: ModifierFormat::Flat, normal: ModifierNormal::Positive, multiplier: 1 })
    }     else if key == "possible_mil_policy"@ {
        Some(Modifier { id: "possible_mil_policy", name: "Military Possible Policies", format: ModifierFormat::Flat, normal: ModifierNormal::Positive, multiplier: 1 })
    }     else if key == "possible_policy"@ {
        Some(Modifier { id: "possible_policy", name: "Possible Policies", format: ModifierFormat::Flat, normal: ModifierNormal::Positive, multiplier: 1 })
    }     else if key == "power_projection_from_insults"@ {
        Some(Modifier { id: "power_projection_from_insults", name: "Power Projection From Insults", format: ModifierFormat::Percent, normal: ModifierNormal::Positive, multiplier: 100 })
    }     else if key == "prestige"@ {
        Some(Modifier { id: "prestige", name: "Yearly Prestige", format: ModifierFormat::Flat, normal: ModifierNormal::Positive, multiplier: 1 })
    }     else if key == "prestige_decay"@ {
        Some(Modifier { id: "prestige_decay", name: "Prestige Decay", format: ModifierFormat::Percent, normal: ModifierNormal::Negative, multiplier: 100 })
    }     else if key == "prestige_from_land"@ {
        Some(Modifier { id: "prestige_from_land", name: "Prestige from Land battles", format: ModifierFormat::Percent, normal: ModifierNormal::Positive, multiplier: 100 })
    }     else if key == "prestige_from_naval"@ {
        Some(Modifier { id: "prestige_from_naval", name: "Prestige from Naval battles", format: ModifierFormat::Percent, normal: ModifierNormal::Positive, multiplier: 100 })
    }     else if key == "prestige_per_development_from_conversion"@ {
        Some(Modifier { id: "prestige_per_development_from_conversion", name: "Prestige per Development From Conversion", format: ModifierFormat::Percent, normal: ModifierNormal::Positive, multiplier: 100 })
    }     else if key == "privateer_efficiency"@ {
        Some(Modifier { id: "privateer_efficiency", name: "Privateer Efficiency", format: ModifierFormat::Percent, normal: ModifierNormal::Positive, multiplier: 100 })
    }     else if key == "production_efficiency"@ {
        Some(Modifier { id: "production_efficiency", name: "Production Efficiency", format: ModifierFormat::Percent, normal: ModifierNormal::Positive, multiplier: 100 })
    }     else if key == "promote_culture_cost"@ {
        Some(Modifier { id: "promote_culture_cost", name: "Promote Culture Cost", format: ModifierFormat::Percent, normal: ModifierNormal::Negative, multiplier: 100 })
    }     else if key == "province_warscore_cost"@ {
        Some(Modifier { id: "province_warscore_cost", name: "Province War Score Cost", format: ModifierFormat::Percent, normal: ModifierNormal::Negative, multiplier: 100 })
    }     else if key == "raj_ministries_loyalty_modifier"@ {
        Some(Modifier { id: "raj_ministries_loyalty_modifier", name: "Raj Ministries Loyalty Equilibrium", format: ModifierFormat::Percent, normal: ModifierNormal::Positive, multiplier: 100 })
    }     else if key == "range"@ {
        Some(Modifier { id: "range", name: "Colonial Range", format: ModifierFormat::Percent, normal: ModifierNormal::Positive, multiplier: 100 })
    }     else if key == "raze_power_gain"@ {
        Some(Modifier { id: "raze_power_gain", name: "Razing Power Gain", format: ModifierFormat::Percent, normal: ModifierNormal::Positive, multiplier: 100 })
    }     else if key == "rebel_support_efficiency"@ {
        Some(Modifier { id: "rebel_support_efficiency", name: "Rebel Support Efficiency", format: ModifierFormat::Percent, normal: ModifierNormal::Positive, multiplier: 100 })
    }     else if key == "recover_army_morale_speed"@ {
        Some(Modifier { id: "recover_army_morale_speed", name: "Recover Army Morale Speed", format: ModifierFormat::Percent, normal: ModifierNormal::Positive, multiplier: 100 })
    }     else if key == "reduced_liberty_desire"@ {
        Some(Modifier { id: "reduced_liberty_desire", name: "Liberty Desire in Subjects", format: ModifierFormat::Percent, normal: ModifierNormal::Positive, multiplier: 1 })
    } else {
        None
    }
}

fn find_8(key: &str) -> (found: Option<Modifier>)
    ensures
        found == descriptor_8(key@),
{
    if text_eq(key, "navy_tradition") {
        Some(Modifier { id: "navy_tradition", name: "Yearly Navy Tradition", format: ModifierFormat::Flat, normal: ModifierNormal::Positive, multiplier: 1 })
    }     else if text_eq(key, "navy_tradition_decay") {
        Some(Modifier { id: "navy_tradition_decay", name: "Yearly Naval Tradition Decay", format: ModifierFormat::Percent, normal: ModifierNormal::Negative, multiplier: 100 })
    }     else if text_eq(key, "no_religion_penalty") {
        Some(Modifier { id: "no_religion_penalty", name: "Heretic and heathen provinces do not give any penalties", format: ModifierFormat::NoValue, normal: ModifierNormal::Positive, multiplier: 1 })
    }     else if text_eq(key, "nobles_influence_modifier") {
        Some(Modifier { id: "nobles_influence_modifier", name: "Nobility Influence", format: ModifierFormat::Percent, normal: ModifierNormal::Negative, multiplier: 100 })
    }     else if text_eq(key, "nobles_loyalty_modifier") {
        Some(Modifier { id: "nobles_loyalty_modifier", name: "Nobility Loyalty Equilibrium", format: ModifierFormat::Percent, normal: ModifierNormal::Positive, multiplier: 100 })
    }     else if text_eq(key, "num_accepted_cultures") {
        Some(Modifier { id: "num_accepted_cultures", name: "Max Promoted Cultures", format: ModifierFormat::Flat, normal: ModifierNormal::Positive, multiplier: 1 })
    }     else if text_eq(key, "number_of_cannons_modifier") {
        Some(Modifier { id: "number_of_cannons_modifier", name: "Number of Cannons Modifier", format: ModifierFormat::Percent, normal: ModifierNormal::Negative, multiplier: 100 })
    }     else if text_eq(key, "own_coast_naval_combat_bonus") {
        Some(Modifier { id: "own_coast_naval_combat_bonus", name: "Naval Combat Bonus off owned coast", format: ModifierFormat::Flat, normal: ModifierNormal::Positive, multiplier: 1 })
    }     else if text_eq(key, "papal_influence") {
        Some(Modifier { id: "papal_influence", name: "Yearly Rectorate Influence", format: ModifierFormat::Flat, normal: ModifierNormal::Positive, multiplier: 1 })
    }     else if text_eq(key, "papal_influence_from_cardinals") {
        Some(Modifier { id: "papal_influence_from_cardinals", name: "Rectorate Influence from Veridicals", format: ModifierFormat::Percent, normal: ModifierNormal::Positive, multiplier: 100 })
    }     else if text_eq(key, "placed_merchant_power") {
        Some(Modifier { id: "placed_merchant_power", name: "Merchant Trade Power", format: ModifierFormat::Flat, normal: ModifierNormal::Positive, multiplier: 1 })
    }     else if text_eq(key, "possible_adm_policy") {
        Some(Modifier { id: "possible_adm_policy", name: "Administrative Possible Policies", format: ModifierFormat::Flat, normal: ModifierNormal::Positive, multiplier: 1 })
    }     else if text_eq(key, "possible_condottieri") {
        Some(Modifier { id: "possible_condottieri", name: "Possible Condottieri", format: ModifierFormat::Percent, normal: ModifierNormal::Positive, multiplier: 100 })
    }     else if text_eq(key, "possible_dip_policy") {
        Some(Modifier { id: "possible_dip_policy", name: "Diplomatic Possible Policies", format: ModifierFormat::Flat, normal: ModifierNormal::Positive, multiplier: 1 })
    }     else if text_eq(key, "possible_mil_policy") {
        Some(Modifier { id: "possible_mil_policy", name: "Military Possible Policies", format: ModifierFormat::Flat, normal: ModifierNormal::Positive, multiplier: 1 })
    }     else if text_eq(key, "possible_policy") {
        Some(Modifier { id: "possible_policy", name: "Possible Policies", format: ModifierFormat::Flat, normal: ModifierNormal::Positive, multiplier: 1 })
    }     else if text_eq(key, "power_projection_from_insults") {
        Some(Modifier { id: "power_projection_from_insults", name: "Power Projection From Insults", format: ModifierFormat::Percent, normal: ModifierNormal::Positive, multiplier: 100 })
    }     else if text_eq(key, "prestige") {
        Some(Modifier { id: "prestige", name: "Yearly Prestige", format: ModifierFormat::Flat, normal: ModifierNormal::Positive, multiplier: 1 })
    }     else if text_eq(key, "prestige_decay") {
        Some(Modifier { id: "prestige_decay", name: "Prestige Decay", format: ModifierFormat::Percent, normal: ModifierNormal::Negative, multiplier: 100 })
    }     else if text_eq(key, "prestige_from_land") {
        Some(Modifier { id: "prestige_from_land", name: "Prestige from Land battles", format: ModifierFormat::Percent, normal: ModifierNormal::Positive, multiplier: 100 })
    }     else if text_eq(key, "prestige_from_naval") {
        Some(Modifier { id: "prestige_from_naval", name: "Prestige from Naval battles", format: ModifierFormat::Percent, normal: ModifierNormal::Positive, multiplier: 100 })
    }     else if text_eq(key, "prestige_per_development_from_conversion") {
        Some(Modifier { id: "prestige_per_development_from_conversion", name: "Prestige per Development From Conversion", format: ModifierFormat::Percent, normal: ModifierNormal::Positive, multiplier: 100 })
    }     else if text_eq(key, "privateer_efficiency") {
        Some(Modifier { id: "privateer_efficiency", name: "Privateer Efficiency", format: ModifierFormat::Percent, normal: ModifierNormal::Positive, multiplier: 100 })
    }     else if text_eq(key, "production_efficiency") {
        Some(Modifier { id: "production_efficiency", name: "Production Efficiency", format: ModifierFormat::Percent, normal: ModifierNormal::Positive, multiplier: 100 })
    }     else if text_eq(key, "promote_culture_cost") {
        Some(Modifier { id: "promote_culture_cost", name: "Promote Culture Cost", format: ModifierFormat::Percent, normal: ModifierNormal::Negative, multiplier: 100 })
    }     else if text_eq(key, "province_warscore_cost") {
        Some(Modifier { id: "province_warscore_cost", name: "Province War Score Cost", format: ModifierFormat::Percent, normal: ModifierNormal::Negative, multiplier: 100 })
    }     else if text_eq(key, "raj_ministries_loyalty_modifier") {
        Some(Modifier { id: "raj_ministries_loyalty_modifier", name: "Raj Ministries Loyalty Equilibrium", format: ModifierFormat::Percent, normal: ModifierNormal::Positive, multiplier: 100 })
    }     else if text_eq(key, "range") {
        Some(Modifier { id: "range", name: "Colonial Range", format: ModifierFormat::Percent, normal: ModifierNormal::Positive, multiplier: 100 })
    }     else if text_eq(key, "raze_power_gain") {
        Some(Modifier { id: "raze_power_gain", name: "Razing Power Gain", format: ModifierFormat::Percent, normal: ModifierNormal::Positive, multiplier: 100 })
    }     else if text_eq(key, "rebel_support_efficiency") {
        Some(Modifier { id: "rebel_support_efficiency", name: "Rebel Support Efficiency", format: ModifierFormat::Percent, normal: ModifierNormal::Positive, multiplier: 100 })
    }     else if text_eq(key, "recover_army_morale_speed") {
        Some(Modifier { id: "recover_army_morale_speed", name: "Recover Army Morale Speed", format: ModifierFormat::Percent, normal: ModifierNormal::Positive, multiplier: 100 })
    }     else if text_eq(key, "reduced_liberty_desire") {
        Some(Modifier { id: "reduced_liberty_desire", name: "Liberty Desire in Subjects", format: ModifierFormat::Percent, normal: ModifierNormal::Positive, multiplier: 1 })
    } else {
        None
    }
}

proof fn lemma_descriptor_8(key: Seq<char>)
    ensures
        descriptor_8(key) matches Some(m) ==> m.id@ == key,
{
}

/// Part 9 of the table: `reduced_liberty_desire_on_other_continent` to `supply_limit_modifier`.
pub open spec fn descriptor_9(key: Seq<char>) -> Option<Modifier> {
    if key == "reduced_liberty_desire_on_other_continent"@ {
        Some(Modifier { id: "reduced_liberty_desire_on_other_continent", name: "Liberty Desire in Other Continent Subjects", format: ModifierFormat::Percent, normal: ModifierNormal::Positive, multiplier: 1 })
    }     else if key == "reduced_liberty_desire_on_same_continent"@ {
        Some(Modifier { id: "reduced_liberty_desire_on_same_continent", name: "Liberty Desire in Same Continent Subjects", format: ModifierFormat::Percent, normal: ModifierNormal::Positive, multiplier: 1 })
    }     else if key == "reelection_cost"@ {
        Some(Modifier { id: "reelection_cost", name: "Reelection Cost", format: ModifierFormat::Percent, normal: ModifierNormal::Negative, multiplier: 100 })
    }     else if key == "reform_progress_growth"@ {
        Some(Modifier { id: "reform_progress_growth", name: "Reform Progress Growth", format: ModifierFormat::Percent, normal: ModifierNormal::Positive, multiplier: 100 })
    }     else if key == "reinforce_cost_modifier"@ {
        Some(Modifier { id: "reinforce_cost_modifier", name: "Reinforce Cost", format: ModifierFormat::Percent, normal: ModifierNormal::Negative, multiplier: 100 })
    }     else if key == "reinforce_speed"@ {
        Some(Modifier { id: "reinforce_speed", name: "Reinforce Speed", format: ModifierFormat::Percent, normal: ModifierNormal::Positive, multiplier: 100 })
    }     else if key == "religious_unity"@ {
        Some(Modifier { id: "religious_unity", name: "Religious Unity", format: ModifierFormat::Percent, normal: ModifierNormal::Positive, multiplier: 100 })
    }     else if key == "republican_tradition"@ {
        Some(Modifier { id: "republican_tradition", name: "Yearly Republican Tradition", format: ModifierFormat::Flat, normal: ModifierNormal::Positive, multiplier: 1 })
    }     else if key == "reserves_organisation"@ {
        Some(Modifier { id: "reserves_organisation", name: "Reduced Morale Damage Taken By Reserves", format: ModifierFormat::Percent, normal: ModifierNormal::Positive, multiplier: 100 })
    }     else if key == "rival_border_fort_maintenance"@ {
        Some(Modifier { id: "rival_border_fort_maintenance", name: "Fort Maintenance on Border with Rival", format: ModifierFormat::Percent, normal: ModifierNormal::Negative, multiplier: 100 })
    }     else if key == "rival_change_cost"@ {
        Some(Modifier { id: "rival_change_cost", name: "Change Rival Cost", format: ModifierFormat::Percent, normal: ModifierNormal::Negative, multiplier: 100 })
    }     else if key == "sailor_maintenance_modifer"@ {
        Some(Modifier { id: "sailor_maintenance_modifer", name: "Sailor Maintenance", format: ModifierFormat::Percent, normal: ModifierNormal::Negative, multiplier: 100 })
    }     else if key == "sailor_maintenance_modifier"@ {
        Some(Modifier { id: "sailor_maintenance_modifier", name: "Sailor Maintenance", format: ModifierFormat::Percent, normal: ModifierNormal::Negative, multiplier: 100 })
    }     else if key == "sailors_recovery_speed"@ {
        Some(Modifier { id: "sailors_recovery_speed", name: "Sailor Recovery Speed", format: ModifierFormat::Percent, normal: ModifierNormal::Positive, multiplier: 100 })
    }     else if key == "same_culture_advisor_cost"@ {
        Some(Modifier { id: "same_culture_advisor_cost", name: "Cost of Advisors with Ruler's Culture", format: ModifierFormat::Percent, normal: ModifierNormal::Negative, multiplier: 100 })
    }     else if key == "same_religion_advisor_cost"@ {
        Some(Modifier { id: "same_religion_advisor_cost", name: "Cost of Advisors with Ruler's Religion", format: ModifierFormat::Percent, normal: ModifierNormal::Negative, multiplier: 100 })
    }     else if key == "sea_repair"@ {
        Some(Modifier { id: "sea_repair", name: "Ships can repair when in coastal sea zones", format: ModifierFormat::NoValue, normal: ModifierNormal::Positive, multiplier: 1 })
    }     else if key == "ship_durability"@ {
        Some(Modifier { id: "ship_durability", name: "Ship Durability", format: ModifierFormat::Percent, normal: ModifierNormal::Positive, multiplier: 100 })
    }     else if key == "ship_power_propagation"@ {
        Some(Modifier { id: "ship_power_propagation", name: "Ship Tradepower Propagation", format: ModifierFormat::Percent, normal: ModifierNormal::Positive, multiplier: 100 })
    }     else if key == "shock_damage"@ {
        Some(Modifier { id: "shock_damage", name: "Shock Damage", format: ModifierFormat::Percent, normal: ModifierNormal::Positive, multiplier: 100 })
    }     else if key == "shock_damage_received"@ {
        Some(Modifier { id: "shock_damage_received", name: "Shock Damage Received", format: ModifierFormat::Percent, normal: ModifierNormal::Negative, multiplier: 100 })
    }     else if key == "siege_ability"@ {
        Some(Modifier { id: "siege_ability", name: "Siege Ability", format: ModifierFormat::Percent, normal: ModifierNormal::Positive, multiplier: 100 })
    }     else if key == "siege_blockade_progress"@ {
        Some(Modifier { id: "siege_blockade_progress", name: "Blockade Impact on Siege", format: ModifierFormat::Flat, normal: ModifierNormal::Positive, multiplier: 1 })
    }     else if key == "spy_action_cost_modifier"@ {
        Some(Modifier { id: "spy_action_cost_modifier", name: "Spy Action Cost Modifier", format: ModifierFormat::Percent, normal: ModifierNormal::Negative, multiplier: 100 })
    }     else if key == "spy_offence"@ {
        Some(Modifier { id: "spy_offence", name: "Spy Network Construction", format: ModifierFormat::Percent, normal: ModifierNormal::Positive, multiplier: 100 })
    }     else if key == "stability_cost_modifier"@ {
        Some(Modifier { id: "stability_cost_modifier", name: "Stability Cost Modifier", format: ModifierFormat::Percent, normal: ModifierNormal::Negative, multiplier: 100 })
    }     else if key == "stability_cost_to_declare_war"@ {
        Some(Modifier { id: "stability_cost_to_declare_war", name: "Stability Hit to Declare War", format: ModifierFormat::Flat, normal: ModifierNormal::Negative, multiplier: 1 })
    }     else if key == "state_governing_cost"@ {
        Some(Modifier { id: "state_governing_cost", name: "States Governing Cost", format: ModifierFormat::Percent, normal: ModifierNormal::Negative, multiplier: 100 })
    }     else if key == "state_maintenance_modifier"@ {
        Some(Modifier { id: "state_maintenance_modifier", name: "State Maintenance", format: ModifierFormat::Percent, normal: ModifierNormal::Negative, multiplier: 100 })
    }     else if key == "sunk_ship_morale_hit_received"@ {
        Some(Modifier { id: "sunk_ship_morale_hit_received", name: "Morale Hit When Losing a Ship", format: ModifierFormat::Percent, normal: ModifierNormal::Negative, multiplier: 100 })
    }     else if key == "sunk_ship_morale_hit_recieved"@ {
        Some(Modifier { id: "sunk_ship_morale_hit_recieved", name: "Morale Hit When Losing a Ship", format: ModifierFormat::Percent, normal: ModifierNormal::Negative, multiplier: 100 })
    }     else if key == "supply_limit_modifier"@ {
        Some(Modifier { id: "supply_limit_modifier", name: "Supply Limit Modifier", format: ModifierFormat::Percent, normal: ModifierNormal::Positive, multiplier: 100 })
    } else {
        None
    }
}

fn find_9(key: &str) -> (found: Option<Modifier>)
    ensures
        found == descriptor_9(key@),
{
    if text_eq(key, "reduced_liberty_desire_on_other_continent") {
        Some(Modifier { id: "reduced_liberty_desire_on_other_continent", name: "Liberty Desire in Other Continent Subjects", format: ModifierFormat::Percent, normal: ModifierNormal::Positive, multiplier: 1 })
    }     else if text_eq(key, "reduced_liberty_desire_on_same_continent") {
        Some(Modifier { id: "reduced_liberty_desire_on_same_continent", name: "Liberty Desire in Same Continent Subjects", format: ModifierFormat::Percent, normal: ModifierNormal::Positive, multiplier: 1 })
    }     else if text_eq(key, "reelection_cost") {
        Some(Modifier { id: "reelection_cost", name: "Reelection Cost", format: ModifierFormat::Percent, normal: ModifierNormal::Negative, multiplier: 100 })
    }     else if text_eq(key, "reform_progress_growth") {
        Some(Modifier { id: "reform_progress_growth", name: "Reform Progress Growth", format: ModifierFormat::Percent, normal: ModifierNormal::Positive, multiplier: 100 })
    }     else if text_eq(key, "reinforce_cost_modifier") {
        Some(Modifier { id: "reinforce_cost_modifier", name: "Reinforce Cost", format: ModifierFormat::Percent, normal: ModifierNormal::Negative, multiplier: 100 })
    }     else if text_eq(key, "reinforce_speed") {
        Some(Modifier { id: "reinforce_speed", name: "Reinforce Speed", format: ModifierFormat::Percent, normal: ModifierNormal::Positive, multiplier: 100 })
    }     else if text_eq(key, "religious_unity") {
        Some(Modifier { id: "religious_unity", name: "Religious Unity", format: ModifierFormat::Percent, normal: ModifierNormal::Positive, multiplier: 100 })
    }     else if text_eq(key, "republican_tradition") {
        Some(Modifier { id: "republican_tradition", name: "Yearly Republican Tradition", format: ModifierFormat::Flat, normal: ModifierNormal::Positive, multiplier: 1 })
    }     else if text_eq(key, "reserves_organisation") {
        Some(Modifier { id: "reserves_organisation", name: "Reduced Morale Damage Taken By Reserves", format: ModifierFormat::Percent, normal: ModifierNormal::Positive, multiplier: 100 })
    }     else if text_eq(key, "rival_border_fort_maintenance") {
        Some(Modifier { id: "rival_border_fort_maintenance", name: "Fort Maintenance on Border with Rival", format: ModifierFormat::Percent, normal: ModifierNormal::Negative, multiplier: 100 })
    }     else if text_eq(key, "rival_change_cost") {
        Some(Modifier { id: "rival_change_cost", name: "Change Rival Cost", format: ModifierFormat::Percent, normal: ModifierNormal::Negative, multiplier: 100 })
    }     else if text_eq(key, "sailor_maintenance_modifer") {
        Some(Modifier { id: "sailor_maintenance_modifer", name: "Sailor Maintenance", format: ModifierFormat::Percent, normal: ModifierNormal::Negative, multiplier: 100 })
    }     else if text_eq(key, "sailor_maintenance_modifier") {
        Some(Modifier { id: "sailor_maintenance_modifier", name: "Sailor Maintenance", format: ModifierFormat::Percent, normal: ModifierNormal::Negative, multiplier: 100 })
    }     else if text_eq(key, "sailors_recovery_speed") {
        Some(Modifier { id: "sailors_recovery_speed", name: "Sailor Recovery Speed", format: ModifierFormat::Percent, normal: ModifierNormal::Positive, multiplier: 100 })
    }     else if text_eq(key, "same_culture_advisor_cost") {
        Some(Modifier { id: "same_culture_advisor_cost", name: "Cost of Advisors with Ruler's Culture", format: ModifierFormat::Percent, normal: ModifierNormal::Negative, multiplier: 100 })
    }     else if text_eq(key, "same_religion_advisor_cost") {
        Some(Modifier { id: "same_religion_advisor_cost", name: "Cost of Advisors with Ruler's Religion", format: ModifierFormat::Percent, normal: ModifierNormal::Negative, multiplier: 100 })
    }     else if text_eq(key, "sea_repair") {
        Some(Modifier { id: "sea_repair", name: "Ships can repair when in coastal sea zones", format: ModifierFormat::NoValue, normal: ModifierNormal::Positive, multiplier: 1 })
    }     else if text_eq(key, "ship_durability") {
        Some(Modifier { id: "ship_durability", name: "Ship Durability", format: ModifierFormat::Percent, normal: ModifierNormal::Positive, multiplier: 100 })
    }     else if text_eq(key, "ship_power_propagation") {
        Some(Modifier { id: "ship_power_propagation", name: "Ship Tradepower Propagation", format: ModifierFormat::Percent, normal: ModifierNormal::Positive, multiplier: 100 })
    }     else if text_eq(key, "shock_damage") {
        Some(Modifier { id: "shock_damage", name: "Shock Damage", format: ModifierFormat::Percent, normal: ModifierNormal::Positive, multiplier: 100 })
    }     else if text_eq(key, "shock_damage_received") {
        Some(Modifier { id: "shock_damage_received", name: "Shock Damage Received", format: ModifierFormat::Percent, normal: ModifierNormal::Negative, multiplier: 100 })
    }     else if text_eq(key, "siege_ability") {
        Some(Modifier { id: "siege_ability", name: "Siege Ability", format: ModifierFormat::Percent, normal: ModifierNormal::Positive, multiplier: 100 })
    }     else if text_eq(key, "siege_blockade_progress") {
        Some(Modifier { id: "siege_blockade_progress", name: "Blockade Impact on Siege", format: ModifierFormat::Flat, normal: ModifierNormal::Positive, multiplier: 1 })
    }     else if text_eq(key, "spy_action_cost_modifier") {
        Some(Modifier { id: "spy_action_cost_modifier", name: "Spy Action Cost Modifier", format: ModifierFormat::Percent, normal: ModifierNormal::Negative, multiplier: 100 })
    }     else if text_eq(key, "spy_offence") {
        Some(Modifier { id: "spy_offence", name: "Spy Network Construction", format: ModifierFormat::Percent, normal: ModifierNormal::Positive, multiplier: 100 })
    }     else if text_eq(key, "stability_cost_modifier") {
        Some(Modifier { id: "stability_cost_modifier", name: "Stability Cost Modifier", format: ModifierFormat::Percent, normal: ModifierNormal::Negative, multiplier: 100 })
    }     else if text_eq(key, "stability_cost_to_declare_war") {
        Some(Modifier { id: "stability_cost_to_declare_war", name: "Stability Hit to Declare War", format: ModifierFormat::Flat, normal: ModifierNormal::Negative, multiplier: 1 })
    }     else if text_eq(key, "state_governing_cost") {
        Some(Modifier { id: "state_governing_cost", name: "States Governing Cost", format: ModifierFormat::Percent, normal: ModifierNormal::Negative, multiplier: 100 })
    }     else if text_eq(key, "state_maintenance_modifier") {
        Some(Modifier { id: "state_maintenance_modifier", name: "State Maintenance", format: ModifierFormat::Percent, normal: ModifierNormal::Negative, multiplier: 100 })
    }     else if text_eq(key, "sunk_ship_morale_hit_received") {
        Some(Modifier { id: "sunk_ship_morale_hit_received", name: "Morale Hit When Losing a Ship", format: ModifierFormat::Percent, normal: ModifierNormal::Negative, multiplier: 100 })
    }     else if text_eq(key, "sunk_ship_morale_hit_recieved") {
        Some(Modifier { id: "sunk_ship_morale_hit_recieved", name: "Morale Hit When Losing a Ship", format: ModifierFormat::Percent, normal: ModifierNormal::Negative, multiplier: 100 })
    }     else if text_eq(key, "supply_limit_modifier") {
        Some(Modifier { id: "supply_limit_modifier", name: "Supply Limit Modifier", format: ModifierFormat::Percent, normal: ModifierNormal::Positive, multiplier: 100 })
    } else {
        None
    }
}

proof fn lemma_descriptor_9(key: Seq<char>)
    ensures
        descriptor_9(key) matches Some(m) ==> m.id@ == key,
{
}

/// Part 10 of the table: `technology_cost` to `years_of_nationalism`.
pub open spec fn descriptor_10(key: Seq<char>) -> Option<Modifier> {
    if key == "technology_cost"@ {
        Some(Modifier { id: "technology_cost", name: "Technology Cost", format: ModifierFormat::Percent, normal: ModifierNormal::Negative, multiplier: 100 })
    }     else if key == "tiger_command_influence_modifier"@ {
        Some(Modifier { id: "tiger_command_influence_modifier", name: "Tiger Command Influence", format: ModifierFormat::Percent, normal: ModifierNormal::Positive, multiplier: 100 })
    }     else if key == "tiger_command_loyalty_modifier"@ {
        Some(Modifier { id: "tiger_command_loyalty_modifier", name: "Tiger Command Loyalty Equilibrium", format: ModifierFormat::Percent, normal: ModifierNormal::Positive, multiplier: 100 })
    }     else if key == "tolerance_heathen"@ {
        Some(Modifier { id: "tolerance_heathen", name: "Tolerance of Heathens", format: ModifierFormat::Flat, normal: ModifierNormal::Positive, multiplier: 1 })
    }     else if key == "tolerance_heretic"@ {
        Some(Modifier { id: "tolerance_heretic", name: "Tolerance of Heretics", format: ModifierFormat::Flat, normal: ModifierNormal::Positive, multiplier: 1 })
    }     else if key == "tolerance_own"@ {
        Some(Modifier { id: "tolerance_own", name: "Tolerance of the True Faith", format: ModifierFormat::Flat, normal: ModifierNormal::Positive, multiplier: 1 })
    }     else if key == "trade_company_investment_cost"@ {
        Some(Modifier { id: "trade_company_investment_cost", name: "Trade Company Investment Cost", format: ModifierFormat::Percent, normal: ModifierNormal::Negative, multiplier: 100 })
    }     else if key == "trade_efficiency"@ {
        Some(Modifier { id: "trade_efficiency", name: "Trade Efficiency", format: ModifierFormat::Percent, normal: ModifierNormal::Positive, multiplier: 100 })
    }     else if key == "trade_range_modifier"@ {
        Some(Modifier { id: "trade_range_modifier", name: "Trade Range", format: ModifierFormat::Percent, normal: ModifierNormal::Positive, multiplier: 100 })
    }     else if key == "trade_steering"@ {
        Some(Modifier { id: "trade_steering", name: "Trade Steering", format: ModifierFormat::Percent, normal: ModifierNormal::Positive, multiplier: 100 })
    }     else if key == "transport_cost"@ {
        Some(Modifier { id: "transport_cost", name: "Transport Cost", format: ModifierFormat::Percent, normal: ModifierNormal::Negative, multiplier: 100 })
    }     else if key == "transport_power"@ {
        Some(Modifier { id: "transport_power", name: "Transport Ship Combat Ability", format: ModifierFormat::Percent, normal: ModifierNormal::Positive, multiplier: 100 })
    }     else if key == "unjustified_demands"@ {
        Some(Modifier { id: "unjustified_demands", name: "Unjustified Demands", format: ModifierFormat::Percent, normal: ModifierNormal::Negative, multiplier: 100 })
    }     else if key == "uppercastes_loyalty_modifier"@ {
        Some(Modifier { id: "uppercastes_loyalty_modifier", name: "Upper Castes Loyalty Equilibrium", format: ModifierFormat::Percent, normal: ModifierNormal::Positive, multiplier: 100 })
    }     else if key == "vassal_forcelimit_bonus"@ {
        Some(Modifier { id: "vassal_forcelimit_bonus", name: "Vassal Force Limit Contribution", format: ModifierFormat::Percent, normal: ModifierNormal::Positive, multiplier: 100 })
    }     else if key == "vassal_income"@ {
        Some(Modifier { id: "vassal_income", name: "Income from Vassals", format: ModifierFormat::Percent, normal: ModifierNormal::Positive, multiplier: 100 })
    }     else if key == "war_exhaustion"@ {
        Some(Modifier { id: "war_exhaustion", name: "Monthly War Exhaustion", format: ModifierFormat::Flat, normal: ModifierNormal::Negative, multiplier: 1 })
    }     else if key == "war_exhaustion_cost"@ {
        Some(Modifier { id: "war_exhaustion_cost", name: "Cost of Reducing War Exhaustion", format: ModifierFormat::Percent, normal: ModifierNormal::Negative, multiplier: 100 })
    }     else if key == "war_taxes_cost_modifier"@ {
        Some(Modifier { id: "war_taxes_cost_modifier", name: "War Taxes Cost", format: ModifierFormat::Percent, normal: ModifierNormal::Negative, multiplier: 100 })
    }     else if key == "warscore_cost_vs_other_religion"@ {
        Some(Modifier { id: "warscore_cost_vs_other_religion", name: "War Score Cost vs Other Religions", format: ModifierFormat::Percent, normal: ModifierNormal::Negative, multiplier: 100 })
    }     else if key == "yearly_absolutism"@ {
        Some(Modifier { id: "yearly_absolutism", name: "Yearly Absolutism", format: ModifierFormat::Flat, normal: ModifierNormal::Positive, multiplier: 1 })
    }     else if key == "yearly_army_professionalism"@ {
        Some(Modifier { id: "yearly_army_professionalism", name: "Yearly Army Professionalism", format: ModifierFormat::Percent, normal: ModifierNormal::Positive, multiplier: 100 })
    }     else if key == "yearly_corruption"@ {
        Some(Modifier { id: "yearly_corruption", name: "Yearly Corruption", format: ModifierFormat::Flat, normal: ModifierNormal::Negative, multiplier: 1 })
    }     else if key == "yearly_government_power"@ {
        Some(Modifier { id: "yearly_government_power", name: "Yearly Government Power", format: ModifierFormat::Flat, normal: ModifierNormal::Positive, multiplier: 1 })
    }     else if key == "yearly_harmony"@ {
        Some(Modifier { id: "yearly_harmony", name: "Yearly Harmony", format: ModifierFormat::Flat, normal: ModifierNormal::Negative, multiplier: 1 })
    }     else if key == "yearly_karma_decay"@ {
        Some(Modifier { id: "yearly_karma_decay", name: "Yearly Corinite Paragonhood Decay", format: ModifierFormat::Flat, normal: ModifierNormal::Positive, multiplier: 1 })
    }     else if key == "yearly_patriarch_authority"@ {
        Some(Modifier { id: "yearly_patriarch_authority", name: "Yearly Demonic Power", format: ModifierFormat::Flat, normal: ModifierNormal::Negative, multiplier: 1 })
    }     else if key == "years_of_nationalism"@ {
        Some(Modifier { id: "years_of_nationalism", name: "Years of Separatism", format: ModifierFormat::Flat, normal: ModifierNormal::Negative, multiplier: 1 })
    } else {
        None
    }
}

fn find_10(key: &str) -> (found: Option<Modifier>)
    ensures
        found == descriptor_10(key@),
{
    if text_eq(key, "technology_cost") {
        Some(Modifier { id: "technology_cost", name: "Technology Cost", format: ModifierFormat::Percent, normal: ModifierNormal::Negative, multiplier: 100 })
    }     else if text_eq(key, "tiger_command_influence_modifier") {
        Some(Modifier { id: "tiger_command_influence_modifier", name: "Tiger Command Influence", format: ModifierFormat::Percent, normal: ModifierNormal::Positive, multiplier: 100 })
    }     else if text_eq(key, "tiger_command_loyalty_modifier") {
        Some(Modifier { id: "tiger_command_loyalty_modifier", name: "Tiger Command Loyalty Equilibrium", format: ModifierFormat::Percent, normal: ModifierNormal::Positive, multiplier: 100 })
    }     else if text_eq(key, "tolerance_heathen") {
        Some(Modifier { id: "tolerance_heathen", name: "Tolerance of Heathens", format: ModifierFormat::Flat, normal: ModifierNormal::Positive, multiplier: 1 })
    }     else if text_eq(key, "tolerance_heretic") {
        Some(Modifier { id: "tolerance_heretic", name: "Tolerance of Heretics", format: ModifierFormat::Flat, normal: ModifierNormal::Positive, multiplier: 1 })
    }     else if text_eq(key, "tolerance_own") {
        Some(Modifier { id: "tolerance_own", name: "Tolerance of the True Faith", format: ModifierFormat::Flat, normal: ModifierNormal::Positive, multiplier: 1 })
    }     else if text_eq(key, "trade_company_investment_cost") {
        Some(Modifier { id: "trade_company_investment_cost", name: "Trade Company Investment Cost", format: ModifierFormat::Percent, normal: ModifierNormal::Negative, multiplier: 100 })
    }     else if text_eq(key, "trade_efficiency") {
        Some(Modifier { id: "trade_efficiency", name: "Trade Efficiency", format: ModifierFormat::Percent, normal: ModifierNormal::Positive, multiplier: 100 })
    }     else if text_eq(key, "trade_range_modifier") {
        Some(Modifier { id: "trade_range_modifier", name: "Trade Range", format: ModifierFormat::Percent, normal: ModifierNormal::Positive, multiplier: 100 })
    }     else if text_eq(key, "trade_steering") {
        Some(Modifier { id: "trade_steering", name: "Trade Steering", format: ModifierFormat::Percent, normal: ModifierNormal::Positive, multiplier: 100 })
    }     else if text_eq(key, "transport_cost") {
        Some(Modifier { id: "transport_cost", name: "Transport Cost", format: ModifierFormat::Percent, normal: ModifierNormal::Negative, multiplier: 100 })
    }     else if text_eq(key, "transport_power") {
        Some(Modifier { id: "transport_power", name: "Transport Ship Combat Ability", format: ModifierFormat::Percent, normal: ModifierNormal::Positive, multiplier: 100 })
    }     else if text_eq(key, "unjustified_demands") {
        Some(Modifier { id: "unjustified_demands", name: "Unjustified Demands", format: ModifierFormat::Percent, normal: ModifierNormal::Negative, multiplier: 100 })
    }     else if text_eq(key, "uppercastes_loyalty_modifier") {
        Some(Modifier { id: "uppercastes_loyalty_modifier", name: "Upper Castes Loyalty Equilibrium", format: ModifierFormat::Percent, normal: ModifierNormal::Positive, multiplier: 100 })
    }     else if text_eq(key, "vassal_forcelimit_bonus") {
        Some(Modifier { id: "vassal_forcelimit_bonus", name: "Vassal Force Limit Contribution", format: ModifierFormat::Percent, normal: ModifierNormal::Positive, multiplier: 100 })
    }     else if text_eq(key, "vassal_income") {
        Some(Modifier { id: "vassal_income", name: "Income from Vassals", format: ModifierFormat::Percent, normal: ModifierNormal::Positive, multiplier: 100 })
    }     else if text_eq(key, "war_exhaustion") {
        Some(Modifier { id: "war_exhaustion", name: "Monthly War Exhaustion", format: ModifierFormat::Flat, normal: ModifierNormal::Negative, multiplier: 1 })
    }     else if text_eq(key, "war_exhaustion_cost") {
        Some(Modifier { id: "war_exhaustion_cost", name: "Cost of Reducing War Exhaustion", format: ModifierFormat::Percent, normal: ModifierNormal::Negative, multiplier: 100 })
    }     else if text_eq(key, "war_taxes_cost_modifier") {
        Some(Modifier { id: "war_taxes_cost_modifier", name: "War Taxes Cost", format: ModifierFormat::Percent, normal: ModifierNormal::Negative, multiplier: 100 })
    }     else if text_eq(key, "warscore_cost_vs_other_religion") {
        Some(Modifier { id: "warscore_cost_vs_other_religion", name: "War Score Cost vs Other Religions", format: ModifierFormat::Percent, normal: ModifierNormal::Negative, multiplier: 100 })
    }     else if text_eq(key, "yearly_absolutism") {
        Some(Modifier { id: "yearly_absolutism", name: "Yearly Absolutism", format: ModifierFormat::Flat, normal: ModifierNormal::Positive, multiplier: 1 })
    }     else if text_eq(key, "yearly_army_professionalism") {
        Some(Modifier { id: "yearly_army_professionalism", name: "Yearly Army Professionalism", format: ModifierFormat::Percent, normal: ModifierNormal::Positive, multiplier: 100 })
    }     else if text_eq(key, "yearly_corruption") {
        Some(Modifier { id: "yearly_corruption", name: "Yearly Corruption", format: ModifierFormat::Flat, normal: ModifierNormal::Negative, multiplier: 1 })
    }     else if text_eq(key, "yearly_government_power") {
        Some(Modifier { id: "yearly_government_power", name: "Yearly Government Power", format: ModifierFormat::Flat, normal: ModifierNormal::Positive, multiplier: 1 })
    }     else if text_eq(key, "yearly_harmony") {
        Some(Modifier { id: "yearly_harmony", name: "Yearly Harmony", format: ModifierFormat::Flat, normal: ModifierNormal::Negative, multiplier: 1 })
    }     else if text_eq(key, "yearly_karma_decay") {
        Some(Modifier { id: "yearly_karma_decay", name: "Yearly Corinite Paragonhood Decay", format: ModifierFormat::Flat, normal: ModifierNormal::Positive, multiplier: 1 })
    }     else if text_eq(key, "yearly_patriarch_authority") {
        Some(Modifier { id: "yearly_patriarch_authority", name: "Yearly Demonic Power", format: ModifierFormat::Flat, normal: ModifierNormal::Negative, multiplier: 1 })
    }     else if text_eq(key, "years_of_nationalism") {
        Some(Modifier { id: "years_of_nationalism", name: "Years of Separatism", format: ModifierFormat::Flat, normal: ModifierNormal::Negative, multiplier: 1 })
    } else {
        None
    }
}

proof fn lemma_descriptor_10(key: Seq<char>)
    ensures
        descriptor_10(key) matches Some(m) ==> m.id@ == key,
{
}

/// The descriptor that the table holds for `key`, if it holds one. The key
/// is matched as it stands: the table's own keys are in lower case.
pub open spec fn descriptor(key: Seq<char>) -> Option<Modifier> {
    if descriptor_1(key) is Some {
        descriptor_1(key)
    }     else if descriptor_2(key) is Some {
        descriptor_2(key)
    }     else if descriptor_3(key) is Some {
        descriptor_3(key)
    }     else if descriptor_4(key) is Some {
        descriptor_4(key)
    }     else if descriptor_5(key) is Some {
        descriptor_5(key)
    }     else if descriptor_6(key) is Some {
        descriptor_6(key)
    }     else if descriptor_7(key) is Some {
        descriptor_7(key)
    }     else if descriptor_8(key) is Some {
        descriptor_8(key)
    }     else if descriptor_9(key) is Some {
        descriptor_9(key)
    } else {
        descriptor_10(key)
    }
}

/// Every descriptor stands under its own identifier.
pub proof fn lemma_descriptor_id(key: Seq<char>)
    ensures
        descriptor(key) matches Some(m) ==> m.id@ == key,
{
    lemma_descriptor_1(key);
    lemma_descriptor_2(key);
    lemma_descriptor_3(key);
    lemma_descriptor_4(key);
    lemma_descriptor_5(key);
    lemma_descriptor_6(key);
    lemma_descriptor_7(key);
    lemma_descriptor_8(key);
    lemma_descriptor_9(key);
    lemma_descriptor_10(key);
}

/// Looks `key` up in the table, as it stands.
pub fn find_modifier(key: &str) -> (found: Option<Modifier>)
    ensures
        found == descriptor(key@),
{
    let part = find_1(key);
    if part.is_some() {
        return part;
    }
    let part = find_2(key);
    if part.is_some() {
        return part;
    }
    let part = find_3(key);
    if part.is_some() {
        return part;
    }
    let part = find_4(key);
    if part.is_some() {
        return part;
    }
    let part = find_5(key);
    if part.is_some() {
        return part;
    }
    let part = find_6(key);
    if part.is_some() {
        return part;
    }
    let part = find_7(key);
    if part.is_some() {
        return part;
    }
    let part = find_8(key);
    if part.is_some() {
        return part;
    }
    let part = find_9(key);
    if part.is_some() {
        return part;
    }
    find_10(key)
}

} // verus!
