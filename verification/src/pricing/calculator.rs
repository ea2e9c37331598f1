//! The linear cost model.
//!
//! Every rate, and every cost this module computes, is expressed in tenths
//! of a currency unit, so the whole model is exact integer arithmetic: a cost
//! of 147 tenths is 14.7 currency units. Displaying a cost in whole units is
//! the caller's concern.

use vstd::prelude::*;
use vstd::arithmetic::mul::{lemma_mul_inequality, lemma_mul_upper_bound};

verus! {

/// A fixed linear price schedule: one flat base cost plus one per-unit rate
/// for each form field, in the form's field order, all in tenths of a
/// currency unit.
pub struct PricingConfig {
    pub flat_rate: u64,
    pub per_gb_rate: u64,
    pub per_player_rate: u64,
    pub per_world_rate: u64,
    pub per_plugin_rate: u64,
    pub per_mod_rate: u64,
    pub per_server_rate: u64,
}

/// The linear cost formula: the flat rate plus each per-unit rate times its
/// field's value, in tenths of a currency unit.
pub open spec fn spec_cost(
    c: PricingConfig,
    ram_gb: u32,
    player_slots: u32,
    worlds: u32,
    plugins: u32,
    mods: u32,
    servers: u32,
) -> int {
    c.flat_rate + c.per_gb_rate * (ram_gb as int) + c.per_player_rate * (player_slots as int)
        + c.per_world_rate * (worlds as int) + c.per_plugin_rate * (plugins as int)
        + c.per_mod_rate * (mods as int) + c.per_server_rate * (servers as int)
}

impl PricingConfig {
    /// The fixed schedule: a flat 2.0 plus 0.5 per GB of RAM, 0.1 per player
    /// slot, 0.2 per world, 0.3 per plugin, 0.4 per mod and 1.5 per server,
    /// stated in tenths.
    pub fn new() -> (r: Self)
        ensures
            r.flat_rate == 20,
            r.per_gb_rate == 5,
            r.per_player_rate == 1,
            r.per_world_rate == 2,
            r.per_plugin_rate == 3,
            r.per_mod_rate == 4,
            r.per_server_rate == 15,
    {
        PricingConfig {
            flat_rate: 20,
            per_gb_rate: 5,
            per_player_rate: 1,
            per_world_rate: 2,
            per_plugin_rate: 3,
            per_mod_rate: 4,
            per_server_rate: 15,
        }
    }

    /// The total cost of the given field values under this schedule, in
    /// tenths of a currency unit. Total: every input has a defined cost.
    pub fn calculate_cost(
        &self,
        ram_gb: u32,
        player_slots: u32,
        worlds: u32,
        plugins: u32,
        mods: u32,
        servers: u32,
    ) -> (r: u128)
        ensures
            r == spec_cost(*self, ram_gb, player_slots, worlds, plugins, mods, servers),
    {
        proof {
            lemma_mul_upper_bound(self.per_gb_rate as int, u64::MAX as int, ram_gb as int, u32::MAX as int);
            lemma_mul_upper_bound(self.per_player_rate as int, u64::MAX as int, player_slots as int, u32::MAX as int);
            lemma_mul_upper_bound(self.per_world_rate as int, u64::MAX as int, worlds as int, u32::MAX as int);
            lemma_mul_upper_bound(self.per_plugin_rate as int, u64::MAX as int, plugins as int, u32::MAX as int);
            lemma_mul_upper_bound(self.per_mod_rate as int, u64::MAX as int, mods as int, u32::MAX as int);
            lemma_mul_upper_bound(self.per_server_rate as int, u64::MAX as int, servers as int, u32::MAX as int);
        }
        self.flat_rate as u128 + (self.per_gb_rate as u128) * (ram_gb as u128) + (
        self.per_player_rate as u128) * (player_slots as u128) + (self.per_world_rate as u128) * (
        worlds as u128) + (self.per_plugin_rate as u128) * (plugins as u128) + (
        self.per_mod_rate as u128) * (mods as u128) + (self.per_server_rate as u128) * (
        servers as u128)
    }
}

/// With every field value 0, the cost is exactly the flat rate.
pub proof fn lemma_cost_all_zero(c: PricingConfig)
    ensures
        spec_cost(c, 0, 0, 0, 0, 0, 0) == c.flat_rate,
{
}

/// The cost is monotonically non-decreasing in every value coordinate: raising
/// any field value (none of the rates being negative) never lowers the cost.
pub proof fn lemma_cost_monotone(
    c: PricingConfig,
    ram_gb1: u32,
    player_slots1: u32,
    worlds1: u32,
    plugins1: u32,
    mods1: u32,
    servers1: u32,
    ram_gb2: u32,
    player_slots2: u32,
    worlds2: u32,
    plugins2: u32,
    mods2: u32,
    servers2: u32,
)
    requires
        ram_gb1 <= ram_gb2,
        player_slots1 <= player_slots2,
        worlds1 <= worlds2,
        plugins1 <= plugins2,
        mods1 <= mods2,
        servers1 <= servers2,
    ensures
        spec_cost(c, ram_gb1, player_slots1, worlds1, plugins1, mods1, servers1) <= spec_cost(
            c,
            ram_gb2,
            player_slots2,
            worlds2,
            plugins2,
            mods2,
            servers2,
        ),
{
    lemma_mul_le_mono(c.per_gb_rate, ram_gb1, ram_gb2);
    lemma_mul_le_mono(c.per_player_rate, player_slots1, player_slots2);
    lemma_mul_le_mono(c.per_world_rate, worlds1, worlds2);
    lemma_mul_le_mono(c.per_plugin_rate, plugins1, plugins2);
    lemma_mul_le_mono(c.per_mod_rate, mods1, mods2);
    lemma_mul_le_mono(c.per_server_rate, servers1, servers2);
}

/// A non-negative rate times a smaller value is no larger.
proof fn lemma_mul_le_mono(rate: u64, v1: u32, v2: u32)
    requires
        v1 <= v2,
    ensures
        rate * (v1 as int) <= rate * (v2 as int),
{
    lemma_mul_inequality(v1 as int, v2 as int, rate as int);
}

} // verus!
