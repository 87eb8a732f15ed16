//! Account settings, and the strategy and risk settings that the control
//! API updates while trading. Settings that are prices, ratios or sizes are
//! of type `F`; this module stores them without reading them.

use vstd::prelude::*;

verus! {

/// Credentials and network of one exchange account.
#[derive(Debug, Clone)]
pub struct ExchangeConfig {
    pub api_key: String,
    pub api_secret: String,
    pub testnet: bool,
}

/// The strategy settings the control API can change.
#[derive(Debug, Clone, Copy)]
pub struct StrategySettings<F> {
    pub risk_aversion: F,
    pub volatility_window: usize,
    pub inventory_target: F,
    pub num_levels: usize,
    pub level_spacing_bps: F,
    pub vpin_threshold: F,
    pub adverse_selection_threshold: F,
    pub min_spread_bps: F,
}

/// The risk settings the control API can change.
#[derive(Debug, Clone, Copy)]
pub struct RiskSettings<F> {
    pub max_position: F,
    pub max_drawdown: F,
}

/// Requested changes to the strategy group; absent ones leave the setting.
#[derive(Debug, Clone, Copy)]
pub struct StrategyUpdate<F> {
    pub risk_aversion: Option<F>,
    pub volatility: Option<usize>,
    pub target_inventory: Option<F>,
    pub num_levels: Option<usize>,
    pub level_spacing: Option<F>,
    pub vpin_threshold: Option<F>,
    pub adverse_selection_threshold: Option<F>,
}

/// Requested changes to the risk group; absent ones leave the setting.
/// `min_spread_bps` is a strategy setting requested through this group.
#[derive(Debug, Clone, Copy)]
pub struct RiskUpdate<F> {
    pub max_position: Option<F>,
    pub max_drawdown: Option<F>,
    pub min_spread_bps: Option<F>,
}

/// A settings update request: either group may be absent.
#[derive(Debug, Clone, Copy)]
pub struct SettingsUpdate<F> {
    pub strategy: Option<StrategyUpdate<F>>,
    pub risk: Option<RiskUpdate<F>>,
}

/// The strategy changes of a request (none when the group is absent).
pub open spec fn strategy_changes<F>(update: SettingsUpdate<F>) -> StrategyUpdate<F> {
    match update.strategy {
        Some(changes) => changes,
        None => StrategyUpdate {
            risk_aversion: None,
            volatility: None,
            target_inventory: None,
            num_levels: None,
            level_spacing: None,
            vpin_threshold: None,
            adverse_selection_threshold: None,
        },
    }
}

/// The risk changes of a request (none when the group is absent).
pub open spec fn risk_changes<F>(update: SettingsUpdate<F>) -> RiskUpdate<F> {
    match update.risk {
        Some(changes) => changes,
        None => RiskUpdate { max_position: None, max_drawdown: None, min_spread_bps: None },
    }
}

/// The requested value if there is one, else the current one.
pub open spec fn or_keep<T>(requested: Option<T>, current: T) -> T {
    match requested {
        Some(value) => value,
        None => current,
    }
}

/// `name` when a change is requested, nothing otherwise.
pub open spec fn name_if<T>(requested: Option<T>, name: Seq<char>) -> Seq<Seq<char>> {
    if requested is Some {
        seq![name]
    } else {
        Seq::empty()
    }
}

/// The names reported for the changes of a request: the strategy group's
/// in the order risk aversion, volatility, target inventory, levels, level
/// spacing, VPIN threshold, adverse selection threshold, then the risk
/// group's: max position, max drawdown, min spread.
pub open spec fn updated_field_names<F>(update: SettingsUpdate<F>) -> Seq<Seq<char>> {
    let s = strategy_changes(update);
    let r = risk_changes(update);
    name_if(s.risk_aversion, "strategy.risk_aversion"@) + name_if(
        s.volatility,
        "strategy.volatility"@,
    ) + name_if(s.target_inventory, "strategy.target_inventory"@) + name_if(
        s.num_levels,
        "strategy.num_levels"@,
    ) + name_if(s.level_spacing, "strategy.level_spacing"@) + name_if(
        s.vpin_threshold,
        "strategy.vpin_threshold"@,
    ) + name_if(s.adverse_selection_threshold, "strategy.adverse_selection_threshold"@)
        + name_if(r.max_position, "risk.max_position"@) + name_if(
        r.max_drawdown,
        "risk.max_drawdown"@,
    ) + name_if(r.min_spread_bps, "risk.min_spread_bps"@)
}

/// The views of reported names.
pub open spec fn name_views(names: Seq<&str>) -> Seq<Seq<char>> {
    names.map_values(|name: &str| name@)
}

/// Appends `name` to `names` when a change is requested.
fn note_change<T>(names: &mut Vec<&'static str>, requested: &Option<T>, name: &'static str)
    ensures
        name_views(final(names)@) == name_views(old(names)@) + name_if(*requested, name@),
{
    if requested.is_some() {
        names.push(name);
        assert(name_views(names@) =~= name_views(old(names)@) + seq![name@]);
    } else {
        assert(name_views(names@) =~= name_views(old(names)@) + Seq::<Seq<char>>::empty());
    }
}

/// Applies a settings update: every requested change replaces its setting,
/// every other setting stays, and the names of the changed settings are
/// returned in the order [`updated_field_names`] gives.
pub fn apply_settings_update<F: Copy>(
    strategy: &mut StrategySettings<F>,
    risk: &mut RiskSettings<F>,
    update: SettingsUpdate<F>,
) -> (fields: Vec<&'static str>)
    ensures
        final(strategy).risk_aversion == or_keep(
            strategy_changes(update).risk_aversion,
            old(strategy).risk_aversion,
        ),
        final(strategy).volatility_window == or_keep(
            strategy_changes(update).volatility,
            old(strategy).volatility_window,
        ),
        final(strategy).inventory_target == or_keep(
            strategy_changes(update).target_inventory,
            old(strategy).inventory_target,
        ),
        final(strategy).num_levels == or_keep(
            strategy_changes(update).num_levels,
            old(strategy).num_levels,
        ),
        final(strategy).level_spacing_bps == or_keep(
            strategy_changes(update).level_spacing,
            old(strategy).level_spacing_bps,
        ),
        final(strategy).vpin_threshold == or_keep(
            strategy_changes(update).vpin_threshold,
            old(strategy).vpin_threshold,
        ),
        final(strategy).adverse_selection_threshold == or_keep(
            strategy_changes(update).adverse_selection_threshold,
            old(strategy).adverse_selection_threshold,
        ),
        final(strategy).min_spread_bps == or_keep(
            risk_changes(update).min_spread_bps,
            old(strategy).min_spread_bps,
        ),
        final(risk).max_position == or_keep(risk_changes(update).max_position, old(risk).max_position),
        final(risk).max_drawdown == or_keep(risk_changes(update).max_drawdown, old(risk).max_drawdown),
        name_views(fields@) == updated_field_names(update),
{
    let mut fields: Vec<&'static str> = Vec::new();
    let none_strategy = StrategyUpdate {
        risk_aversion: None,
        volatility: None,
        target_inventory: None,
        num_levels: None,
        level_spacing: None,
        vpin_threshold: None,
        adverse_selection_threshold: None,
    };
    let s = match update.strategy {
        Some(changes) => changes,
        None => none_strategy,
    };
    let r = match update.risk {
        Some(changes) => changes,
        None => RiskUpdate { max_position: None, max_drawdown: None, min_spread_bps: None },
    };
    assert(s == strategy_changes(update));
    assert(r == risk_changes(update));
    assert(name_views(fields@) =~= Seq::<Seq<char>>::empty());

    note_change(&mut fields, &s.risk_aversion, "strategy.risk_aversion");
    if let Some(value) = s.risk_aversion {
        strategy.risk_aversion = value;
    }
    note_change(&mut fields, &s.volatility, "strategy.volatility");
    if let Some(value) = s.volatility {
        strategy.volatility_window = value;
    }
    note_change(&mut fields, &s.target_inventory, "strategy.target_inventory");
    if let Some(value) = s.target_inventory {
        strategy.inventory_target = value;
    }
    note_change(&mut fields, &s.num_levels, "strategy.num_levels");
    if let Some(value) = s.num_levels {
        strategy.num_levels = value;
    }
    note_change(&mut fields, &s.level_spacing, "strategy.level_spacing");
    if let Some(value) = s.level_spacing {
        strategy.level_spacing_bps = value;
    }
    note_change(&mut fields, &s.vpin_threshold, "strategy.vpin_threshold");
    if let Some(value) = s.vpin_threshold {
        strategy.vpin_threshold = value;
    }
    note_change(
        &mut fields,
        &s.adverse_selection_threshold,
        "strategy.adverse_selection_threshold",
    );
    if let Some(value) = s.adverse_selection_threshold {
        strategy.adverse_selection_threshold = value;
    }
    note_change(&mut fields, &r.max_position, "risk.max_position");
    if let Some(value) = r.max_position {
        risk.max_position = value;
    }
    note_change(&mut fields, &r.max_drawdown, "risk.max_drawdown");
    if let Some(value) = r.max_drawdown {
        risk.max_drawdown = value;
    }
    note_change(&mut fields, &r.min_spread_bps, "risk.min_spread_bps");
    if let Some(value) = r.min_spread_bps {
        strategy.min_spread_bps = value;
    }
    fields
}

} // verus!
