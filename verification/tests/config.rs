use market_maker::config::{
    apply_settings_update, RiskSettings, RiskUpdate, SettingsUpdate, StrategySettings,
    StrategyUpdate,
};

fn settings() -> (StrategySettings<f64>, RiskSettings<f64>) {
    (
        StrategySettings {
            risk_aversion: 0.5,
            volatility_window: 100,
            inventory_target: 0.0,
            num_levels: 5,
            level_spacing_bps: 2.0,
            vpin_threshold: 0.7,
            adverse_selection_threshold: 0.6,
            min_spread_bps: 5.0,
        },
        RiskSettings { max_position: 1.0, max_drawdown: 1000.0 },
    )
}

fn no_strategy_change() -> StrategyUpdate<f64> {
    StrategyUpdate {
        risk_aversion: None,
        volatility: None,
        target_inventory: None,
        num_levels: None,
        level_spacing: None,
        vpin_threshold: None,
        adverse_selection_threshold: None,
    }
}

#[test]
fn single_strategy_change_is_applied_and_reported() {
    let (mut strategy, mut risk) = settings();
    let update = SettingsUpdate {
        strategy: Some(StrategyUpdate { risk_aversion: Some(0.6), ..no_strategy_change() }),
        risk: None,
    };
    let fields = apply_settings_update(&mut strategy, &mut risk, update);
    assert_eq!(fields, vec!["strategy.risk_aversion"]);
    assert_eq!(strategy.risk_aversion, 0.6);
    assert_eq!(strategy.num_levels, 5);
    assert_eq!(risk.max_drawdown, 1000.0);
}

#[test]
fn every_change_in_order() {
    let (mut strategy, mut risk) = settings();
    let update = SettingsUpdate {
        strategy: Some(StrategyUpdate {
            risk_aversion: Some(1.0),
            volatility: Some(50),
            target_inventory: Some(0.2),
            num_levels: Some(3),
            level_spacing: Some(4.0),
            vpin_threshold: Some(0.8),
            adverse_selection_threshold: Some(0.5),
        }),
        risk: Some(RiskUpdate {
            max_position: Some(2.0),
            max_drawdown: Some(500.0),
            min_spread_bps: Some(3.0),
        }),
    };
    let fields = apply_settings_update(&mut strategy, &mut risk, update);
    assert_eq!(
        fields,
        vec![
            "strategy.risk_aversion",
            "strategy.volatility",
            "strategy.target_inventory",
            "strategy.num_levels",
            "strategy.level_spacing",
            "strategy.vpin_threshold",
            "strategy.adverse_selection_threshold",
            "risk.max_position",
            "risk.max_drawdown",
            "risk.min_spread_bps",
        ]
    );
    assert_eq!(strategy.volatility_window, 50);
    assert_eq!(strategy.inventory_target, 0.2);
    assert_eq!(strategy.level_spacing_bps, 4.0);
    assert_eq!(strategy.vpin_threshold, 0.8);
    assert_eq!(strategy.adverse_selection_threshold, 0.5);
    assert_eq!(strategy.min_spread_bps, 3.0);
    assert_eq!(risk.max_position, 2.0);
    assert_eq!(risk.max_drawdown, 500.0);
}

#[test]
fn empty_update_changes_nothing() {
    let (mut strategy, mut risk) = settings();
    let update = SettingsUpdate { strategy: Some(no_strategy_change()), risk: None };
    let fields = apply_settings_update(&mut strategy, &mut risk, update);
    assert!(fields.is_empty());
    assert_eq!(strategy.risk_aversion, 0.5);
    assert_eq!(risk.max_position, 1.0);
    let fields = apply_settings_update(
        &mut strategy,
        &mut risk,
        SettingsUpdate { strategy: None, risk: None },
    );
    assert!(fields.is_empty());
}

#[test]
fn min_spread_is_set_through_the_risk_group() {
    let (mut strategy, mut risk) = settings();
    let update = SettingsUpdate {
        strategy: None,
        risk: Some(RiskUpdate { max_position: None, max_drawdown: None, min_spread_bps: Some(9.0) }),
    };
    let fields = apply_settings_update(&mut strategy, &mut risk, update);
    assert_eq!(fields, vec!["risk.min_spread_bps"]);
    assert_eq!(strategy.min_spread_bps, 9.0);
    assert_eq!(risk.max_position, 1.0);
}
