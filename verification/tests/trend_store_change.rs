use minerva::trend_store_change::{ModifyTrendDataType, ModifyTrendDataTypes};

fn modify() -> ModifyTrendDataTypes {
    ModifyTrendDataTypes {
        trend_store_part_name: "hub_node_main_15m".to_string(),
        modifications: vec![
            ModifyTrendDataType { trend_name: "x".to_string(), from_type: "integer".to_string(), to_type: "bigint".to_string() },
            ModifyTrendDataType { trend_name: "y".to_string(), from_type: "real".to_string(), to_type: "numeric".to_string() },
        ],
        total_trend_count: 5,
    }
}

#[test]
fn modify_trend_data_types_statement() {
    assert_eq!(
        modify().alter_statement(),
        "ALTER TABLE trend.\"hub_node_main_15m\" ALTER \"x\" TYPE bigint USING CAST(\"x\" AS bigint), ALTER \"y\" TYPE numeric USING CAST(\"y\" AS numeric)"
    );
    assert_eq!(
        modify().to_display_string(),
        "ModifyTrendDataTypes(hub_node_main_15m, 2/5):\n - x: integer -> bigint\n - y: real -> numeric\n"
    );
    assert_eq!(modify().modifications[0].to_display_string(), "Trend(x, integer->bigint)");
}

#[test]
fn modify_trend_data_types_revert() {
    let reverted = modify().outcome().revert();
    assert_eq!(reverted.trend_store_part_name, "hub_node_main_15m");
    assert_eq!(reverted.total_trend_count, 5);
    assert_eq!(reverted.modifications[0].from_type, "bigint");
    assert_eq!(reverted.modifications[0].to_type, "integer");
    let back = reverted.outcome().revert();
    assert_eq!(back.modifications[1].from_type, "real");
    assert_eq!(back.modifications[1].to_type, "numeric");
}
