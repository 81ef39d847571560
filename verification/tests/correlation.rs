//! Tables of statements, and the modules behind them.

use mdoctor::correlation::{correlate_query, extract_tables_from_sql, map_table_to_module};
use mdoctor::model::{
    MagentoInstallation, Module, Plugin, PluginType, QueryDigest, TableSchema,
};

#[test]
fn test_extract_tables_from_complex_sql() {
    let sql = "SELECT p.entity_id, c.value FROM catalog_product_entity p JOIN catalog_product_entity_varchar c ON p.entity_id = c.entity_id WHERE p.sku = ? ORDER BY p.entity_id";
    let tables = extract_tables_from_sql(sql);
    assert_eq!(tables.len(), 2);
    assert!(tables.contains(&"catalog_product_entity".to_string()));
    assert!(tables.contains(&"catalog_product_entity_varchar".to_string()));
}

#[test]
fn test_map_core_tables() {
    let map = Vec::new();
    assert_eq!(map_table_to_module("catalog_product_entity", &map), Some("Magento_Catalog".to_string()));
    assert_eq!(map_table_to_module("sales_order_grid", &map), Some("Magento_Sales".to_string()));
    assert_eq!(map_table_to_module("quote_item", &map), Some("Magento_Quote".to_string()));
}

#[test]
fn tables_are_lowered_named_once_and_no_keyword() {
    let tables = extract_tables_from_sql("insert INTO `Quote` select * from QUOTE join (select 1 from dual)");
    assert_eq!(tables, vec!["quote".to_string()]);
    assert!(extract_tables_from_sql("COMMIT").is_empty());
}

#[test]
fn every_core_prefix_has_its_module() {
    let none = Vec::new();
    let known = [
        ("cataloginventory_stock", "Magento_Catalog"),
        ("customer_entity", "Magento_Customer"),
        ("url_rewrite", "Magento_UrlRewrite"),
        ("eav_attribute", "Magento_Eav"),
        ("cms_page", "Magento_Cms"),
        ("newsletter_queue", "Magento_Newsletter"),
        ("cron_schedule", "Magento_Cron"),
        ("core_config_data", "Magento_Config"),
        ("inventory_source", "Magento_Inventory"),
        ("search_query", "Magento_CatalogSearch"),
        ("catalogsearch_fulltext", "Magento_CatalogSearch"),
    ];
    for (table, module) in known {
        assert_eq!(map_table_to_module(table, &none).as_deref(), Some(module));
    }
    assert_eq!(map_table_to_module("vendor_feed_queue", &none), None);
}

#[test]
fn a_declared_owner_wins_over_the_prefix() {
    let declared = vec![
        TableSchema { name: "Sales_Extra".into(), owning_module: Some("Vendor_Extra".into()) },
        TableSchema { name: "sales_order".into(), owning_module: None },
    ];
    assert_eq!(map_table_to_module("Sales_Extra", &declared).as_deref(), Some("Vendor_Extra"));
    assert_eq!(map_table_to_module("SALES_EXTRA", &declared).as_deref(), Some("Vendor_Extra"));
    assert_eq!(map_table_to_module("sales_order", &declared).as_deref(), Some("Magento_Sales"));
}

#[test]
fn a_query_is_correlated_with_modules_and_plugins() {
    let mut inst = MagentoInstallation::new("/tmp".to_string());
    inst.modules.push(Module { name: "Vendor_Feed".into() });
    inst.plugins.push(Plugin {
        name: "p".into(),
        module: "Vendor_Feed".into(),
        plugin_class: "Vendor\\Feed\\Plugin".into(),
        target_class: "Magento\\Catalog\\Model\\Product".into(),
        plugin_type: PluginType::Around,
        sort_order: 10,
        is_disabled: false,
        area: "global".into(),
        source_file: "etc/di.xml".into(),
        line: 1,
        cost_indicators: Vec::new(),
    });
    let digest = QueryDigest {
        fingerprint: "SELECT ?".into(),
        tables_involved: vec!["vendor_feed_queue".into(), "quote".into(), "quote_item".into()],
        ..Default::default()
    };
    let c = correlate_query(&digest, &inst);
    assert_eq!(c.candidate_modules, vec!["Vendor_Feed".to_string(), "Magento_Quote".to_string()]);
    assert_eq!(c.matched_code_references, vec!["Plugin: Vendor\\Feed\\Plugin (etc/di.xml)".to_string()]);
    assert!(c.is_hot_path);
    assert_eq!(
        c.correlation_notes,
        "Query touches tables managed by: Vendor_Feed, Magento_Quote. Hot path: YES."
    );

    let unknown = QueryDigest { tables_involved: vec!["tmp_1".into()], ..Default::default() };
    let c = correlate_query(&unknown, &inst);
    assert!(!c.is_hot_path && c.candidate_modules.is_empty());
    assert_eq!(c.correlation_notes, "Query operates on dynamic or untracked tables.");
}
