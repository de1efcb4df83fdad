use pglsp::analyse::{
    AnalysisFilter, AnalyzerSignal, DiagnosticSignal, GroupKey, MetadataKey, MetadataRegistry, RegistryVisitor,
    RuleCategories, RuleCategory, RuleFilter, RuleKey,
};
use pglsp::text::TextRange;

#[test]
fn rule_filter_group_and_matches() {
    let g = RuleFilter::Group("safety");
    let r = RuleFilter::Rule("safety", "banDropColumn");
    assert_eq!(g.group(), "safety");
    assert_eq!(r.group(), "safety");
    assert!(g.match_group("safety"));
    assert!(!g.match_group("style"));
    assert!(r.match_group("safety"));
    assert!(g.match_rule("safety", "anything"));
    assert!(r.match_rule("safety", "banDropColumn"));
    assert!(!r.match_rule("safety", "banDropTable"));
    assert!(!r.match_rule("style", "banDropColumn"));
}

#[test]
fn rule_filter_text() {
    assert_eq!(RuleFilter::Group("safety").to_text(), "safety");
    assert_eq!(RuleFilter::Rule("safety", "banDropColumn").to_text(), "safety/banDropColumn");
}

#[test]
fn metadata_keys() {
    let k = MetadataKey { inner: ("safety", "banDropColumn") };
    assert_eq!(k.into_group_key(), GroupKey::new("safety"));
    assert_eq!(k.into_rule_key(), RuleKey::new("safety", "banDropColumn"));
}

#[test]
fn registry_finds_inserted_rules() {
    let mut reg = MetadataRegistry::new();
    assert!(reg.find_group("safety").is_none());
    reg.insert_rule("safety", "banDropColumn");
    reg.insert_rule("safety", "banDropColumn");
    reg.insert_rule("style", "useLowercase");
    assert_eq!(reg.find_group("safety"), Some(GroupKey::new("safety")));
    assert_eq!(reg.find_rule("safety", "banDropColumn"), Some(RuleKey::new("safety", "banDropColumn")));
    assert_eq!(reg.find_rule("safety", "useLowercase"), None);
    assert_eq!(reg.find_rule("style", "useLowercase"), Some(RuleKey::new("style", "useLowercase")));
    assert!(reg.find_group("other").is_none());
}

#[test]
fn default_registry_is_empty() {
    let reg = MetadataRegistry::default();
    assert!(reg.find_rule("safety", "banDropColumn").is_none());
}

#[test]
fn diagnostic_signal_uses_its_factory() {
    let signal = DiagnosticSignal::new(|| "drop column".to_string());
    assert_eq!(signal.diagnostic(), Some("drop column".to_string()));
}

#[test]
fn registry_visitor_records_rules() {
    let mut reg = MetadataRegistry::default();
    reg.record_rule("safety", "banDropColumn");
    assert_eq!(reg.find_rule("safety", "banDropColumn"), Some(RuleKey::new("safety", "banDropColumn")));
    assert_eq!(reg.find_rule("safety", "banDropTable"), None);
}

#[test]
fn rule_categories_sets() {
    let all = RuleCategories::default();
    assert!(all.contains(RuleCategory::Syntax));
    assert!(all.contains(RuleCategory::Transformation));
    let mut some = RuleCategories::empty();
    assert!(!some.contains(RuleCategory::Lint));
    some.insert(RuleCategory::Lint);
    assert!(some.contains(RuleCategory::Lint));
    assert!(!some.contains(RuleCategory::Action));
}

#[test]
fn default_filter_lets_everything_run() {
    let filter = AnalysisFilter::default();
    assert!(filter.match_group("safety", RuleCategory::Lint));
    assert!(filter.match_rule("safety", "banDropColumn", RuleCategory::Lint));
    assert!(filter.range.is_none());
}

#[test]
fn enabled_rules_select_groups_and_rules() {
    let enabled = [RuleFilter::Rule("safety", "banDropColumn")];
    let filter = AnalysisFilter::from_enabled_rules(&enabled);
    assert!(filter.match_group("safety", RuleCategory::Lint));
    assert!(!filter.match_group("style", RuleCategory::Lint));
    assert!(filter.match_rule("safety", "banDropColumn", RuleCategory::Lint));
    assert!(!filter.match_rule("safety", "banDropTable", RuleCategory::Lint));
}

#[test]
fn disabled_rules_and_categories_stop_rules() {
    let disabled = [RuleFilter::Rule("safety", "banDropColumn"), RuleFilter::Group("style")];
    let mut categories = RuleCategories::empty();
    categories.insert(RuleCategory::Lint);
    let filter = AnalysisFilter {
        categories,
        enabled_rules: None,
        disabled_rules: &disabled,
        range: Some(TextRange::new(0, 10)),
    };
    // A rule filter does not disable its whole group.
    assert!(filter.match_group("safety", RuleCategory::Lint));
    assert!(!filter.match_rule("safety", "banDropColumn", RuleCategory::Lint));
    assert!(filter.match_rule("safety", "banDropTable", RuleCategory::Lint));
    assert!(!filter.match_group("style", RuleCategory::Lint));
    assert!(!filter.match_rule("style", "useLowercase", RuleCategory::Lint));
    assert!(!filter.match_group("safety", RuleCategory::Action));
    assert!(filter.match_category(RuleCategory::Lint));
    assert!(!filter.match_category(RuleCategory::Syntax));
}
