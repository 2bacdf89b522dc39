use renovate::{
    default_format, default_indent, default_lines, default_path, default_uppercase, Layout,
    RenovateConfig, RenovateFormatConfig,
};

#[test]
fn config_defaults() {
    assert_eq!(default_indent(), 4);
    assert!(default_uppercase());
    assert_eq!(default_lines(), 2);
    assert_eq!(default_path(), ".");
    let f = default_format().unwrap();
    assert_eq!(f, RenovateFormatConfig { indent: 4, uppercase: true, lines_between_queries: 2 });
    let c = RenovateConfig::default();
    assert_eq!(c.output.layout, Layout::Normal);
    assert_eq!(c.output.path, ".");
    assert_eq!(c.output.format, Some(f));
}
