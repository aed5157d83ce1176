use container_manager::config::{Container, OutputFormat};

#[test]
fn routers() {
    assert!(!Container::new(OutputFormat::Silent).is_router());
    assert!(!Container::new(OutputFormat::Client).is_router());
    assert!(!Container::new(OutputFormat::Passthrough).is_router());
    assert!(Container::new(OutputFormat::Router).is_router());
    assert!(Container::new(OutputFormat::RouterLogging).is_router());
}

#[test]
fn capture_files() {
    assert!(!Container::new(OutputFormat::Silent).has_file());
    assert!(Container::new(OutputFormat::Client).has_file());
    assert!(Container::new(OutputFormat::Passthrough).has_file());
    assert!(!Container::new(OutputFormat::Router).has_file());
    assert!(Container::new(OutputFormat::RouterLogging).has_file());
}

#[test]
fn default_format_is_silent() {
    assert_eq!(OutputFormat::default(), OutputFormat::Silent);
}
