use rspack_render::dependency_type::{DependencyType, ErrorSpan};

#[test]
fn display_names_of_fixed_kinds() {
    assert_eq!(DependencyType::Unknown.as_str(), "unknown");
    assert_eq!(DependencyType::Entry.as_str(), "entry");
    assert_eq!(DependencyType::CjsSelfReference.as_str(), "cjs self exports reference");
    assert_eq!(DependencyType::NewUrl.as_str(), "new URL()");
    assert_eq!(DependencyType::CssUrl.as_str(), "css url");
    assert_eq!(DependencyType::CssImport.as_str(), "css import");
    assert_eq!(DependencyType::CssCompose.as_str(), "css compose");
    assert_eq!(DependencyType::RemoteToFallback.as_str(), "fallback");
    assert_eq!(DependencyType::WebpackIsIncluded.as_str(), "__webpack_is_included__");
}

#[test]
fn span_does_not_change_display_name() {
    let a = DependencyType::EsmImport(ErrorSpan { start: 0, end: 4 });
    let b = DependencyType::EsmImport(ErrorSpan { start: 10, end: 20 });
    assert_eq!(a.as_str(), "esm import");
    assert_eq!(a.as_str(), b.as_str());
    assert_ne!(a, b);
    assert_eq!(DependencyType::EsmExport(ErrorSpan { start: 1, end: 2 }).as_str(), "esm export");
}

#[test]
fn custom_kind_embeds_its_name() {
    assert_eq!(DependencyType::Custom("my-loader".to_string()).as_str(), "custom my-loader");
    assert_eq!(DependencyType::Custom(String::new()).as_str(), "custom ");
}

#[test]
fn default_kind_is_unknown() {
    assert_eq!(DependencyType::default(), DependencyType::Unknown);
}
