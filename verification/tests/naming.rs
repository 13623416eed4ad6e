use crux_core::type_generation::naming::{
    after_last, lower_camel, module_file_stem, package_name, trim_end_char, QualifiedTypeName,
};
use crux_core::type_generation::text::{contains_text, same_text};

#[test]
fn a_package_is_named_by_its_last_path_segment() {
    assert_eq!(package_name("../generated/Shared/"), "Shared");
    assert_eq!(package_name("../Shared"), "Shared");
    assert_eq!(package_name("Shared"), "Shared");
    assert_eq!(package_name("a/b//"), "b");
    assert_eq!(package_name(""), "");
}

#[test]
fn segments_and_trimming() {
    assert_eq!(after_last("com.crux.example", '.'), "example");
    assert_eq!(after_last("example", '.'), "example");
    assert_eq!(after_last("trailing.", '.'), "");
    assert_eq!(trim_end_char("path///", '/'), "path");
    assert_eq!(trim_end_char("path", '/'), "path");
    assert_eq!(trim_end_char("///", '/'), "");
}

#[test]
fn names_are_cased_by_heck() {
    assert_eq!(lower_camel("CamelCase"), "camelCase");
    assert_eq!(lower_camel("Http"), "http");
    assert_eq!(lower_camel("SubscribeToTicks"), "subscribeToTicks");
    assert_eq!(module_file_stem("com.crux.example"), "Example");
    assert_eq!(module_file_stem("shared_types"), "SharedTypes");
    assert_eq!(module_file_stem("Shared"), "Shared");
}

#[test]
fn qualified_names_compare_by_namespace_and_name() {
    let a = QualifiedTypeName::root("Event");
    let b = QualifiedTypeName::named("Shared", "Event");
    assert!(a.same_as(&QualifiedTypeName::root("Event")));
    assert!(!a.same_as(&b));
    assert!(b.same_as(&b.copy()));
    assert!(!b.same_as(&QualifiedTypeName::named("Other", "Event")));
    assert!(a.namespace.is_root());
    assert!(!b.namespace.is_root());
}

#[test]
fn text_helpers() {
    assert!(same_text("abc", "abc"));
    assert!(!same_text("abc", "abd"));
    assert!(!same_text("abc", "ab"));
    let list = vec!["one".to_string(), "two".to_string()];
    assert!(contains_text(&list, "two"));
    assert!(!contains_text(&list, "three"));
}
