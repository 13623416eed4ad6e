use crux_core::type_generation::boltffi::{bincode_import_path, BoltFfi, ExternalPackage, PackageLocation};

#[test]
fn the_class_defaults_to_core_ffi() {
    assert_eq!(BoltFfi::new().class_name(), "CoreFfi");
    assert_eq!(BoltFfi::new().class("MyCore").class_name(), "MyCore");
}

#[test]
fn swift_assumes_a_sibling_package_of_the_same_name() {
    let ffi = BoltFfi::new().swift("Shared");
    let swift = ffi.swift_ffi().expect("swift should be configured");

    assert_eq!(swift.module, "Shared");
    assert_eq!(swift.product, "Shared");
    assert_eq!(swift.package_path, "../Shared");
}

#[test]
fn a_swift_package_can_be_spelled_out() {
    let ffi = BoltFfi::new().swift_package("Shared", "SharedLib", "../../ffi/Shared");
    let swift = ffi.swift_ffi().expect("swift should be configured");

    assert_eq!(swift.product, "SharedLib");
    assert_eq!(swift.package_path, "../../ffi/Shared");
}

#[test]
fn kotlin_and_csharp_default_to_the_generated_package() {
    let ffi = BoltFfi::new().kotlin().csharp();

    assert_eq!(ffi.kotlin_ffi().expect("kotlin").package, None);
    assert_eq!(ffi.csharp_ffi().expect("csharp").namespace, None);

    let ffi = BoltFfi::new()
        .kotlin_package("com.example.ffi")
        .csharp_namespace("Example.Ffi");

    assert_eq!(
        ffi.kotlin_ffi().expect("kotlin").package.as_deref(),
        Some("com.example.ffi")
    );
    assert_eq!(
        ffi.csharp_ffi().expect("csharp").namespace.as_deref(),
        Some("Example.Ffi")
    );
}

#[test]
fn a_typescript_path_becomes_a_file_dependency() {
    let ffi = BoltFfi::new().typescript("shared", PackageLocation::Path("../pkg".to_string()));

    assert_eq!(
        ffi.typescript_ffi()
            .expect("typescript")
            .manifest_dependency(),
        r#""shared": "file:../pkg""#
    );
}

#[test]
fn a_published_typescript_package_uses_its_version() {
    let ffi = BoltFfi::new().typescript_package(
        "shared",
        PackageLocation::Url("https://npmjs.com/shared".to_string()),
        Some("^1.2.3"),
    );

    assert_eq!(
        ffi.typescript_ffi()
            .expect("typescript")
            .manifest_dependency(),
        r#""shared": "^1.2.3""#
    );
}

#[test]
fn a_language_that_is_not_named_stays_unconfigured() {
    let ffi = BoltFfi::new().swift("Shared");

    assert!(ffi.kotlin_ffi().is_none());
    assert!(ffi.typescript_ffi().is_none());
    assert!(ffi.csharp_ffi().is_none());
}

#[test]
fn a_published_package_without_a_version_is_named_by_its_url() {
    let ffi = BoltFfi::new().typescript_package(
        "shared",
        PackageLocation::Url("https://npmjs.com/shared".to_string()),
        None,
    );
    assert_eq!(
        ffi.typescript_ffi().expect("typescript").manifest_dependency(),
        r#""shared": "https://npmjs.com/shared""#
    );
}

#[test]
fn the_default_configuration_names_no_language() {
    let ffi = BoltFfi::default();
    assert_eq!(ffi.class_name(), "CoreFfi");
    assert!(ffi.swift_ffi().is_none());
    assert!(ffi.kotlin_ffi().is_none());
    assert!(ffi.typescript_ffi().is_none());
    assert!(ffi.csharp_ffi().is_none());
}

#[test]
fn the_bincode_runtime_is_found_where_the_serde_runtime_is() {
    assert_eq!(bincode_import_path(None), "./bincode");

    let local = ExternalPackage {
        for_namespace: "bincode".to_string(),
        location: PackageLocation::Path("../runtime".to_string()),
        module_name: None,
        version: None,
    };
    assert_eq!(bincode_import_path(Some(&local)), "bincode");

    let local_module = ExternalPackage {
        module_name: Some("mod".to_string()),
        ..local.clone()
    };
    assert_eq!(bincode_import_path(Some(&local_module)), "bincode/mod");

    let published = ExternalPackage {
        for_namespace: "bincode".to_string(),
        location: PackageLocation::Url("https://npmjs.com/bincode".to_string()),
        module_name: Some("mod".to_string()),
        version: Some("1.0.0".to_string()),
    };
    assert_eq!(bincode_import_path(Some(&published)), "bincode");
}
