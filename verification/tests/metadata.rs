use buildpkg::metadata::{
    read_package_info, version_source, Field, FinalPackageInfo, MetadataError, PackageInfo,
    RecipeFields, VersionSource,
};

fn list(items: &[&str]) -> Vec<String> {
    items.iter().map(|s| s.to_string()).collect()
}

fn complete_fields() -> RecipeFields {
    RecipeFields {
        name: Some("hello".to_string()),
        description: Some("Says hello".to_string()),
        url: Some("https://example.org/hello".to_string()),
        license: Some("MIT".to_string()),
        dev: Some(false),
        provides: Some(list(&["hello"])),
        arch: Some(list(&["x86_64", "aarch64"])),
        maintainers: Some(list(&["Ada", "Grace"])),
        version: Some("1.2.3".to_string()),
        dependencies: Some(list(&["libc"])),
        build_dependencies: Some(list(&["make"])),
        optional_dependencies: Some(list(&["man"])),
        conflicts: Some(list(&["hello-git"])),
        replaces: Some(list(&["hello-old"])),
    }
}

fn complete_info() -> PackageInfo {
    PackageInfo {
        name: "hello".to_string(),
        description: "Says hello".to_string(),
        version: Some("1.2.3".to_string()),
        license: "MIT".to_string(),
        dev: false,
        dependencies: list(&["libc"]),
        build_dependencies: list(&["make"]),
        optional_dependencies: list(&["man"]),
        conflicts: list(&["hello-git"]),
        provides: list(&["hello"]),
        replaces: list(&["hello-old"]),
        arch: list(&["x86_64", "aarch64"]),
        url: "https://example.org/hello".to_string(),
        maintainers: list(&["Ada", "Grace"]),
    }
}

#[test]
fn complete_fields_are_read_as_they_are() {
    assert_eq!(read_package_info(Some(complete_fields())), Ok(complete_info()));
}

#[test]
fn absent_optional_lists_are_empty() {
    let mut fields = complete_fields();
    fields.version = None;
    fields.dependencies = None;
    fields.build_dependencies = None;
    fields.optional_dependencies = None;
    fields.conflicts = None;
    fields.replaces = None;
    let info = read_package_info(Some(fields)).unwrap();
    assert_eq!(info.version, None);
    assert!(info.dependencies.is_empty());
    assert!(info.build_dependencies.is_empty());
    assert!(info.optional_dependencies.is_empty());
    assert!(info.conflicts.is_empty());
    assert!(info.replaces.is_empty());
    assert_eq!(info.provides, list(&["hello"]));
}

#[test]
fn a_recipe_without_a_table_is_refused() {
    assert_eq!(read_package_info(None), Err(MetadataError::MissingTable));
}

#[test]
fn each_required_field_is_missed() {
    let mut f = complete_fields();
    f.name = None;
    assert_eq!(read_package_info(Some(f)), Err(MetadataError::MissingField(Field::Name)));
    let mut f = complete_fields();
    f.description = None;
    assert_eq!(read_package_info(Some(f)), Err(MetadataError::MissingField(Field::Description)));
    let mut f = complete_fields();
    f.url = None;
    assert_eq!(read_package_info(Some(f)), Err(MetadataError::MissingField(Field::Url)));
    let mut f = complete_fields();
    f.license = None;
    assert_eq!(read_package_info(Some(f)), Err(MetadataError::MissingField(Field::License)));
    let mut f = complete_fields();
    f.dev = None;
    assert_eq!(read_package_info(Some(f)), Err(MetadataError::MissingField(Field::Dev)));
    let mut f = complete_fields();
    f.provides = None;
    assert_eq!(read_package_info(Some(f)), Err(MetadataError::MissingField(Field::Provides)));
    let mut f = complete_fields();
    f.arch = None;
    assert_eq!(read_package_info(Some(f)), Err(MetadataError::MissingField(Field::Arch)));
    let mut f = complete_fields();
    f.maintainers = None;
    assert_eq!(read_package_info(Some(f)), Err(MetadataError::MissingField(Field::Maintainers)));
}

#[test]
fn the_first_missing_field_is_the_one_reported() {
    let mut f = complete_fields();
    f.maintainers = None;
    f.license = None;
    f.arch = None;
    assert_eq!(read_package_info(Some(f)), Err(MetadataError::MissingField(Field::License)));
    let mut f = complete_fields();
    f.url = None;
    f.description = None;
    assert_eq!(read_package_info(Some(f)), Err(MetadataError::MissingField(Field::Description)));
}

#[test]
fn exactly_one_version_channel_is_accepted() {
    assert_eq!(version_source(true, false), Ok(VersionSource::Literal));
    assert_eq!(version_source(false, true), Ok(VersionSource::Callback));
}

#[test]
fn both_version_channels_are_rejected() {
    assert_eq!(version_source(true, true), Err(MetadataError::VersionDeclaredTwice));
}

#[test]
fn no_version_channel_is_rejected() {
    assert_eq!(version_source(false, false), Err(MetadataError::VersionUndeclared));
}

#[test]
fn metadata_error_messages() {
    assert_eq!(MetadataError::MissingTable.message(), "INFO table missing");
    assert_eq!(MetadataError::MissingField(Field::Name).message(), "name field missing");
    assert_eq!(
        MetadataError::MissingField(Field::Maintainers).message(),
        "maintainers field missing"
    );
    assert_eq!(
        MetadataError::VersionUndeclared.message(),
        "version field missing and VERSION function not found"
    );
    assert_eq!(
        MetadataError::VersionDeclaredTwice.message(),
        "version field and VERSION function both found"
    );
}

#[test]
fn field_keys() {
    assert_eq!(Field::Name.key(), "name");
    assert_eq!(Field::Description.key(), "description");
    assert_eq!(Field::Url.key(), "url");
    assert_eq!(Field::License.key(), "license");
    assert_eq!(Field::Dev.key(), "dev");
    assert_eq!(Field::Provides.key(), "provides");
    assert_eq!(Field::Arch.key(), "arch");
    assert_eq!(Field::Maintainers.key(), "maintainers");
}

#[test]
fn architecture_has_to_be_declared() {
    let info = complete_info();
    assert!(info.supports_arch("x86_64"));
    assert!(info.supports_arch("aarch64"));
    assert!(!info.supports_arch("riscv64"));
    assert!(!info.supports_arch("x86"));
}

#[test]
fn final_metadata_leaves_out_what_matters_only_while_building() {
    assert_eq!(
        complete_info().finalize(),
        FinalPackageInfo {
            name: "hello".to_string(),
            description: "Says hello".to_string(),
            version: "1.2.3".to_string(),
            license: "MIT".to_string(),
            dev: false,
            dependencies: list(&["libc"]),
            conflicts: list(&["hello-git"]),
            provides: list(&["hello"]),
            replaces: list(&["hello-old"]),
            arch: list(&["x86_64", "aarch64"]),
            url: "https://example.org/hello".to_string(),
            maintainers: list(&["Ada", "Grace"]),
        }
    );
}

#[test]
fn a_version_that_was_never_determined_is_written_as_zero() {
    let mut info = complete_info();
    info.version = None;
    assert_eq!(info.finalize().version, "0.0.0");
}

#[test]
fn artifact_is_named_by_name_version_and_architecture() {
    let done = complete_info().finalize();
    assert_eq!(done.artifact_name("x86_64"), "hello-1.2.3-x86_64.tar.gz");
}
