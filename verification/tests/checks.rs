use mods_checker::checks::{
    check_dependencies, check_description, check_for_description_and_readme, check_name_unused,
    check_readme, compare_tag_and_version, compare_unique_names, post_install_checks,
    pre_install_check, select_mod_asset, CheckOutcome,
};
use mods_checker::kinds::{CheckerError, CheckerWarning};
use mods_checker::model::{ModManifest, RegistrySnapshot, ReleaseAsset, ReleaseMetadata};
use mods_checker::text::{ends_with_zip, split_repo_reference, strip_leading_v};

fn manifest(unique_name: &str, version: &str, dependencies: Option<Vec<&str>>) -> ModManifest {
    ModManifest {
        unique_name: unique_name.to_string(),
        version: version.to_string(),
        dependencies: dependencies.map(|d| d.into_iter().map(|s| s.to_string()).collect()),
        filename: None,
    }
}

fn registry(entries: &[(&str, &str)]) -> RegistrySnapshot {
    let mut reg = RegistrySnapshot::new();
    for (unique_name, name) in entries {
        reg.insert(unique_name.to_string(), name.to_string());
    }
    reg
}

fn release(tag: &str, assets: &[(&str, &str)]) -> ReleaseMetadata {
    ReleaseMetadata {
        tag_name: tag.to_string(),
        assets: assets
            .iter()
            .map(|(n, u)| ReleaseAsset { name: n.to_string(), download_url: u.to_string() })
            .collect(),
    }
}

#[test]
fn strip_leading_v_takes_one_v() {
    assert_eq!(strip_leading_v("v1.2.3"), "1.2.3");
    assert_eq!(strip_leading_v("1.2.3"), "1.2.3");
    assert_eq!(strip_leading_v(""), "");
    assert_eq!(strip_leading_v("v"), "");
    assert_eq!(strip_leading_v("vv2"), "v2");
    assert_eq!(strip_leading_v("V1"), "V1");
    assert_eq!(strip_leading_v("1.0v"), "1.0v");
    assert_eq!(strip_leading_v("vé1"), "é1");
}

#[test]
fn ends_with_zip_looks_at_the_last_four_characters() {
    assert!(ends_with_zip("mod.zip"));
    assert!(ends_with_zip(".zip"));
    assert!(ends_with_zip("é.zip"));
    assert!(!ends_with_zip("zip"));
    assert!(!ends_with_zip(""));
    assert!(!ends_with_zip("mod.ZIP"));
    assert!(!ends_with_zip("mod.zip.sha256"));
    assert!(!ends_with_zip("modzip"));
}

#[test]
fn split_repo_reference_parts_at_first_slash() {
    assert_eq!(
        split_repo_reference("owner/name"),
        Some(("owner".to_string(), "name".to_string()))
    );
    assert_eq!(split_repo_reference("a/b/c"), Some(("a".to_string(), "b/c".to_string())));
    assert_eq!(split_repo_reference("/x"), Some(("".to_string(), "x".to_string())));
    assert_eq!(split_repo_reference("x/"), Some(("x".to_string(), "".to_string())));
    assert_eq!(split_repo_reference("owner"), None);
    assert_eq!(split_repo_reference(""), None);
}

#[test]
fn version_check_passes_with_v_on_either_side() {
    let tag = "v1.2.3".to_string();
    assert_eq!(compare_tag_and_version(&tag, &manifest("a.b", "1.2.3", None)), Ok(()));
    let tag = "1.2.3".to_string();
    assert_eq!(compare_tag_and_version(&tag, &manifest("a.b", "v1.2.3", None)), Ok(()));
    let tag = "v1.2.3".to_string();
    assert_eq!(compare_tag_and_version(&tag, &manifest("a.b", "v1.2.3", None)), Ok(()));
    let tag = "1.2.3".to_string();
    assert_eq!(compare_tag_and_version(&tag, &manifest("a.b", "1.2.3", None)), Ok(()));
}

#[test]
fn version_check_fails_on_mismatch() {
    let tag = "v1.2.3".to_string();
    assert_eq!(
        compare_tag_and_version(&tag, &manifest("a.b", "1.2.4", None)),
        Err(CheckerError::UnexpectedVersion {
            expected: "1.2.3".to_string(),
            actual: "1.2.4".to_string()
        })
    );
}

#[test]
fn version_check_is_case_sensitive() {
    let tag = "V1.0.0".to_string();
    assert_eq!(
        compare_tag_and_version(&tag, &manifest("a.b", "1.0.0", None)),
        Err(CheckerError::UnexpectedVersion {
            expected: "V1.0.0".to_string(),
            actual: "1.0.0".to_string()
        })
    );
    let tag = "1.0.0-RC".to_string();
    assert!(compare_tag_and_version(&tag, &manifest("a.b", "1.0.0-rc", None)).is_err());
}

#[test]
fn unique_name_mismatch_is_reported() {
    let expected = "foo.bar".to_string();
    assert_eq!(
        compare_unique_names(&manifest("foo.baz", "1.0.0", None), &expected),
        Err(CheckerError::UnexpectedUniqueName {
            expected: "foo.bar".to_string(),
            actual: "foo.baz".to_string()
        })
    );
    assert_eq!(compare_unique_names(&manifest("foo.bar", "1.0.0", None), &expected), Ok(()));
}

#[test]
fn registry_lookup_gives_display_name() {
    let reg = registry(&[("a.one", "One"), ("b.two", "Two"), ("a.one", "Renamed")]);
    assert_eq!(reg.get_mod(&"a.one".to_string()), Some(&"Renamed".to_string()));
    assert_eq!(reg, registry(&[("a.one", "Renamed"), ("b.two", "Two")]));
    assert_eq!(reg.get_mod(&"b.two".to_string()), Some(&"Two".to_string()));
    assert_eq!(reg.get_mod(&"c.three".to_string()), None);
    assert!(reg.contains_key(&"b.two".to_string()));
    assert!(!reg.contains_key(&"Two".to_string()));
    assert!(!RegistrySnapshot::new().contains_key(&"a.one".to_string()));
}

#[test]
fn name_in_use_carries_the_display_name() {
    let reg = registry(&[("a.one", "One")]);
    assert_eq!(
        check_name_unused(&reg, &"a.one".to_string()),
        Err(CheckerError::UniqueNameInUse("One".to_string()))
    );
    assert_eq!(check_name_unused(&reg, &"a.two".to_string()), Ok(()));
}

#[test]
fn missing_dependency_is_reported_by_name() {
    let reg = registry(&[("a.one", "One"), ("b.two", "Two")]);
    let m = manifest("c.three", "1.0.0", Some(vec!["a.one", "x.missing", "y.missing"]));
    assert_eq!(
        check_dependencies(&m, &reg),
        Err(CheckerError::MissingDependency("x.missing".to_string()))
    );
}

#[test]
fn dependencies_pass_when_all_registered_or_none_declared() {
    let reg = registry(&[("a.one", "One"), ("b.two", "Two")]);
    assert_eq!(
        check_dependencies(&manifest("c", "1", Some(vec!["b.two", "a.one"])), &reg),
        Ok(())
    );
    assert_eq!(check_dependencies(&manifest("c", "1", Some(vec![])), &reg), Ok(()));
    assert_eq!(check_dependencies(&manifest("c", "1", None), &reg), Ok(()));
    assert_eq!(
        check_dependencies(&manifest("c", "1", Some(vec!["a.one"])), &RegistrySnapshot::new()),
        Err(CheckerError::MissingDependency("a.one".to_string()))
    );
}

#[test]
fn mod_asset_is_the_first_archive() {
    let rel = release(
        "v1",
        &[
            ("notes.txt", "https://h/notes.txt"),
            ("mod.zip", "https://h/mod.zip"),
            ("other.zip", "https://h/other.zip"),
        ],
    );
    assert_eq!(select_mod_asset(&rel), Ok("https://h/mod.zip".to_string()));
    let rel = release("v1", &[("notes.txt", "https://h/notes.txt")]);
    assert_eq!(select_mod_asset(&rel), Err(CheckerError::MissingModAsset));
    assert_eq!(select_mod_asset(&release("v1", &[])), Err(CheckerError::MissingModAsset));
}

#[test]
fn description_and_readme_give_warnings_in_order() {
    assert_eq!(
        check_description(&None),
        CheckOutcome::PassWithWarning(CheckerWarning::MissingDescription)
    );
    assert_eq!(
        check_description(&Some(String::new())),
        CheckOutcome::PassWithWarning(CheckerWarning::MissingDescription)
    );
    assert_eq!(check_description(&Some("A mod".to_string())), CheckOutcome::Pass);
    assert_eq!(check_readme(true), CheckOutcome::Pass);
    assert_eq!(
        check_readme(false),
        CheckOutcome::PassWithWarning(CheckerWarning::MissingReadme)
    );

    let mut warnings = vec![];
    check_for_description_and_readme(&None, false, &mut warnings);
    assert_eq!(
        warnings,
        vec![CheckerWarning::MissingDescription, CheckerWarning::MissingReadme]
    );
    let mut warnings = vec![CheckerWarning::MissingReadme];
    check_for_description_and_readme(&Some("A mod".to_string()), true, &mut warnings);
    assert_eq!(warnings, vec![CheckerWarning::MissingReadme]);
    let mut warnings = vec![];
    check_for_description_and_readme(&Some("A mod".to_string()), false, &mut warnings);
    assert_eq!(warnings, vec![CheckerWarning::MissingReadme]);
    let mut warnings = vec![];
    check_for_description_and_readme(&Some(String::new()), true, &mut warnings);
    assert_eq!(warnings, vec![CheckerWarning::MissingDescription]);
}

#[test]
fn pre_install_check_needs_expected_name_and_remote_check() {
    let reg = registry(&[("foo.bar", "Foo Bar")]);
    let expected = Some("foo.bar".to_string());
    assert_eq!(
        pre_install_check(&expected, true, &reg),
        Err(CheckerError::UniqueNameInUse("Foo Bar".to_string()))
    );
    assert_eq!(pre_install_check(&expected, false, &reg), Ok(()));
    assert_eq!(pre_install_check(&None, true, &reg), Ok(()));
    assert_eq!(pre_install_check(&Some("new.mod".to_string()), true, &reg), Ok(()));
}

#[test]
fn post_install_checks_run_in_order() {
    let reg = registry(&[("taken.name", "Taken")]);
    let tag = Some("v2.0.0".to_string());
    let expected = Some("foo.bar".to_string());
    // Version comes before the unique name and the dependencies.
    let m = manifest("foo.baz", "1.0.0", Some(vec!["gone"]));
    assert_eq!(
        post_install_checks(&tag, &expected, true, &reg, &m),
        Err(CheckerError::UnexpectedVersion {
            expected: "2.0.0".to_string(),
            actual: "1.0.0".to_string()
        })
    );
    // Without a release there is no version check.
    assert_eq!(
        post_install_checks(&None, &expected, true, &reg, &m),
        Err(CheckerError::UnexpectedUniqueName {
            expected: "foo.bar".to_string(),
            actual: "foo.baz".to_string()
        })
    );
    // The unique name comes before the dependencies.
    let m = manifest("taken.name", "2.0.0", Some(vec!["gone"]));
    assert_eq!(
        post_install_checks(&tag, &None, true, &reg, &m),
        Err(CheckerError::UniqueNameInUse("Taken".to_string()))
    );
    assert_eq!(
        post_install_checks(&tag, &None, false, &reg, &m),
        Err(CheckerError::MissingDependency("gone".to_string()))
    );
    let m = manifest("new.name", "2.0.0", Some(vec!["taken.name"]));
    assert_eq!(post_install_checks(&tag, &None, true, &reg, &m), Ok(()));
}

#[test]
fn skip_exists_keeps_the_exact_match() {
    let reg = registry(&[("foo.bar", "Foo Bar"), ("foo.baz", "Foo Baz")]);
    let expected = Some("foo.bar".to_string());
    let m = manifest("foo.baz", "1.0.0", None);
    assert_eq!(
        post_install_checks(&None, &expected, false, &reg, &m),
        Err(CheckerError::UnexpectedUniqueName {
            expected: "foo.bar".to_string(),
            actual: "foo.baz".to_string()
        })
    );
    // An expected name that is installed passes although the registry holds it.
    let m = manifest("foo.bar", "1.0.0", None);
    assert_eq!(post_install_checks(&None, &expected, false, &reg, &m), Ok(()));
    assert_eq!(post_install_checks(&None, &expected, true, &reg, &m), Ok(()));
    // Without an expected name the collision check is what is switched off.
    assert_eq!(post_install_checks(&None, &None, false, &reg, &m), Ok(()));
    assert_eq!(
        post_install_checks(&None, &None, true, &reg, &m),
        Err(CheckerError::UniqueNameInUse("Foo Bar".to_string()))
    );
}
