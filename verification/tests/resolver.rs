use manifest_version::extract::extract_composer_version;
use manifest_version::extract::extract_mix_version;
use manifest_version::normalize::format_version;
use manifest_version::resolve::get_package_version;
use manifest_version::resolve::manifest_file_names;
use manifest_version::resolve::module;

fn no_reads() -> Vec<Option<String>> {
    vec![None, None, None, None, None, None, None]
}

#[test]
fn format_version_is_idempotent() {
    for raw in ["0.1.0", " 0.1.0 ", "\"v2.0.0\"", "", "  ", "\"\"", "version"] {
        let once = format_version(raw);
        let twice = format_version(&once);
        assert_eq!(twice, once);
    }
}

#[test]
fn format_version_always_prefixes_v() {
    for raw in ["0.1.0", "x", "", " ", "\"", "v", "7"] {
        let formatted = format_version(raw);
        assert!(formatted.starts_with('v'));
        assert!(!formatted.is_empty());
    }
}

#[test]
fn format_version_empty_input_yields_bare_v() {
    assert_eq!(format_version(""), "v");
    assert_eq!(format_version(" \"\" "), "v");
}

#[test]
fn composer_null_string_version_is_suppressed() {
    let composer_with_null_string = "{\"name\":\"spacefish\",\"version\":\"null\"}";
    assert_eq!(extract_composer_version(composer_with_null_string), None);

    let composer_with_null_value = "{\"name\":\"spacefish\",\"version\":null}";
    assert_eq!(extract_composer_version(composer_with_null_value), None);
}

#[test]
fn mix_without_version_yields_none() {
    let mix_without_version = "defmodule MyApp.MixProject do\n  use Mix.Project\nend\n";
    assert_eq!(extract_mix_version(mix_without_version), None);
}

#[test]
fn malformed_manifests_yield_none() {
    assert_eq!(extract_composer_version("{not json"), None);
    assert_eq!(
        manifest_version::extract::extract_cargo_version("= not toml ="),
        None
    );
}

#[test]
fn candidate_files_are_probed_in_fixed_order() {
    let names = manifest_file_names();
    let expected = [
        "Cargo.toml",
        "package.json",
        "pyproject.toml",
        "composer.json",
        "build.gradle",
        "Project.toml",
        "mix.exs",
    ];
    assert_eq!(names.len(), expected.len());
    for (name, want) in names.iter().zip(expected.iter()) {
        assert_eq!(name, want);
    }
}

#[test]
fn resolver_cargo_manifest_only() {
    let mut texts = no_reads();
    texts[0] = Some("[package]\nname = \"x\"\nversion = \"0.1.0\"\n".to_string());
    assert_eq!(get_package_version(&texts), Some("v0.1.0".to_string()));
}

#[test]
fn resolver_first_readable_candidate_wins() {
    // A versionless Cargo manifest is selected by read priority; the valid
    // Node manifest after it is never consulted.
    let mut texts = no_reads();
    texts[0] = Some("[package]\nname = \"x\"\n".to_string());
    texts[1] = Some("{\"name\":\"y\",\"version\":\"1.0.0\"}".to_string());
    assert_eq!(get_package_version(&texts), None);
}

#[test]
fn resolver_empty_directory_yields_none() {
    assert_eq!(get_package_version(&no_reads()), None);
}

#[test]
fn resolver_later_candidate_used_when_earlier_unreadable() {
    let mut texts = no_reads();
    texts[6] = Some("  def project, do: [app: :my_app,version: \"3.2.1\"]".to_string());
    assert_eq!(get_package_version(&texts), Some("v3.2.1".to_string()));
}

#[test]
fn module_carries_prefix_and_version() {
    let mut texts = no_reads();
    texts[0] = Some("[package]\nname = \"x\"\nversion = \"0.1.0\"\n".to_string());
    let m = module(&texts).unwrap();
    assert_eq!(m.prefix, "is ");
    assert_eq!(m.version, "v0.1.0");

    assert!(module(&no_reads()).is_none());
}
