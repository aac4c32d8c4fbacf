use manifest_version::extract::extract_cargo_version;
use manifest_version::extract::extract_composer_version;
use manifest_version::extract::extract_gradle_version;
use manifest_version::extract::extract_mix_version;
use manifest_version::extract::extract_package_version;
use manifest_version::extract::extract_poetry_version;
use manifest_version::extract::extract_project_version;
use manifest_version::normalize::format_version;

#[test]
fn test_format_version() {
    assert_eq!(format_version("0.1.0"), "v0.1.0");
    assert_eq!(format_version(" 0.1.0 "), "v0.1.0");
    assert_eq!(format_version("0.1.0 "), "v0.1.0");
    assert_eq!(format_version(" 0.1.0"), "v0.1.0");
    assert_eq!(format_version("\"0.1.0\""), "v0.1.0");

    assert_eq!(format_version("v0.1.0"), "v0.1.0");
    assert_eq!(format_version(" v0.1.0 "), "v0.1.0");
    assert_eq!(format_version(" v0.1.0"), "v0.1.0");
    assert_eq!(format_version("v0.1.0 "), "v0.1.0");
    assert_eq!(format_version("\"v0.1.0\""), "v0.1.0");
}

#[test]
fn test_extract_cargo_version() {
    let cargo_with_version = "[package]\nname = \"starship\"\nversion = \"0.1.0\"\n";

    let expected_version = Some("v0.1.0".to_string());
    assert_eq!(extract_cargo_version(cargo_with_version), expected_version);

    let cargo_without_version = "[package]\nname = \"starship\"\n";

    let expected_version = None;
    assert_eq!(extract_cargo_version(cargo_without_version), expected_version);
}

#[test]
fn test_extract_package_version() {
    let package_with_version = "{\"name\":\"spacefish\",\"version\":\"0.1.0\"}";

    let expected_version = Some("v0.1.0".to_string());
    assert_eq!(extract_package_version(package_with_version), expected_version);
}

#[test]
fn test_extract_package_version_without_version() {
    let package_without_version = "{\"name\":\"spacefish\"}";

    let expected_version = None;
    assert_eq!(
        extract_package_version(package_without_version),
        expected_version
    );
}

#[test]
fn test_extract_package_version_with_null_version() {
    let package_with_null_version = "{\"name\":\"spacefish\",\"version\":null}";

    let expected_version = None;
    assert_eq!(
        extract_package_version(package_with_null_version),
        expected_version
    );
}

#[test]
fn test_extract_package_version_with_null_string_version() {
    let package_with_null_string_version = "{\"name\":\"spacefish\",\"version\":\"null\"}";

    let expected_version = None;
    assert_eq!(
        extract_package_version(package_with_null_string_version),
        expected_version
    );
}

#[test]
fn test_extract_private_package_version() {
    let private_package = "{\"name\":\"spacefish\",\"version\":\"0.1.0\",\"private\":true}";

    let expected_version = None;
    assert_eq!(extract_package_version(private_package), expected_version);
}

#[test]
fn test_extract_poetry_version() {
    let poetry_with_version = "[tool.poetry]\nname = \"starship\"\nversion = \"0.1.0\"\n";

    let expected_version = Some("v0.1.0".to_string());
    assert_eq!(extract_poetry_version(poetry_with_version), expected_version);

    let poetry_without_version = "[tool.poetry]\nname = \"starship\"\n";

    let expected_version = None;
    assert_eq!(
        extract_poetry_version(poetry_without_version),
        expected_version
    );
}

#[test]
fn test_extract_gradle_version() {
    let gradle_single_quotes = "plugins {
    id 'java'
    id 'test.plugin' version '0.2.0'
}
version '0.1.0'
java {
    sourceCompatibility = JavaVersion.VERSION_1_8
    targetCompatibility = JavaVersion.VERSION_1_8
}";

    let expected_version = Some("v0.1.0".to_string());
    assert_eq!(extract_gradle_version(gradle_single_quotes), expected_version);

    let gradle_double_quotes = "plugins {
    id 'java'
    id 'test.plugin' version '0.2.0'
}
version \"0.1.0\"
java {
    sourceCompatibility = JavaVersion.VERSION_1_8
    targetCompatibility = JavaVersion.VERSION_1_8
}";

    let expected_version = Some("v0.1.0".to_string());
    assert_eq!(extract_gradle_version(gradle_double_quotes), expected_version);

    let gradle_release_candidate = "plugins {
    id 'java'
    id 'test.plugin' version '0.2.0'
}
version '0.1.0-rc1'
java {
    sourceCompatibility = JavaVersion.VERSION_1_8
    targetCompatibility = JavaVersion.VERSION_1_8
}";

    let expected_version = Some("v0.1.0-rc1".to_string());
    assert_eq!(
        extract_gradle_version(gradle_release_candidate),
        expected_version
    );

    let gradle_without_version = "plugins {
    id 'java'
    id 'test.plugin' version '0.2.0'
}
java {
    sourceCompatibility = JavaVersion.VERSION_1_8
    targetCompatibility = JavaVersion.VERSION_1_8
}";

    let expected_version = None;
    assert_eq!(
        extract_gradle_version(gradle_without_version),
        expected_version
    );
}

#[test]
fn test_extract_mix_version() {
    let mix_complete = "defmodule MyApp.MixProject do
  use Mix.Project

  def project do
    [
      app: :my_app,
      version: \"1.2.3\",
      elixir: \"~> 1.10\",
      start_permanent: Mix.env() == :prod,
      deps: deps()
    ]
  end

  # Run \"mix help compile.app\" to learn about applications.
  def application do
    [extra_applications: [:logger]]
  end

  # Run \"mix help deps\" to learn about dependencies.
  defp deps do
    []
  end
end";

    let expected_version = Some("v1.2.3".to_string());
    assert_eq!(extract_mix_version(mix_complete), expected_version);

    let mix_partial_oneline = "  def project, do: [app: :my_app,version: \"3.2.1\"]";

    let expected_version = Some("v3.2.1".to_string());
    assert_eq!(extract_mix_version(mix_partial_oneline), expected_version);

    let mix_partial_prerelease = "  def project do
    [
      app: :my_app,
      version: \"1.0.0-alpha.3\"
    ]
  end";

    let expected_version = Some("v1.0.0-alpha.3".to_string());
    assert_eq!(extract_mix_version(mix_partial_prerelease), expected_version);

    let mix_partial_prerelease_and_build_info = "  def project do
    [
      app: :my_app,
      version: \"0.9.9-dev+20130417140000.amd64\"
    ]
  end";

    let expected_version = Some("v0.9.9-dev+20130417140000.amd64".to_string());
    assert_eq!(
        extract_mix_version(mix_partial_prerelease_and_build_info),
        expected_version
    );
}

#[test]
fn test_extract_composer_version() {
    let composer_with_version = "{\"name\":\"spacefish\",\"version\":\"0.1.0\"}";

    let expected_version = Some("v0.1.0".to_string());
    assert_eq!(
        extract_composer_version(composer_with_version),
        expected_version
    );

    let composer_without_version = "{\"name\":\"spacefish\"}";

    let expected_version = None;
    assert_eq!(
        extract_composer_version(composer_without_version),
        expected_version
    );
}

#[test]
fn test_extract_project_version() {
    let project_with_version = "name = \"starship\"\nversion = \"0.1.0\"\n";

    let expected_version = Some("v0.1.0".to_string());
    assert_eq!(
        extract_project_version(project_with_version),
        expected_version
    );

    let project_without_version = "[package]\nname = \"starship\"\n";

    let expected_version = None;
    assert_eq!(
        extract_project_version(project_without_version),
        expected_version
    );
}
