use wheel_scanner::envvars::{count_env_mismatches, parse_key_val, split_comma_names,
    var_names_from_text};
use wheel_scanner::locator::{classify_wheel_path, parse_gcs_uri, GcsUriError, WheelSource};
use wheel_scanner::requirement::{extract_dependency_version_from_metadata, parse_requirement};

fn pairs(list: &[(&str, &str)]) -> Vec<(String, String)> {
    list.iter().map(|(k, v)| (k.to_string(), v.to_string())).collect()
}

#[test]
fn key_val_splits_at_first_equals() {
    assert_eq!(
        parse_key_val("CUDA_VERSION=12.1"),
        Ok(("CUDA_VERSION".to_string(), "12.1".to_string()))
    );
    assert_eq!(parse_key_val("A=B=C"), Ok(("A".to_string(), "B=C".to_string())));
    assert_eq!(parse_key_val("X="), Ok(("X".to_string(), "".to_string())));
    assert_eq!(parse_key_val("=v"), Ok(("".to_string(), "v".to_string())));
}

#[test]
fn key_val_without_equals_is_rejected() {
    assert_eq!(
        parse_key_val("NOEQUALS"),
        Err("invalid KEY=value: no `=` found in `NOEQUALS`".to_string())
    );
}

#[test]
fn requirement_with_version_operator() {
    let p = parse_requirement("torch>=1.0").unwrap();
    assert_eq!(p.name, "torch");
    assert_eq!(p.version_spec, ">=1.0");
}

#[test]
fn requirement_with_environment_marker() {
    let p = parse_requirement("torch>=1.0; extra == 'torch'").unwrap();
    assert_eq!(p.name, "torch");
    assert_eq!(p.version_spec, ">=1.0");
}

#[test]
fn requirement_without_version() {
    let p = parse_requirement("  numpy  ").unwrap();
    assert_eq!(p.name, "numpy");
    assert_eq!(p.version_spec, "");
}

#[test]
fn requirement_operator_search_order() {
    // The two-character operators are searched before the one-character
    // ones, so `<=` is not split at `<`.
    let p = parse_requirement("pkg<=2.0").unwrap();
    assert_eq!(p.name, "pkg");
    assert_eq!(p.version_spec, "<=2.0");
    let p = parse_requirement("pkg<2.0").unwrap();
    assert_eq!(p.name, "pkg");
    assert_eq!(p.version_spec, "<2.0");
    let p = parse_requirement("pkg~=3.1").unwrap();
    assert_eq!(p.name, "pkg");
    assert_eq!(p.version_spec, "~=3.1");
    let p = parse_requirement("pkg!=1.2").unwrap();
    assert_eq!(p.name, "pkg");
    assert_eq!(p.version_spec, "!=1.2");
    let p = parse_requirement("pkg==1.2.3").unwrap();
    assert_eq!(p.name, "pkg");
    assert_eq!(p.version_spec, "==1.2.3");
}

#[test]
fn extracts_dependency_version_from_metadata_text() {
    let metadata = "Metadata-Version: 2.1\n\
                    Name: example\n\
                    Requires-Dist: numpy>=1.20\n\
                    Requires-Dist: Torch ==2.1.0 ; extra == 'gpu'\n\
                    Requires-Dist: requests\n";
    assert_eq!(
        extract_dependency_version_from_metadata(metadata, "torch"),
        Some("==2.1.0".to_string())
    );
    assert_eq!(
        extract_dependency_version_from_metadata(metadata, "NUMPY"),
        Some(">=1.20".to_string())
    );
    assert_eq!(
        extract_dependency_version_from_metadata(metadata, "requests"),
        Some("".to_string())
    );
    assert_eq!(extract_dependency_version_from_metadata(metadata, "scipy"), None);
}

#[test]
fn comma_list_is_trimmed_and_filtered() {
    let names = split_comma_names(" A , B ,, C,");
    assert_eq!(names, vec!["A", "B", "C"]);
    assert_eq!(split_comma_names(""), Vec::<String>::new());
    assert_eq!(split_comma_names(" , ,"), Vec::<String>::new());
    assert_eq!(split_comma_names("ONE"), vec!["ONE"]);
}

#[test]
fn var_names_skip_comments_and_blank_lines() {
    let text = "# build switches\nCUDA_VERSION\n\n  CC  \n\t\n# tail\nCXX\r\n";
    assert_eq!(var_names_from_text(text), vec!["CUDA_VERSION", "CC", "CXX"]);
    assert_eq!(var_names_from_text(""), Vec::<String>::new());
}

#[test]
fn mismatch_count_checks_recorded_environment() {
    let meta = pairs(&[("CUDA_VERSION", "12.1"), ("CC", "gcc")]);
    assert_eq!(count_env_mismatches(&meta, &pairs(&[("CUDA_VERSION", "12.1")])), 0);
    assert_eq!(count_env_mismatches(&meta, &pairs(&[("CUDA_VERSION", "11.8")])), 1);
    assert_eq!(count_env_mismatches(&meta, &pairs(&[("CUDNN_VERSION", "9")])), 1);
    assert_eq!(
        count_env_mismatches(
            &meta,
            &pairs(&[("CUDA_VERSION", "12.1"), ("CC", "clang"), ("LDFLAGS", "-s")])
        ),
        2
    );
    assert_eq!(count_env_mismatches(&meta, &pairs(&[])), 0);
}

#[test]
fn wheel_paths_are_classified_by_scheme() {
    assert_eq!(classify_wheel_path("gs://bucket/a.whl"), WheelSource::Cloud);
    assert_eq!(classify_wheel_path("http://pypi.org/a.whl"), WheelSource::Registry);
    assert_eq!(classify_wheel_path("https://pypi.org/a.whl"), WheelSource::Registry);
    assert_eq!(classify_wheel_path("dist/a.whl"), WheelSource::LocalFile);
    assert_eq!(classify_wheel_path("gs:/bucket"), WheelSource::LocalFile);
}

#[test]
fn gcs_uris_split_into_bucket_and_object() {
    assert_eq!(
        parse_gcs_uri("gs://bucket/path/to/wheel.whl"),
        Ok(("bucket".to_string(), "path/to/wheel.whl".to_string()))
    );
    assert_eq!(parse_gcs_uri("gs://bucket/"), Ok(("bucket".to_string(), "".to_string())));
    assert_eq!(parse_gcs_uri("gs://bucket"), Err(GcsUriError::MissingObjectPath));
    assert_eq!(parse_gcs_uri("s3://bucket/obj"), Err(GcsUriError::MissingScheme));
}
