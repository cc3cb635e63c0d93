use aws_s3::config::{merge, resolve, ConfigSource, Configs, Layer};
use aws_s3::credentials::{credential_exports, publish, EnvVar};
use aws_s3::error::Error;

fn text(s: &str) -> Option<String> {
    Some(s.to_string())
}

fn file_layer() -> Layer {
    Layer {
        region: text("file-region"),
        bucket: text("file-bucket"),
        access_key_id: text("file-id"),
        secret_access_key: text("file-secret"),
        local: text("file-local"),
    }
}

fn flag_layer() -> Layer {
    Layer {
        region: text("flag-region"),
        bucket: text("flag-bucket"),
        access_key_id: text("flag-id"),
        secret_access_key: text("flag-secret"),
        local: text("flag-local"),
    }
}

fn keep(present: bool, value: &Option<String>) -> Option<String> {
    if present {
        value.clone()
    } else {
        None
    }
}

fn subset(of: &Layer, bits: u32) -> Layer {
    Layer {
        region: keep(bits & 1 != 0, &of.region),
        bucket: keep(bits & 2 != 0, &of.bucket),
        access_key_id: keep(bits & 4 != 0, &of.access_key_id),
        secret_access_key: keep(bits & 8 != 0, &of.secret_access_key),
        local: keep(bits & 16 != 0, &of.local),
    }
}

fn expected(flag: &Option<String>, file: &Option<String>) -> String {
    match flag {
        Some(v) => v.clone(),
        None => match file {
            Some(v) => v.clone(),
            None => String::new(),
        },
    }
}

#[test]
fn empty_layer_gives_no_key() {
    let layer = Layer::empty();
    assert_eq!(layer.region, None);
    assert_eq!(layer.bucket, None);
    assert_eq!(layer.access_key_id, None);
    assert_eq!(layer.secret_access_key, None);
    assert_eq!(layer.local, None);
}

#[test]
fn flags_win_and_absent_flags_keep_the_file_for_every_subset() {
    for file_bits in 0..32u32 {
        for flag_bits in 0..32u32 {
            let file = subset(&file_layer(), file_bits);
            let flags = subset(&flag_layer(), flag_bits);
            let config = resolve(ConfigSource::Loaded(file.clone()), flags.clone())
                .expect("a parsed file never fails");
            assert_eq!(config.region, expected(&flags.region, &file.region));
            assert_eq!(config.bucket, expected(&flags.bucket, &file.bucket));
            assert_eq!(
                config.access_key_id,
                expected(&flags.access_key_id, &file.access_key_id)
            );
            assert_eq!(
                config.secret_access_key,
                expected(&flags.secret_access_key, &file.secret_access_key)
            );
            assert_eq!(config.local, expected(&flags.local, &file.local));
            assert_eq!(merge(file, flags), config);
        }
    }
}

#[test]
fn flag_overrides_one_field_only() {
    let mut flags = Layer::empty();
    flags.bucket = text("other");
    let config = resolve(ConfigSource::Loaded(file_layer()), flags).unwrap();
    assert_eq!(
        config,
        Configs {
            region: "file-region".to_string(),
            bucket: "other".to_string(),
            access_key_id: "file-id".to_string(),
            secret_access_key: "file-secret".to_string(),
            local: "file-local".to_string(),
        }
    );
}

#[test]
fn empty_flag_value_still_wins() {
    let mut flags = Layer::empty();
    flags.region = text("");
    let config = resolve(ConfigSource::Loaded(file_layer()), flags).unwrap();
    assert_eq!(config.region, "");
    assert_eq!(config.bucket, "file-bucket");
}

#[test]
fn missing_file_is_not_an_error() {
    let config = resolve(ConfigSource::Missing, Layer::empty()).unwrap();
    assert_eq!(
        config,
        Configs {
            region: String::new(),
            bucket: String::new(),
            access_key_id: String::new(),
            secret_access_key: String::new(),
            local: String::new(),
        }
    );
    assert_eq!(config.local_path(), None);
}

#[test]
fn missing_file_keeps_the_flags() {
    let config = resolve(ConfigSource::Missing, flag_layer()).unwrap();
    assert_eq!(config.region, "flag-region");
    assert_eq!(config.bucket, "flag-bucket");
    assert_eq!(config.access_key_id, "flag-id");
    assert_eq!(config.secret_access_key, "flag-secret");
    assert_eq!(config.local, "flag-local");
    assert_eq!(config.local_path(), text("flag-local"));
}

#[test]
fn malformed_file_is_a_parse_error() {
    let why = "expected value at line 1 column 1".to_string();
    assert_eq!(
        resolve(ConfigSource::Malformed(why.clone()), flag_layer()),
        Err(Error::ConfigParse(why))
    );
}

#[test]
fn local_path_is_absent_when_empty() {
    let mut config = resolve(ConfigSource::Missing, Layer::empty()).unwrap();
    assert_eq!(config.local_path(), None);
    config.local = "out".to_string();
    assert_eq!(config.local_path(), text("out"));
}

#[test]
fn publish_skips_empty_values() {
    assert_eq!(publish("AWS_ACCESS_KEY_ID", ""), None);
    assert_eq!(
        publish("AWS_ACCESS_KEY_ID", "AKIA"),
        Some(EnvVar { name: "AWS_ACCESS_KEY_ID".to_string(), value: "AKIA".to_string() })
    );
    assert_eq!(
        publish("X", " "),
        Some(EnvVar { name: "X".to_string(), value: " ".to_string() })
    );
}

#[test]
fn credentials_are_exported_under_fixed_names() {
    let config = resolve(ConfigSource::Loaded(file_layer()), Layer::empty()).unwrap();
    assert_eq!(
        credential_exports(&config),
        vec![
            EnvVar { name: "AWS_ACCESS_KEY_ID".to_string(), value: "file-id".to_string() },
            EnvVar {
                name: "AWS_SECRET_ACCESS_KEY".to_string(),
                value: "file-secret".to_string()
            },
        ]
    );
}

#[test]
fn empty_credentials_are_not_exported() {
    let none = resolve(ConfigSource::Missing, Layer::empty()).unwrap();
    assert_eq!(credential_exports(&none), vec![]);

    let mut flags = Layer::empty();
    flags.secret_access_key = text("s3cr3t");
    let only_secret = resolve(ConfigSource::Missing, flags).unwrap();
    assert_eq!(
        credential_exports(&only_secret),
        vec![EnvVar { name: "AWS_SECRET_ACCESS_KEY".to_string(), value: "s3cr3t".to_string() }]
    );

    let mut flags = Layer::empty();
    flags.access_key_id = text("AKIA");
    let only_id = resolve(ConfigSource::Missing, flags).unwrap();
    assert_eq!(
        credential_exports(&only_id),
        vec![EnvVar { name: "AWS_ACCESS_KEY_ID".to_string(), value: "AKIA".to_string() }]
    );
}
