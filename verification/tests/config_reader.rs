use local_storage_vec::{
    deserialize_config, Config, ConfigDeserializer, ConfigError, JsonDeserializer, YmlDeserializer,
};

fn sample_json() -> String {
    "{\"port\": 8080, \"base_url\": \"https://example.org\", \"s3_path\": \"/var/data\", \"database_url\": \"postgres://localhost/app\"}".to_owned()
}

fn sample_yaml() -> String {
    "port: 8080\nbase_url: https://example.org\ns3_path: /var/data\ndatabase_url: postgres://localhost/app\n".to_owned()
}

fn check_sample(config: &Config) {
    assert_eq!(config.port, 8080);
    assert_eq!(config.base_url, "https://example.org");
    assert_eq!(config.s3_path, "/var/data");
    assert_eq!(config.database_url, "postgres://localhost/app");
}

#[test]
fn json_text_parses_into_the_record() {
    let result = JsonDeserializer::new().deserialize(&sample_json());
    match result {
        Ok(config) => check_sample(&config),
        Err(_) => panic!("expected the JSON sample to parse"),
    }
}

#[test]
fn yaml_text_parses_into_the_record() {
    let result = YmlDeserializer::new().deserialize(&sample_yaml());
    match result {
        Ok(config) => check_sample(&config),
        Err(_) => panic!("expected the YAML sample to parse"),
    }
}

#[test]
fn malformed_json_reports_a_json_tagged_error() {
    let result = JsonDeserializer::new().deserialize("{ not json at all");
    assert!(matches!(result, Err(ConfigError::Json(_))));
}

#[test]
fn malformed_yaml_reports_a_yaml_tagged_error() {
    let result = YmlDeserializer::new().deserialize(": : :\n\t- broken");
    assert!(matches!(result, Err(ConfigError::Yaml(_))));
}

#[test]
fn missing_field_is_rejected() {
    let text = "{\"port\": 8080, \"base_url\": \"https://example.org\"}";
    let result = JsonDeserializer::new().deserialize(text);
    assert!(matches!(result, Err(ConfigError::Json(_))));
}

#[test]
fn ill_typed_field_is_rejected() {
    let text = "{\"port\": \"eighty\", \"base_url\": \"https://example.org\", \"s3_path\": \"/var/data\", \"database_url\": \"postgres://localhost/app\"}";
    let result = JsonDeserializer::new().deserialize(text);
    assert!(matches!(result, Err(ConfigError::Json(_))));
}

#[test]
fn out_of_range_port_is_rejected() {
    let text = "{\"port\": 70000, \"base_url\": \"https://example.org\", \"s3_path\": \"/var/data\", \"database_url\": \"postgres://localhost/app\"}";
    let result = JsonDeserializer::new().deserialize(text);
    assert!(matches!(result, Err(ConfigError::Json(_))));
    let yaml_text = "port: 70000\nbase_url: a\ns3_path: b\ndatabase_url: c\n";
    let result = YmlDeserializer::new().deserialize(yaml_text);
    assert!(matches!(result, Err(ConfigError::Yaml(_))));
}

#[test]
fn dispatch_keeps_each_readers_error_tag() {
    let json_err = deserialize_config(&JsonDeserializer::new(), "port: 1\n");
    assert!(matches!(json_err, Err(ConfigError::Json(_))));
    let yaml_ok = deserialize_config(&YmlDeserializer::new(), &sample_yaml());
    assert!(yaml_ok.is_ok());
    let json_ok = deserialize_config(&JsonDeserializer::new(), &sample_json());
    assert!(json_ok.is_ok());
}
