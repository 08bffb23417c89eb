pub mod yaml_config;
