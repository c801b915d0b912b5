[package]
name = "lighthouse"
version = "0.1.0"
edition = "2021"
publish = false

[dependencies]
anyhow = "=1.0.104"
futures = "=0.3.34"
indoc = "=1.0.9"
log = "=0.4.34"
log4rs = "=1.4.0"
sysinfo = "=0.26.9"
thiserror = "=1.0.69"
tokio = { version = "=1.54.1", features = ["macros", "rt-multi-thread"] }
twilight-gateway = "=0.14.2"
twilight-http = "=0.14.4"
twilight-model = "=0.14.5"
twilight-util = { version = "=0.14.2", features = ["builder"] }
twilight-validate = "=0.14.2"
