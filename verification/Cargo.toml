[package]
name = "fdb-cli"
version = "0.1.0"
edition = "2021"
publish = false

[dependencies]
protofish = "=0.5.3"
bytes = "=1.12.1"
serde_json = { version = "=1.0.154", features = ["preserve_order"] }
serde = { version = "=1.0.229", features = ["derive"] }
os_type = "=2.6.0"
confy = "=2.0.0"
tokio = { version = "=1.54.1", features = ["fs", "rt-multi-thread", "macros", "time"] }
tracing = "=0.1.44"
tracing-subscriber = "=0.3.23"
trompt = "=0.0.4"
foundationdb = { version = "=0.11.0", features = ["embedded-fdb-include", "fdb-7_1"] }
