[package]
name = "w3g_common"
version = "0.1.0"
edition = "2021"
publish = false

[dependencies]
libflate = "=2.3.2"
bbt = "=1.0.0"
kafka = { version = "=0.10.0", default-features = false }
rmp-serde = "=1.3.1"
serde = { version = "=1.0.229", features = ["derive"] }
serde_json = "=1.0.151"
mongodb = { version = "=3.9.1", features = ["sync"] }
reqwest = { version = "=0.13.5", default-features = false, features = ["blocking"] }
select = "=0.6.1"
regex = "=1.13.1"
log = "=0.4.34"
env_logger = "=0.11.11"
triple_buffer = "=9.0.0"
chrono = "=0.4.45"
