[package]
name = "sep2_bridge"
version = "0.1.0"
edition = "2021"
publish = false

[dependencies]
async-broadcast = "=0.7.2"
chrono = "=0.4.45"
clap = { version = "=4.6.7", features = ["derive", "env"] }
derive_more = { version = "=2.1.1", features = ["display"] }
env_logger = "=0.11.11"
exponential-backoff = "=2.1.1"
git-version = "=0.3.9"
log = "=0.4.35"
num-traits = "=0.2.19"
prometheus-client = "=0.25.2"
rand = "=0.10.3"
sep2_client = { version = "=0.1.0", features = ["csip_aus"] }
sep2_common = { version = "=0.1.0", features = ["csip_aus", "dcap", "der", "edev", "fsa", "metering_mirror", "response", "time"] }
sunspec = "=0.9.1"
tokio = { version = "=1.54.1", features = ["full"] }
tokio-modbus = "=0.17.0"
url = "=2.5.8"
