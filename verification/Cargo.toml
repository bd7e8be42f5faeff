[package]
name = "grafbase_core"
version = "0.1.0"
edition = "2021"
publish = false

[dependencies]
http = "1"
bytes = "1"
anyhow = "1"
thiserror = "*"
strum = { version = "*", features = ["derive"] }
serde = { version = "1", features = ["derive"] }
serde_json = "1"
cynic-parser = "*"
clap = { version = "4", features = ["derive"] }
clap_complete = "4"
tokio = { version = "1", features = ["macros", "rt-multi-thread"] }
enumflags2 = "*"
tracing = "0.1"
