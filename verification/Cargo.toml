[package]
name = "ironbar"
version = "0.1.0"
edition = "2021"
publish = false

[dependencies]
cfg-if = "1"
clap = { version = "4", features = ["derive"] }
color-eyre = "0.6"
ctrlc = "3"
dirs = "*"
glib = "0.18"
gtk = "0.18"
notify = "*"
serde = { version = "1", features = ["derive"] }
smithay-client-toolkit = { version = "*", default-features = false }
tokio = { version = "1", features = ["macros", "rt-multi-thread", "sync", "time"] }
tracing = "0.1"
universal-config = "*"
