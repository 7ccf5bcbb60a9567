[package]
name = "autovocoder_nice"
version = "0.1.0"
edition = "2021"
publish = false

[dependencies]
atomig = { version = "=0.4.3", features = ["derive"] }
egui = "=0.37.0"
nice-plug = "=0.4.2"
nice-plug-egui = "=0.6.0"
tracing = "=0.1.44"
tracing-subscriber = "=0.3.23"
