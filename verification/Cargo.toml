[package]
name = "wmde_comp"
version = "0.1.0"
edition = "2021"
publish = false

[dependencies]
anyhow = "1"
calloop = { version = "0.14", features = ["executor", "stream"] }
futures-executor = "0.3"
log-panics = "2"
logind-zbus = "5"
smallvec = { version = "1", features = ["const_new"] }
smithay = { version = "0.7", default-features = false, features = ["wayland_frontend"] }
tracing = "0.1"
tracing-journald = "0.3"
tracing-subscriber = { version = "0.3", features = ["env-filter"] }
zbus = "5"
