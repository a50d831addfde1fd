[package]
name = "cu"
version = "0.1.0"
edition = "2021"
publish = false

[dependencies]
anyhow = "1"
base64 = "0.22"
clap = { version = "4", features = ["derive"] }
enigo = { version = "*", default-features = false, features = ["wayland"] }
image = { version = "0.25", default-features = false, features = ["png"] }
libwayshot = "*"
rmcp = { version = "*", features = ["server", "macros", "transport-io"] }
rustix = { version = "1", features = ["fs", "process", "rand", "pipe"] }
schemars = "1"
serde = { version = "1", features = ["derive"] }
serde_json = "1"
thiserror = "2"
tokio = { version = "1", features = ["full"] }
tokio-util = "0.7"
uuid = { version = "1", features = ["v4"] }
x11rb = { version = "0.13", features = ["xtest", "xinput", "xkb", "image"] }
xkeysym = "0.2"

[dev-dependencies]
tempfile = "3"
