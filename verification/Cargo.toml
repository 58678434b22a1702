[package]
name = "wayclick-input"
version = "0.1.0"
edition = "2021"
publish = false

[dependencies]
input-linux = "=0.7.1"
zbus = "=5.19.0"
tokio = { version = "=1.54.1", features = ["rt-multi-thread", "time"] }
thiserror = "=2.0.21"
serde = { version = "=1.0.229", features = ["derive"] }
libc = "=0.2.191"
ashpd = { version = "=0.13.13", features = ["global_shortcuts", "remote_desktop", "screencast"] }
futures-util = "=0.3.34"
reis = "=0.7.1"
calloop = "=0.14.5"
enumflags2 = "=0.7.12"
once_cell = "=1.21.4"
