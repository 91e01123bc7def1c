[package]
name = "rdm"
version = "0.1.0"
edition = "2021"
publish = false

[dependencies]
bytes = "1"
uuid = { version = "0.8", features = ["v4"] }
rand = "0.8"
tokio = { version = "1", features = ["net", "signal", "macros", "rt-multi-thread", "io-util", "time"] }
tokio-util = { version = "0.7", features = ["codec"] }
futures = "0.3"
slog = "2"
slog-term = "2"
slog-async = "2"
clap = "2"
libc = "0.2"
dbus = "0.9"
dbus-tokio = "0.7"
env_logger = "*"
log = "0.4"
users = "0.11"
gtk = "*"
gdk = "*"
gdk-pixbuf = "*"
pam-auth = "*"
