[package]
name = "precached_gui"
version = "0.1.0"
edition = "2021"
publish = false

[dependencies]
chrono = { version = "0.4", features = ["serde"] }
libc = "0.2"
serde = "1"
serde_derive = "1"
serde_json = "1"
zmq = "0.8"
gtk = "0.4"
gdk = "0.8"
gio = "0.4"
gdk-pixbuf = "0.4"
log = "0.4"
pretty_env_logger = "0.2"
