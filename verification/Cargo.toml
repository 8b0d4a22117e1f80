[package]
name = "ime_cursor_indicator"
version = "0.1.0"
edition = "2021"
publish = false

[dependencies]
toml = "0.8"
serde = { version = "1", features = ["derive"] }
clap = { version = "4", features = ["derive"] }
gtk = "0.18"
gdk = "0.18"
glib = "0.18"
gio = "0.18"
cairo-rs = "0.18"
pango = "0.18"
pangocairo = "0.18"
libc = "0.2"
libloading = "0.8"
futures-channel = "0.3"
futures-util = "0.3"
