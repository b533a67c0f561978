[package]
name = "winit_it"
version = "0.1.0"
edition = "2021"
publish = false

[dependencies]
chrono = "=0.4.45"
libc = "=0.2.191"
log = "=0.4.34"
parking_lot = "=0.12.5"
rayon = "=1.12.0"
tokio = { version = "=1.54.1", features = ["rt", "net", "time"] }
uapi = "=0.2.14"
winit = { version = "=0.27.5", default-features = false, features = ["x11"] }
xcb-dl = { version = "=0.2.0", features = ["xcb_render", "xcb_xinput", "xcb_xkb"] }
xcb-dl-util = { version = "=0.2.0", features = ["xcb_render", "xcb_xinput", "xcb_xkb"] }
