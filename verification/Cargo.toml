[package]
name = "ly_events"
version = "0.1.0"
edition = "2021"
publish = false

[dependencies]
crossbeam = "=0.8.5"
parking_lot = "=0.12.5"
state = "=0.5.3"
colored = "=2.2.0"
thread_local = "=1.1.10"
raw-window-handle = "=0.5.2"
ash = { version = "=0.37.3", features = ["linked"] }
winit = { version = "=0.27.5", default-features = false, features = ["x11"] }
