[package]
name = "blue_serial"
version = "0.1.0"
edition = "2021"
publish = false

[dependencies]
bluer = { version = "=0.17.4", features = ["bluetoothd", "rfcomm", "id"] }
libdbus-sys = { version = "=0.2.7", features = ["vendored"] }
futures = "=0.3.34"
tokio = { version = "=1.54.1", features = ["rt-multi-thread", "time", "macros", "io-util"] }
wlambda = { version = "=0.8.1", default-features = false }
serialport = { version = "=4.10.1", default-features = false }
