[package]
name = "terminal_rendezvous"
version = "0.1.0"
edition = "2021"
publish = false

[dependencies]
tokio = { version = "=1.53.2", features = ["net", "io-util", "time", "rt"] }
winapi = { version = "=0.3.9", features = ["wincon", "errhandlingapi"] }

[dev-dependencies]
socket2 = "=0.6.5"
