[package]
name = "resize_rabbit"
version = "0.1.0"
edition = "2021"
publish = false

[dependencies]
uuid = { version = "=1.29.0", features = ["v4", "serde"] }
serde = { version = "=1.0.229", features = ["derive"] }
serde_json = "=1.0.154"
chrono = "=0.4.45"
dotenvy = "=0.15.7"
miow = "=0.6.1"
winapi = { version = "=0.3.9", features = ["winuser", "errhandlingapi", "synchapi", "winerror", "minwindef", "windef", "tlhelp32", "handleapi", "processthreadsapi", "minwinbase", "winnt"] }
