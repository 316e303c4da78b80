[package]
name = "openworkers_runtime_deno"
version = "0.1.0"
edition = "2021"
publish = false

[dependencies]
bytes = "=1.12.1"
deno_console = "=0.221.0"
deno_core = "=0.363.0"
deno_url = "=0.221.0"
deno_webidl = "=0.221.0"
futures = "=0.3.34"
libc = "=0.2.191"
log = "=0.4.34"
once_cell = "=1.21.4"
rustls = { version = "=0.23.46", features = ["ring"] }
serde = { version = "=1.0.229", features = ["derive"] }
serde_json = "=1.0.154"
signal-hook = "=0.3.18"
signal-hook-tokio = { version = "=0.3.1", features = ["futures-v0_3"] }
tokio = { version = "=1.54.1", features = ["rt", "sync", "time"] }
winapi = { version = "0.3", features = ["minwindef", "processthreadsapi"] }

[dev-dependencies]
rustix = { version = "=0.38.44", features = ["time"] }
