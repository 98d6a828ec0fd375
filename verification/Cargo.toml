[package]
name = "enterprise_http3"
version = "0.1.0"
edition = "2021"
publish = false

[dependencies]
bytes = "=1.12.1"
chrono = { version = "=0.4.45", default-features = false, features = ["alloc", "std", "now"] }
env_logger = { version = "=0.11.11", default-features = false }
log = "=0.4.35"
may = "=0.3.51"
rcgen = { version = "=0.14.10", default-features = false, features = ["crypto", "pem", "ring"] }
slint = { version = "=1.12.1", default-features = false, features = ["compat-1-2", "std"] }
thiserror = "=2.0.21"
tquic = "=1.6.0"
