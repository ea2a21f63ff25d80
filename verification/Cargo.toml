[package]
name = "stream_lifecycle"
version = "0.1.0"
edition = "2021"
publish = false

[dependencies]
tokio = { version = "1", features = ["full"] }
quinn = { version = "0.11", default-features = false, features = ["runtime-tokio", "rustls-ring", "log"] }
rustls = { version = "0.23", default-features = false, features = ["ring", "std", "logging", "tls12"] }
rcgen = { version = "*", default-features = false, features = ["crypto", "pem", "ring"] }
h3 = "*"
h3-quinn = "*"
http = "1"
bytes = "1"
hyper = { version = "0.14", features = ["http1", "http2", "server", "tcp", "stream", "runtime"] }
