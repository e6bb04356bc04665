[package]
name = "rannikkoasemat"
version = "0.1.0"
edition = "2021"
publish = false

[dependencies]
quick-xml = "=0.42.0"
chrono = "=0.4.45"
chrono-tz = "=0.10.4"
serde = { version = "=1.0.229", features = ["derive"] }
rocket = { version = "=0.5.1", features = ["json"] }
rocket_dyn_templates = { version = "=0.2.0", features = ["handlebars"] }
reqwest = { version = "=0.12.28", default-features = false, features = ["rustls-tls"] }
reqwest-middleware = "=0.4.2"
http-cache-reqwest = "=0.16.0"
