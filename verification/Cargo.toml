[package]
name = "routechain"
version = "0.1.0"
edition = "2021"
publish = false

[dependencies]
futures = "=0.3.34"
hyper = { version = "=0.14.32", features = ["full"] }
routerify = "=3.0.0"
mongodb = "=2.8.2"
serde = { version = "=1.0.229", features = ["derive"] }
serde_json = "=1.0.151"

[dev-dependencies]
tokio = { version = "1", features = ["rt"] }
