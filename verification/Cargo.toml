[package]
name = "subgraph_resolver"
version = "0.1.0"
edition = "2021"
publish = false

[dependencies]
apollo-parser = "*"
apollo-federation-types = "*"
camino = "*"
tower = { version = "*", features = ["util"] }
futures = "*"
thiserror = "*"
