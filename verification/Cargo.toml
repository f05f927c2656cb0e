[package]
name = "cpux"
version = "0.1.0"
edition = "2021"
publish = false

[dependencies]
anyhow = "1"
fern = "0.6"
log = "0.4"
structopt = "0.3"
tabular = "0.2"
thiserror = "1"
