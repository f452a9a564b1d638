[package]
name = "hostfn_env"
version = "0.1.0"
edition = "2021"
publish = false

[dependencies]
sp-std = "*"
log = "0.4"
syn = { version = "2", features = ["full"] }
quote = "1"
proc-macro2 = "1"
hash-db = "*"
sp-database = "*"
sp-state-machine = "*"
sp-trie = "*"
