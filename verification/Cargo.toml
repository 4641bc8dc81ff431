[package]
name = "ledger_blueprints"
version = "0.1.0"
edition = "2021"
publish = false
