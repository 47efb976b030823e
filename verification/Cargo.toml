[package]
name = "chess_polyglot_reader"
version = "0.1.0"
edition = "2021"
publish = false

[dependencies]
chess = "3"
