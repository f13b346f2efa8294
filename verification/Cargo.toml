[package]
name = "rx8010sj"
version = "0.1.0"
edition = "2021"
publish = false

[dependencies]
embedded-hal = "1"
datetime = "0.5"
