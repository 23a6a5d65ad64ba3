[package]
name = "beatcli"
version = "0.1.0"
edition = "2021"
publish = false

[dependencies]
anyhow = "*"
crossbeam-channel = "*"
crossterm = "*"
parking_lot = "*"
rand = "*"
rodio = "*"
unicode-width = "*"
walkdir = "*"
