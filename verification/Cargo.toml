[package]
name = "vrf_cards"
version = "0.1.0"
edition = "2021"
publish = false

[dependencies]
merlin = "=3.0.0"
rand = "=0.8.8"
rand_chacha = "=0.3.1"
schnorrkel = "=0.11.5"
