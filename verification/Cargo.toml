[package]
name = "nas_pdu_decoder"
version = "0.1.0"
edition = "2021"
publish = false

[dependencies]
crossbeam = "0.8"
pcap-file = "*"
serde_json = "1"
