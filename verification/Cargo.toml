[package]
name = "oxycap"
version = "0.1.0"
edition = "2021"
publish = false

[dependencies]
chrono = "*"
pcap = "*"
prettytable-rs = "*"
structopt = "*"
