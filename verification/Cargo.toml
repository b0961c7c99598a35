[package]
name = "adsb_indicator"
version = "0.1.0"
edition = "2021"
publish = false

[dependencies]
adsb_deku = "=0.7.1"
hex = "=0.4.3"
rsadsb_common = "=0.7.0"
