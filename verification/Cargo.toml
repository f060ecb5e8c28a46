[package]
name = "remodel"
version = "0.1.0"
edition = "2021"
publish = false

[dependencies]
rbx_xml = "=0.12.4"
rbx_dom_weak = "=2.9.0"
rlua = "=0.17.1"
