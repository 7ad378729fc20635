[package]
name = "can_messages"
version = "0.1.0"
edition = "2021"
publish = false

[dependencies]
arrayvec = "0.7"
enum-primitive-derive = "0.3"
heapless = "0.8"
hex = "0.4"
num-traits = "0.2"
