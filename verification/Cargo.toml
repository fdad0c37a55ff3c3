[package]
name = "calculator_service"
version = "0.1.0"
edition = "2021"
publish = false

[dependencies]
grpc = "0.6"
protobuf = "2"
