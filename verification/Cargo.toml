[package]
name = "coarse_logprob"
version = "0.1.0"
edition = "2021"
publish = false
