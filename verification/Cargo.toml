[package]
name = "topup"
version = "0.1.0"
edition = "2021"
publish = false

[dependencies]
ethers-core = "*"
ethers-signers = "*"
serde_json = "*"
http_req = "*"
blocknative-flows = "*"
slack-flows = "*"
