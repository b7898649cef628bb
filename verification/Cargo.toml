[package]
name = "auth_test"
version = "0.1.0"
edition = "2021"
publish = false

[dependencies]
aws-config = "*"
aws-sdk-cognitoidentityprovider = "*"
colored = "*"
inquire = "*"
tokio = { version = "*", features = ["macros", "rt-multi-thread"] }
