[package]
name = "register_user"
version = "0.1.0"
edition = "2021"
publish = false

[dependencies]
uuid = { version = "1", features = ["v4"] }
serde = { version = "1", features = ["derive"] }
serde_json = "1"
lambda_http = "*"
aws-config = { version = "1", default-features = false, features = ["behavior-version-latest"] }
aws-sdk-cognitoidentityprovider = { version = "1", default-features = false }
tokio = { version = "1", features = ["macros", "rt"] }
