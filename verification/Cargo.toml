[package]
name = "led_pwm"
version = "0.1.0"
edition = "2021"
publish = false

[dependencies]
cortex-m = "0.7"
stm32f4 = { version = "0.15", features = ["stm32f401"] }
