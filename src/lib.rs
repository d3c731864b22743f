//! Self-validating domain aggregates (`Input`, `Supply`), their identifiers,
//! the `Price` value object and the error-accumulating `Notification`.

pub mod decimal;
pub mod entity;
pub mod error;
pub mod http;
pub mod identifier;
pub mod input;
pub mod notification;
pub mod price;
pub mod stream;
pub mod supply;
pub mod text;
pub mod validator;
