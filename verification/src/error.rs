//! What can go wrong around the cache.

use vstd::prelude::*;
use crate::hex::digit_text;
use crate::hex::hex_digit;

verus! {

/// A failure of a cache operation.
#[derive(Debug, PartialEq, Eq)]
pub enum CacheError {
    /// A directory or file could not be created, read, written or removed.
    Io(String),
    /// The request never got an answer, or the answer could not be read.
    Network(String),
    /// The server answered with a status outside 200..=299.
    Http(u16),
    /// A path cannot be written as text.
    PathEncoding,
}

/// A `CacheError` with its texts as character sequences.
pub ghost enum ErrorModel {
    Io(Seq<char>),
    Network(Seq<char>),
    Http(u16),
    PathEncoding,
}

impl View for CacheError {
    type V = ErrorModel;

    open spec fn view(&self) -> ErrorModel {
        match *self {
            CacheError::Io(detail) => ErrorModel::Io(detail@),
            CacheError::Network(detail) => ErrorModel::Network(detail@),
            CacheError::Http(status) => ErrorModel::Http(status),
            CacheError::PathEncoding => ErrorModel::PathEncoding,
        }
    }
}

/// A number in decimal, without sign or leading zeros.
pub open spec fn decimal_text(n: nat) -> Seq<char>
    decreases n,
{
    if n < 10 {
        seq![hex_digit(n as int)]
    } else {
        decimal_text(n / 10).push(hex_digit((n % 10) as int))
    }
}

/// What `CacheError::message` says for each error.
pub open spec fn message_text(error: ErrorModel) -> Seq<char> {
    match error {
        ErrorModel::Io(detail) => detail,
        ErrorModel::Network(detail) => detail,
        ErrorModel::Http(status) => "下载失败，HTTP 状态码: "@ + decimal_text(status as nat),
        ErrorModel::PathEncoding => "路径转换失败"@,
    }
}

/// Writes `n` in decimal.
pub fn decimal(n: u16) -> (text: String)
    ensures
        text@ == decimal_text(n as nat),
    decreases n,
{
    if n < 10 {
        String::from_str(digit_text(n as u8))
    } else {
        let mut text = decimal(n / 10);
        text.append(digit_text((n % 10) as u8));
        text
    }
}

impl CacheError {
    /// The text shown to the caller.
    pub fn message(&self) -> (text: String)
        ensures
            text@ == message_text(self@),
    {
        match self {
            CacheError::Io(detail) => detail.clone(),
            CacheError::Network(detail) => detail.clone(),
            CacheError::Http(status) => {
                let mut text = String::from_str("下载失败，HTTP 状态码: ");
                text.append(decimal(*status).as_str());
                text
            },
            CacheError::PathEncoding => String::from_str("路径转换失败"),
        }
    }
}

} // verus!
