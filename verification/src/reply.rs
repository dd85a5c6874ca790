//! The text in which an outcome is reported to the one who asked.
//!
//! Every outcome is reported as readable text: an address, or a sentence
//! that says what happened. An error names the stage that failed and gives
//! the reason that was reported for it.

use crate::refresh::{DecodeFailure, RefreshError, RefreshOutcome};
use crate::resolve::{LookupResult, QueryFault, ResolveError};
use vstd::prelude::*;
use vstd::string::*;

verus! {

/// The text of one decimal digit.
pub open spec fn digit_text(d: nat) -> Seq<char> {
    if d == 0 {
        "0"@
    } else if d == 1 {
        "1"@
    } else if d == 2 {
        "2"@
    } else if d == 3 {
        "3"@
    } else if d == 4 {
        "4"@
    } else if d == 5 {
        "5"@
    } else if d == 6 {
        "6"@
    } else if d == 7 {
        "7"@
    } else if d == 8 {
        "8"@
    } else {
        "9"@
    }
}

/// A number in decimal, without leading zeros.
pub open spec fn decimal_text(n: nat) -> Seq<char>
    decreases n,
{
    if n < 10 {
        digit_text(n)
    } else {
        decimal_text(n / 10) + digit_text(n % 10)
    }
}

/// Why a refresh failed, in words: the stage, then the reason.
pub open spec fn refresh_error_text(error: RefreshError) -> Seq<char> {
    match error {
        RefreshError::Network(reason) => "网络错误，无法下载喵～："@ + reason@,
        RefreshError::HttpStatus(status) => "服务器返回了错误状态喵～："@ + decimal_text(
            status as nat,
        ),
        RefreshError::Decode(DecodeFailure::NotUtf8) => "读取响应失败喵～：响应不是 UTF-8 文本"@,
        RefreshError::Decode(DecodeFailure::NotJson(reason)) => "解析 JSON 失败喵～："@ + reason@,
        RefreshError::Persist(reason) => "写入文件失败喵～："@ + reason@,
        RefreshError::Store(reason) => reason@,
    }
}

/// How a request for a refresh ended, in words.
pub open spec fn refresh_reply_text(result: Result<RefreshOutcome, RefreshError>) -> Seq<char> {
    match result {
        Ok(RefreshOutcome::Replaced(_)) => "metadata 更新并同步到数据库成功喵～"@,
        Ok(RefreshOutcome::AlreadyInProgress) => "已有更新任务在进行中喵～"@,
        Err(error) => "更新失败喵～："@ + refresh_error_text(error),
    }
}

/// The answer to a query, in words: the address where one was found.
pub open spec fn lookup_reply_text(result: LookupResult) -> Seq<char> {
    match result {
        LookupResult::Found(url) => url@,
        LookupResult::NotFound => "未找到相关图片喵～"@,
        LookupResult::Error(ResolveError::InputFormat(QueryFault::Missing)) => "缺少参数喵～"@,
        LookupResult::Error(ResolveError::InputFormat(QueryFault::Malformed)) => "格式错误喵～"@,
        LookupResult::Error(ResolveError::NotInitialized) => "查询失败喵～：数据尚未初始化"@,
        LookupResult::Error(ResolveError::Refresh(error)) => "查询失败喵～："@
            + refresh_error_text(error),
    }
}

/// The text of one decimal digit.
fn digit(d: u16) -> (r: &'static str)
    requires
        d < 10,
    ensures
        r@ == digit_text(d as nat),
{
    if d == 0 {
        "0"
    } else if d == 1 {
        "1"
    } else if d == 2 {
        "2"
    } else if d == 3 {
        "3"
    } else if d == 4 {
        "4"
    } else if d == 5 {
        "5"
    } else if d == 6 {
        "6"
    } else if d == 7 {
        "7"
    } else if d == 8 {
        "8"
    } else {
        "9"
    }
}

/// A number in decimal, without leading zeros.
pub fn decimal(n: u16) -> (r: String)
    ensures
        r@ == decimal_text(n as nat),
    decreases n,
{
    if n < 10 {
        digit(n).to_owned()
    } else {
        let mut text = decimal(n / 10);
        text.append(digit(n % 10));
        text
    }
}

/// Why a refresh failed, in words.
pub fn refresh_error_message(error: &RefreshError) -> (r: String)
    ensures
        r@ == refresh_error_text(*error),
{
    match error {
        RefreshError::Network(reason) => "网络错误，无法下载喵～：".to_owned().concat(reason.as_str()),
        RefreshError::HttpStatus(status) => "服务器返回了错误状态喵～：".to_owned().concat(
            decimal(*status).as_str(),
        ),
        RefreshError::Decode(DecodeFailure::NotUtf8) => "读取响应失败喵～：响应不是 UTF-8 文本".to_owned(),
        RefreshError::Decode(DecodeFailure::NotJson(reason)) => "解析 JSON 失败喵～：".to_owned().concat(
            reason.as_str(),
        ),
        RefreshError::Persist(reason) => "写入文件失败喵～：".to_owned().concat(reason.as_str()),
        RefreshError::Store(reason) => reason.clone(),
    }
}

/// How a request for a refresh ended, in words.
pub fn refresh_reply(result: &Result<RefreshOutcome, RefreshError>) -> (r: String)
    ensures
        r@ == refresh_reply_text(*result),
{
    match result {
        Ok(RefreshOutcome::Replaced(_)) => "metadata 更新并同步到数据库成功喵～".to_owned(),
        Ok(RefreshOutcome::AlreadyInProgress) => "已有更新任务在进行中喵～".to_owned(),
        Err(error) => "更新失败喵～：".to_owned().concat(refresh_error_message(error).as_str()),
    }
}

/// The answer to a query, in words.
pub fn lookup_reply(result: &LookupResult) -> (r: String)
    ensures
        r@ == lookup_reply_text(*result),
{
    match result {
        LookupResult::Found(url) => url.clone(),
        LookupResult::NotFound => "未找到相关图片喵～".to_owned(),
        LookupResult::Error(ResolveError::InputFormat(QueryFault::Missing)) => "缺少参数喵～".to_owned(),
        LookupResult::Error(ResolveError::InputFormat(QueryFault::Malformed)) => "格式错误喵～".to_owned(),
        LookupResult::Error(ResolveError::NotInitialized) => "查询失败喵～：数据尚未初始化".to_owned(),
        LookupResult::Error(ResolveError::Refresh(error)) => "查询失败喵～：".to_owned().concat(
            refresh_error_message(error).as_str(),
        ),
    }
}

} // verus!
