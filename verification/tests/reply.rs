use emoji_mashup::refresh::{DecodeFailure, RefreshError, RefreshOutcome};
use emoji_mashup::reply::{decimal, lookup_reply, refresh_error_message, refresh_reply};
use emoji_mashup::resolve::{LookupResult, QueryFault, ResolveError};

#[test]
fn decimal_writes_a_number() {
    assert_eq!(decimal(0), "0");
    assert_eq!(decimal(7), "7");
    assert_eq!(decimal(10), "10");
    assert_eq!(decimal(404), "404");
    assert_eq!(decimal(1234), "1234");
    assert_eq!(decimal(56789), "56789");
    assert_eq!(decimal(u16::MAX), "65535");
}

#[test]
fn decimal_agrees_with_to_string() {
    let mut n: u16 = 0;
    loop {
        assert_eq!(decimal(n), n.to_string());
        if n == u16::MAX {
            break;
        }
        n += 1;
    }
}

#[test]
fn a_refresh_error_names_its_stage() {
    assert_eq!(
        refresh_error_message(&RefreshError::Network("timed out".to_string())),
        "网络错误，无法下载喵～：timed out"
    );
    assert_eq!(
        refresh_error_message(&RefreshError::HttpStatus(503)),
        "服务器返回了错误状态喵～：503"
    );
    assert_eq!(
        refresh_error_message(&RefreshError::Decode(DecodeFailure::NotUtf8)),
        "读取响应失败喵～：响应不是 UTF-8 文本"
    );
    assert_eq!(
        refresh_error_message(&RefreshError::Decode(DecodeFailure::NotJson("EOF at line 1".to_string()))),
        "解析 JSON 失败喵～：EOF at line 1"
    );
    assert_eq!(
        refresh_error_message(&RefreshError::Persist("disk full".to_string())),
        "写入文件失败喵～：disk full"
    );
    assert_eq!(
        refresh_error_message(&RefreshError::Store("提交事务失败喵～：locked".to_string())),
        "提交事务失败喵～：locked"
    );
}

#[test]
fn a_refresh_is_reported_in_words() {
    assert_eq!(refresh_reply(&Ok(RefreshOutcome::Replaced(3))), "metadata 更新并同步到数据库成功喵～");
    assert_eq!(refresh_reply(&Ok(RefreshOutcome::AlreadyInProgress)), "已有更新任务在进行中喵～");
    assert_eq!(
        refresh_reply(&Err(RefreshError::HttpStatus(404))),
        "更新失败喵～：服务器返回了错误状态喵～：404"
    );
    assert_eq!(
        refresh_reply(&Err(RefreshError::Network("dns".to_string()))),
        "更新失败喵～：网络错误，无法下载喵～：dns"
    );
}

#[test]
fn an_answer_is_reported_in_words() {
    assert_eq!(lookup_reply(&LookupResult::Found("http://x/1.png".to_string())), "http://x/1.png");
    assert_eq!(lookup_reply(&LookupResult::NotFound), "未找到相关图片喵～");
    assert_eq!(
        lookup_reply(&LookupResult::Error(ResolveError::InputFormat(QueryFault::Malformed))),
        "格式错误喵～"
    );
    assert_eq!(
        lookup_reply(&LookupResult::Error(ResolveError::InputFormat(QueryFault::Missing))),
        "缺少参数喵～"
    );
    assert_eq!(
        lookup_reply(&LookupResult::Error(ResolveError::NotInitialized)),
        "查询失败喵～：数据尚未初始化"
    );
    assert_eq!(
        lookup_reply(&LookupResult::Error(ResolveError::Refresh(RefreshError::Persist("x".to_string())))),
        "查询失败喵～：写入文件失败喵～：x"
    );
}

#[test]
fn no_reply_is_empty() {
    assert!(!lookup_reply(&LookupResult::NotFound).is_empty());
    assert!(!refresh_reply(&Err(RefreshError::Store(String::new()))).is_empty());
    assert!(!refresh_error_message(&RefreshError::Network(String::new())).is_empty());
}
