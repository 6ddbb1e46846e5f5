//! The fixed addresses of the remote API and the agent name sent with every
//! request.

use vstd::prelude::*;

verus! {

pub const END_POINT_BASE_URL: &'static str = "https://api.weixin.qq.com";

pub const STABLE_ACCESS_TOKEN_END_POINT: &'static str =
    "https://api.weixin.qq.com/cgi-bin/stable_token";

pub const ACCESS_TOKEN_END_POINT: &'static str = "https://api.weixin.qq.com/cgi-bin/token";

pub const CHECK_SESSION_KEY_END_POINT: &'static str = "https://api.weixin.qq.com/wxa/checksession";

pub const RESET_SESSION_KEY_END_POINT: &'static str =
    "https://api.weixin.qq.com/wxa/resetusersessionkey";

pub const PHONE_END_POINT: &'static str =
    "https://api.weixin.qq.com/wxa/business/getuserphonenumber";

pub const AUTHENTICATION_END_POINT: &'static str = "https://api.weixin.qq.com/sns/jscode2session";

pub const QR_CODE_ENDPOINT: &'static str = "https://api.weixin.qq.com/wxa/getwxacode";

pub const SHORT_LINK_END_POINT: &'static str = "https://api.weixin.qq.com/wxa/genwxashortlink";

pub const MSG_SEC_CHECK_END_POINT: &'static str = "https://api.weixin.qq.com/wxa/msg_sec_check";

pub const HTTP_CLIENT_USER_AGENT: &'static str = "wechat-minapp";

} // verus!
