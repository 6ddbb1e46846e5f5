//! The code of a page: its arguments, its request and the image that comes
//! back.

use vstd::prelude::*;
use vstd::string::StringExecFns;
use crate::client::{asked_for_token, Timestamp, WechatMinappSDK};
use crate::client::memory_storage::served;
use crate::client::token_storage::outcome_view;
use crate::constants::QR_CODE_ENDPOINT;
use crate::error::{Error, ErrorKind};
use crate::utils::http::{
    access_token_query, conclude, Exchange, HttpClient, HttpRequest, image_headers,
    image_request_headers, JsonMember, MemberModel, members_view, Method, push_text,
    RequestModel, spec_conclude, token_query,
};
use crate::utils::text::{byte_len, decimal, optional_chars, to_decimal};

verus! {

/// The longest page path, in bytes.
pub const MAX_PATH_LENGTH: usize = 1024;

/// The image of a code, as the bytes that the remote sent.
#[derive(Debug, Clone)]
pub struct QrCode {
    buffer: Vec<u8>,
}

impl View for QrCode {
    type V = Seq<u8>;

    closed spec fn view(&self) -> Seq<u8> {
        self.buffer@
    }
}

impl QrCode {
    /// The image made of `buffer`.
    pub fn new(buffer: Vec<u8>) -> (code: QrCode)
        ensures
            code@ == buffer@,
    {
        QrCode { buffer }
    }

    /// The bytes of the image.
    pub fn buffer(&self) -> (buffer: &Vec<u8>)
        ensures
            buffer@ == self@,
    {
        &self.buffer
    }

    /// Turns what was observed of the exchange with a code endpoint into its
    /// result: the image of a successful answer, and the failure of the
    /// exchange in every other case.
    pub fn from_exchange(exchange: Exchange<Vec<u8>>) -> (r: Result<QrCode, Error>)
        ensures
            r.is_ok() == (exchange is Decoded),
            r matches Ok(code) ==> code@ == exchange->body@,
            r matches Err(e) ==> Err::<Vec<u8>, Error>(e) == spec_conclude(exchange),
    {
        match conclude(exchange) {
            Ok(buffer) => Ok(QrCode { buffer }),
            Err(e) => Err(e),
        }
    }
}

/// The colour of the lines of a code, in decimal components.
#[derive(Debug, Clone, Copy, PartialEq, Eq, Structural)]
pub struct Rgb {
    pub r: i16,
    pub g: i16,
    pub b: i16,
}

/// The JSON text of a colour: an object with the members `r`, `g` and `b`.
pub open spec fn rgb_text(color: Rgb) -> Seq<char> {
    "{\"r\":"@ + decimal(color.r as int) + ",\"g\":"@ + decimal(color.g as int) + ",\"b\":"@
        + decimal(color.b as int) + "}"@
}

impl Rgb {
    /// The colour with the given components.
    pub fn new(r: i16, g: i16, b: i16) -> (color: Rgb)
        ensures
            color == (Rgb { r, g, b }),
    {
        Rgb { r, g, b }
    }

    /// The JSON text of this colour.
    pub fn to_json(&self) -> (text: String)
        ensures
            text@ == rgb_text(*self),
    {
        String::from_str("{\"r\":").concat(to_decimal(self.r as i64).as_str()).concat(
            ",\"g\":",
        ).concat(to_decimal(self.g as i64).as_str()).concat(",\"b\":").concat(
            to_decimal(self.b as i64).as_str(),
        ).concat("}")
    }
}

/// The version of the mini-program that a code opens.
#[derive(Debug, Clone, Copy, PartialEq, Eq, Structural)]
pub enum MinappEnvVersion {
    /// The released version.
    Release,
    /// The trial version.
    Trial,
    /// The development version.
    Develop,
}

impl MinappEnvVersion {
    /// The name by which the remote API knows this version.
    pub open spec fn spec_name(&self) -> Seq<char> {
        match self {
            MinappEnvVersion::Develop => "develop"@,
            MinappEnvVersion::Release => "release"@,
            MinappEnvVersion::Trial => "trial"@,
        }
    }

    /// The name by which the remote API knows this version.
    pub fn name(&self) -> (name: &'static str)
        ensures
            name@ == self.spec_name(),
    {
        match self {
            MinappEnvVersion::Develop => "develop",
            MinappEnvVersion::Release => "release",
            MinappEnvVersion::Trial => "trial",
        }
    }
}

impl From<MinappEnvVersion> for String {
    /// The name by which the remote API knows the version.
    fn from(value: MinappEnvVersion) -> (name: String)
        ensures
            name@ == value.spec_name(),
    {
        value.name().to_string()
    }
}

impl vstd::std_specs::convert::FromSpecImpl<MinappEnvVersion> for String {
    open spec fn obeys_from_spec() -> bool {
        false
    }

    open spec fn from_spec(value: MinappEnvVersion) -> String {
        arbitrary()
    }
}

/// The text of a truth value: `true` or `false`.
pub open spec fn flag_text(flag: bool) -> Seq<char> {
    if flag {
        "true"@
    } else {
        "false"@
    }
}

/// The text of a truth value.
pub fn flag_to_text(flag: bool) -> (text: &'static str)
    ensures
        text@ == flag_text(flag),
{
    if flag {
        "true"
    } else {
        "false"
    }
}

/// The arguments of a request for a code.
#[derive(Debug)]
pub struct QrCodeArgs {
    path: String,
    width: Option<i16>,
    auto_color: Option<bool>,
    line_color: Option<Rgb>,
    is_hyaline: Option<bool>,
    env_version: Option<MinappEnvVersion>,
}

/// What the arguments of a request for a code are, mathematically.
pub struct QrCodeArgsModel {
    pub path: Seq<char>,
    pub width: Option<i16>,
    pub auto_color: Option<bool>,
    pub line_color: Option<Rgb>,
    pub is_hyaline: Option<bool>,
    pub env_version: Option<MinappEnvVersion>,
}

impl View for QrCodeArgs {
    type V = QrCodeArgsModel;

    closed spec fn view(&self) -> QrCodeArgsModel {
        QrCodeArgsModel {
            path: self.path@,
            width: self.width,
            auto_color: self.auto_color,
            line_color: self.line_color,
            is_hyaline: self.is_hyaline,
            env_version: self.env_version,
        }
    }
}

/// Collects the arguments of a request for a code and validates them at the
/// end.
#[derive(Debug)]
pub struct QrCodeArgBuilder {
    path: Option<String>,
    width: Option<i16>,
    auto_color: Option<bool>,
    line_color: Option<Rgb>,
    is_hyaline: Option<bool>,
    env_version: Option<MinappEnvVersion>,
}

/// What has been collected, mathematically.
pub struct QrCodeArgBuilderModel {
    pub path: Option<Seq<char>>,
    pub width: Option<i16>,
    pub auto_color: Option<bool>,
    pub line_color: Option<Rgb>,
    pub is_hyaline: Option<bool>,
    pub env_version: Option<MinappEnvVersion>,
}

impl View for QrCodeArgBuilder {
    type V = QrCodeArgBuilderModel;

    closed spec fn view(&self) -> QrCodeArgBuilderModel {
        QrCodeArgBuilderModel {
            path: optional_chars(self.path),
            width: self.width,
            auto_color: self.auto_color,
            line_color: self.line_color,
            is_hyaline: self.is_hyaline,
            env_version: self.env_version,
        }
    }
}

/// The message that rejects a missing page path.
pub open spec fn path_missing() -> Seq<char> {
    "小程序页面路径不能为空"@
}

/// The message that rejects a page path of more than 1024 bytes.
pub open spec fn path_too_long() -> Seq<char> {
    "页面路径最大长度 1024 个字符"@
}

/// Why a page path is rejected, or `None` where it is accepted: it must be
/// given and at most 1024 bytes long.
pub open spec fn path_fault(path: Option<Seq<char>>) -> Option<Seq<char>> {
    match path {
        None => Some(path_missing()),
        Some(path) => if byte_len(path) > 1024 {
            Some(path_too_long())
        } else {
            None
        },
    }
}

/// Checks a page path that a builder collected: it must be given and at most
/// 1024 bytes long.
pub fn checked_path(path: Option<String>) -> (r: Result<String, Error>)
    ensures
        r.is_ok() == path_fault(optional_chars(path)).is_none(),
        r matches Ok(p) ==> Some(p) == path,
        r matches Err(e) ==> e@ == (
            ErrorKind::InvalidParameter,
            path_fault(optional_chars(path)).unwrap(),
        ),
{
    match path {
        None => Err(Error::InvalidParameter("小程序页面路径不能为空".to_string())),
        Some(path) => {
            if path.as_str().as_bytes().len() > MAX_PATH_LENGTH {
                Err(Error::InvalidParameter("页面路径最大长度 1024 个字符".to_string()))
            } else {
                Ok(path)
            }
        },
    }
}

/// The request that asks for the code of `args`, authorised by
/// `access_token`. Every member of the body is a text: the path, then, as
/// far as they are set, the width as a decimal numeral, the automatic colour
/// as `true` or `false`, the line colour as JSON text, the transparency as
/// `true` or `false`, and the name of the version.
pub open spec fn code_request(args: QrCodeArgsModel, access_token: Seq<char>) -> RequestModel {
    RequestModel {
        url: QR_CODE_ENDPOINT@,
        query: token_query(access_token),
        method: Method::Post,
        headers: image_headers(),
        body: Some(
            seq![("path"@, MemberModel::Text(args.path))] + (match args.width {
                Some(width) => seq![("width"@, MemberModel::Text(decimal(width as int)))],
                None => Seq::empty(),
            }) + (match args.auto_color {
                Some(flag) => seq![("auto_color"@, MemberModel::Text(flag_text(flag)))],
                None => Seq::empty(),
            }) + (match args.line_color {
                Some(color) => seq![("line_color"@, MemberModel::Text(rgb_text(color)))],
                None => Seq::empty(),
            }) + (match args.is_hyaline {
                Some(flag) => seq![("is_hyaline"@, MemberModel::Text(flag_text(flag)))],
                None => Seq::empty(),
            }) + (match args.env_version {
                Some(version) => seq![("env_version"@, MemberModel::Text(version.spec_name()))],
                None => Seq::empty(),
            }),
        ),
    }
}

impl QrCodeArgs {
    /// A builder in which nothing is set.
    pub fn builder() -> (builder: QrCodeArgBuilder)
        ensures
            builder@ == QrCodeArgBuilder::blank(),
    {
        QrCodeArgBuilder::new()
    }

    /// The page path.
    pub fn path(&self) -> (path: String)
        ensures
            path@ == self@.path,
    {
        self.path.clone()
    }

    /// The width of the code in pixels.
    pub fn width(&self) -> (width: Option<i16>)
        ensures
            width == self@.width,
    {
        self.width
    }

    /// Whether the line colour is chosen automatically.
    pub fn auto_color(&self) -> (auto_color: Option<bool>)
        ensures
            auto_color == self@.auto_color,
    {
        self.auto_color
    }

    /// The line colour.
    pub fn line_color(&self) -> (line_color: Option<Rgb>)
        ensures
            line_color == self@.line_color,
    {
        self.line_color
    }

    /// Whether the background is transparent.
    pub fn is_hyaline(&self) -> (is_hyaline: Option<bool>)
        ensures
            is_hyaline == self@.is_hyaline,
    {
        self.is_hyaline
    }

    /// The version of the mini-program that the code opens.
    pub fn env_version(&self) -> (env_version: Option<MinappEnvVersion>)
        ensures
            env_version == self@.env_version,
    {
        self.env_version
    }

    /// The request that asks for the code, authorised by `access_token`.
    pub fn request(&self, access_token: &str) -> (request: HttpRequest)
        ensures
            request@ == code_request(self@, access_token@),
    {
        let mut body: Vec<(String, JsonMember)> = Vec::new();
        push_text(&mut body, "path", self.path.as_str());
        if let Some(width) = self.width {
            push_text(&mut body, "width", to_decimal(width as i64).as_str());
        }
        if let Some(flag) = self.auto_color {
            push_text(&mut body, "auto_color", flag_to_text(flag));
        }
        if let Some(color) = self.line_color {
            push_text(&mut body, "line_color", color.to_json().as_str());
        }
        if let Some(flag) = self.is_hyaline {
            push_text(&mut body, "is_hyaline", flag_to_text(flag));
        }
        if let Some(version) = self.env_version {
            push_text(&mut body, "env_version", version.name());
        }
        assert(members_view(body) =~= code_request(self@, access_token@).body.unwrap());
        HttpRequest {
            url: QR_CODE_ENDPOINT.to_string(),
            query: access_token_query(access_token),
            method: Method::Post,
            headers: image_request_headers(),
            body: Some(body),
        }
    }
}

impl QrCodeArgBuilder {
    /// The model of a builder in which nothing is set.
    pub open spec fn blank() -> QrCodeArgBuilderModel {
        QrCodeArgBuilderModel {
            path: None,
            width: None,
            auto_color: None,
            line_color: None,
            is_hyaline: None,
            env_version: None,
        }
    }

    /// A builder in which nothing is set.
    pub fn new() -> (builder: QrCodeArgBuilder)
        ensures
            builder@ == Self::blank(),
    {
        QrCodeArgBuilder {
            path: None,
            width: None,
            auto_color: None,
            line_color: None,
            is_hyaline: None,
            env_version: None,
        }
    }

    /// Sets the page path.
    pub fn path(self, path: &str) -> (builder: QrCodeArgBuilder)
        ensures
            builder@ == (QrCodeArgBuilderModel { path: Some(path@), ..self@ }),
    {
        let mut builder = self;
        builder.path = Some(path.to_string());
        builder
    }

    /// Sets the width in pixels.
    pub fn width(self, width: i16) -> (builder: QrCodeArgBuilder)
        ensures
            builder@ == (QrCodeArgBuilderModel { width: Some(width), ..self@ }),
    {
        let mut builder = self;
        builder.width = Some(width);
        builder
    }

    /// Asks for an automatic line colour.
    pub fn with_auto_color(self) -> (builder: QrCodeArgBuilder)
        ensures
            builder@ == (QrCodeArgBuilderModel { auto_color: Some(true), ..self@ }),
    {
        let mut builder = self;
        builder.auto_color = Some(true);
        builder
    }

    /// Sets the line colour.
    pub fn line_color(self, color: Rgb) -> (builder: QrCodeArgBuilder)
        ensures
            builder@ == (QrCodeArgBuilderModel { line_color: Some(color), ..self@ }),
    {
        let mut builder = self;
        builder.line_color = Some(color);
        builder
    }

    /// Asks for a transparent background.
    pub fn with_is_hyaline(self) -> (builder: QrCodeArgBuilder)
        ensures
            builder@ == (QrCodeArgBuilderModel { is_hyaline: Some(true), ..self@ }),
    {
        let mut builder = self;
        builder.is_hyaline = Some(true);
        builder
    }

    /// Sets the version of the mini-program that the code opens.
    pub fn env_version(self, version: MinappEnvVersion) -> (builder: QrCodeArgBuilder)
        ensures
            builder@ == (QrCodeArgBuilderModel { env_version: Some(version), ..self@ }),
    {
        let mut builder = self;
        builder.env_version = Some(version);
        builder
    }

    /// Validates what was collected and yields the arguments. The path must
    /// be set and at most 1024 bytes long; everything else is taken over.
    pub fn build(self) -> (r: Result<QrCodeArgs, Error>)
        ensures
            r.is_ok() == path_fault(self@.path).is_none(),
            r matches Err(e) ==> e@ == (
                ErrorKind::InvalidParameter,
                path_fault(self@.path).unwrap(),
            ),
            r matches Ok(args) ==> args@ == (QrCodeArgsModel {
                path: self@.path.unwrap(),
                width: self@.width,
                auto_color: self@.auto_color,
                line_color: self@.line_color,
                is_hyaline: self@.is_hyaline,
                env_version: self@.env_version,
            }),
    {
        let path = match checked_path(self.path) {
            Ok(path) => path,
            Err(e) => {
                return Err(e);
            },
        };
        Ok(
            QrCodeArgs {
                path,
                width: self.width,
                auto_color: self.auto_color,
                line_color: self.line_color,
                is_hyaline: self.is_hyaline,
                env_version: self.env_version,
            },
        )
    }
}

impl<C: HttpClient> WechatMinappSDK<C> {
    /// Asks the remote for the code of `args`: obtains the access token,
    /// sends the request and takes the image of a successful answer. The
    /// refresher role is free again afterwards, whatever happened.
    pub fn qr_code(&mut self, args: QrCodeArgs) -> (r: Result<QrCode, Error>)
        requires
            old(self).wf(),
        ensures
            final(self).wf(),
            asked_for_token(old(self)@, final(self)@, r),
    {
        let ghost before = self@;
        let fetched = self.token();
        proof {
            let now = choose|now: Timestamp| served(before, self@, now@, outcome_view(fetched));
            assert(served(before, self@, now@, outcome_view(fetched)));
        }
        let token = match fetched {
            Ok(token) => token,
            Err(e) => {
                return Err(e);
            },
        };
        QrCode::from_exchange(self.exchange(args.request(token.as_str())))
    }
}

} // verus!
