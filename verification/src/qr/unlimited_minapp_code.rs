//! The unlimited code of a page: its arguments and its request.

use vstd::prelude::*;
use crate::client::{asked_for_token, Timestamp, WechatMinappSDK};
use crate::client::memory_storage::served;
use crate::client::token_storage::outcome_view;
use crate::constants::SHORT_LINK_END_POINT;
use crate::error::{Error, ErrorKind};
use crate::new_type::{NonQueryPagePath, SceneString};
use crate::new_type::non_query_page_path::non_query_verdict;
use crate::new_type::scene::scene_verdict;
use crate::qr::minapp_code::{MinappEnvVersion, path_missing, QrCode, Rgb};
use crate::utils::http::{
    access_token_query, HttpClient, HttpRequest, image_headers, image_request_headers,
    JsonMember, JsonScalar, MemberModel, members_view, Method, optional_flag, push_number,
    push_object, push_optional_flag, push_text, RequestModel, ScalarModel, scalars_view,
    token_query,
};
use crate::utils::text::optional_chars;

verus! {

/// The arguments of a request for an unlimited code.
#[derive(Debug)]
pub struct UnlimitedQrCodeArgs {
    page: String,
    scene: String,
    width: Option<i16>,
    check_path: Option<bool>,
    auto_color: Option<bool>,
    line_color: Option<Rgb>,
    is_hyaline: Option<bool>,
    env_version: Option<MinappEnvVersion>,
}

/// What the arguments of a request for an unlimited code are,
/// mathematically.
pub struct UnlimitedQrCodeArgsModel {
    /// The page, without a leading slash and without parameters.
    pub page: Seq<char>,
    /// At most 32 bytes of the characters that a scene admits.
    pub scene: Seq<char>,
    /// The width in pixels.
    pub width: Option<i16>,
    /// Whether the remote checks that the page exists.
    pub check_path: Option<bool>,
    pub auto_color: Option<bool>,
    pub line_color: Option<Rgb>,
    pub is_hyaline: Option<bool>,
    pub env_version: Option<MinappEnvVersion>,
}

impl View for UnlimitedQrCodeArgs {
    type V = UnlimitedQrCodeArgsModel;

    closed spec fn view(&self) -> UnlimitedQrCodeArgsModel {
        UnlimitedQrCodeArgsModel {
            page: self.page@,
            scene: self.scene@,
            width: self.width,
            check_path: self.check_path,
            auto_color: self.auto_color,
            line_color: self.line_color,
            is_hyaline: self.is_hyaline,
            env_version: self.env_version,
        }
    }
}

/// Collects the arguments of a request for an unlimited code and validates
/// them at the end.
#[derive(Debug)]
pub struct UnlimitedQrCodeArgsBuilder {
    page: Option<String>,
    scene: Option<String>,
    width: Option<i16>,
    check_path: Option<bool>,
    auto_color: Option<bool>,
    line_color: Option<Rgb>,
    is_hyaline: Option<bool>,
    env_version: Option<MinappEnvVersion>,
}

/// What has been collected, mathematically.
pub struct UnlimitedQrCodeArgsBuilderModel {
    pub page: Option<Seq<char>>,
    pub scene: Option<Seq<char>>,
    pub width: Option<i16>,
    pub check_path: Option<bool>,
    pub auto_color: Option<bool>,
    pub line_color: Option<Rgb>,
    pub is_hyaline: Option<bool>,
    pub env_version: Option<MinappEnvVersion>,
}

impl View for UnlimitedQrCodeArgsBuilder {
    type V = UnlimitedQrCodeArgsBuilderModel;

    closed spec fn view(&self) -> UnlimitedQrCodeArgsBuilderModel {
        UnlimitedQrCodeArgsBuilderModel {
            page: optional_chars(self.page),
            scene: optional_chars(self.scene),
            width: self.width,
            check_path: self.check_path,
            auto_color: self.auto_color,
            line_color: self.line_color,
            is_hyaline: self.is_hyaline,
            env_version: self.env_version,
        }
    }
}

/// The message that rejects a missing scene.
pub open spec fn scene_missing() -> Seq<char> {
    "scene 不能为空"@
}

/// The message that rejects a line colour beside an automatic colour.
pub open spec fn color_conflict() -> Seq<char> {
    "auto_color 为 true 时，line_color 不能设置"@
}

/// Why what was collected yields no arguments, or `None` where it does. In
/// this order: the page must be set and be a page path without parameters;
/// the scene must be set and be a valid scene; an automatic colour and a line
/// colour exclude each other.
pub open spec fn unlimited_fault(builder: UnlimitedQrCodeArgsBuilderModel) -> Option<Seq<char>> {
    match builder.page {
        None => Some(path_missing()),
        Some(page) => match non_query_verdict(page) {
            Some(e) => Some(e.spec_message()),
            None => match builder.scene {
                None => Some(scene_missing()),
                Some(scene) => match scene_verdict(scene) {
                    Some(e) => Some(e.spec_message()),
                    None => {
                        if builder.auto_color is Some && builder.line_color is Some {
                            Some(color_conflict())
                        } else {
                            None
                        }
                    },
                },
            },
        },
    }
}

/// The members of the JSON object that stands for a colour.
pub open spec fn rgb_members(color: Rgb) -> Seq<(Seq<char>, ScalarModel)> {
    seq![
        ("r"@, ScalarModel::Number(color.r as int)),
        ("g"@, ScalarModel::Number(color.g as int)),
        ("b"@, ScalarModel::Number(color.b as int)),
    ]
}

fn rgb_object(color: Rgb) -> (members: Vec<(String, JsonScalar)>)
    ensures
        scalars_view(members) == rgb_members(color),
{
    let mut members: Vec<(String, JsonScalar)> = Vec::new();
    members.push(("r".to_string(), JsonScalar::Number(color.r as i64)));
    members.push(("g".to_string(), JsonScalar::Number(color.g as i64)));
    members.push(("b".to_string(), JsonScalar::Number(color.b as i64)));
    assert(scalars_view(members) =~= rgb_members(color));
    members
}

/// The request that asks for the unlimited code of `args`, authorised by
/// `access_token`. The body holds the page and the scene and then, as far as
/// they are set: the width as a number, the path check and the automatic
/// colour as truth values, the line colour as an object, the transparency as
/// a truth value, and the name of the version.
pub open spec fn unlimited_code_request(
    args: UnlimitedQrCodeArgsModel,
    access_token: Seq<char>,
) -> RequestModel {
    RequestModel {
        url: SHORT_LINK_END_POINT@,
        query: token_query(access_token),
        method: Method::Post,
        headers: image_headers(),
        body: Some(
            seq![
                ("page"@, MemberModel::Text(args.page)),
                ("scene"@, MemberModel::Text(args.scene)),
            ] + (match args.width {
                Some(width) => seq![("width"@, MemberModel::Number(width as int))],
                None => Seq::empty(),
            }) + optional_flag("check_path"@, args.check_path) + optional_flag(
                "auto_color"@,
                args.auto_color,
            ) + (match args.line_color {
                Some(color) => seq![("line_color"@, MemberModel::Object(rgb_members(color)))],
                None => Seq::empty(),
            }) + optional_flag("is_hyaline"@, args.is_hyaline) + (match args.env_version {
                Some(version) => seq![("env_version"@, MemberModel::Text(version.spec_name()))],
                None => Seq::empty(),
            }),
        ),
    }
}

impl UnlimitedQrCodeArgs {
    /// A builder in which nothing is set.
    pub fn builder() -> (builder: UnlimitedQrCodeArgsBuilder)
        ensures
            builder@ == UnlimitedQrCodeArgsBuilder::blank(),
    {
        UnlimitedQrCodeArgsBuilder::new()
    }

    /// The page.
    pub fn page(&self) -> (page: String)
        ensures
            page@ == self@.page,
    {
        self.page.clone()
    }

    /// The width of the code in pixels.
    pub fn width(&self) -> (width: Option<i16>)
        ensures
            width == self@.width,
    {
        self.width
    }

    /// Whether the line colour is chosen automatically.
    pub fn auto_color(&self) -> (auto_color: Option<bool>)
        ensures
            auto_color == self@.auto_color,
    {
        self.auto_color
    }

    /// The line colour.
    pub fn line_color(&self) -> (line_color: Option<Rgb>)
        ensures
            line_color == self@.line_color,
    {
        self.line_color
    }

    /// Whether the background is transparent.
    pub fn is_hyaline(&self) -> (is_hyaline: Option<bool>)
        ensures
            is_hyaline == self@.is_hyaline,
    {
        self.is_hyaline
    }

    /// The version of the mini-program that the code opens.
    pub fn env_version(&self) -> (env_version: Option<MinappEnvVersion>)
        ensures
            env_version == self@.env_version,
    {
        self.env_version
    }

    /// The request that asks for the code, authorised by `access_token`.
    pub fn request(&self, access_token: &str) -> (request: HttpRequest)
        ensures
            request@ == unlimited_code_request(self@, access_token@),
    {
        let mut body: Vec<(String, JsonMember)> = Vec::new();
        push_text(&mut body, "page", self.page.as_str());
        push_text(&mut body, "scene", self.scene.as_str());
        if let Some(width) = self.width {
            push_number(&mut body, "width", width as i64);
        }
        push_optional_flag(&mut body, "check_path", self.check_path);
        push_optional_flag(&mut body, "auto_color", self.auto_color);
        if let Some(color) = self.line_color {
            push_object(&mut body, "line_color", rgb_object(color));
        }
        push_optional_flag(&mut body, "is_hyaline", self.is_hyaline);
        if let Some(version) = self.env_version {
            push_text(&mut body, "env_version", version.name());
        }
        assert(members_view(body) =~= unlimited_code_request(self@, access_token@).body.unwrap());
        HttpRequest {
            url: SHORT_LINK_END_POINT.to_string(),
            query: access_token_query(access_token),
            method: Method::Post,
            headers: image_request_headers(),
            body: Some(body),
        }
    }
}

impl UnlimitedQrCodeArgsBuilder {
    /// The model of a builder in which nothing is set.
    pub open spec fn blank() -> UnlimitedQrCodeArgsBuilderModel {
        UnlimitedQrCodeArgsBuilderModel {
            page: None,
            scene: None,
            width: None,
            check_path: None,
            auto_color: None,
            line_color: None,
            is_hyaline: None,
            env_version: None,
        }
    }

    /// A builder in which nothing is set.
    pub fn new() -> (builder: UnlimitedQrCodeArgsBuilder)
        ensures
            builder@ == Self::blank(),
    {
        UnlimitedQrCodeArgsBuilder {
            page: None,
            scene: None,
            check_path: None,
            width: None,
            auto_color: None,
            line_color: None,
            is_hyaline: None,
            env_version: None,
        }
    }

    /// Sets the page.
    pub fn page(self, page: &str) -> (builder: UnlimitedQrCodeArgsBuilder)
        ensures
            builder@ == (UnlimitedQrCodeArgsBuilderModel { page: Some(page@), ..self@ }),
    {
        let mut builder = self;
        builder.page = Some(page.to_string());
        builder
    }

    /// Sets the scene.
    pub fn scene(self, scene: &str) -> (builder: UnlimitedQrCodeArgsBuilder)
        ensures
            builder@ == (UnlimitedQrCodeArgsBuilderModel { scene: Some(scene@), ..self@ }),
    {
        let mut builder = self;
        builder.scene = Some(scene.to_string());
        builder
    }

    /// Sets the width in pixels.
    pub fn width(self, width: i16) -> (builder: UnlimitedQrCodeArgsBuilder)
        ensures
            builder@ == (UnlimitedQrCodeArgsBuilderModel { width: Some(width), ..self@ }),
    {
        let mut builder = self;
        builder.width = Some(width);
        builder
    }

    /// Asks for an automatic line colour.
    pub fn with_auto_color(self) -> (builder: UnlimitedQrCodeArgsBuilder)
        ensures
            builder@ == (UnlimitedQrCodeArgsBuilderModel { auto_color: Some(true), ..self@ }),
    {
        let mut builder = self;
        builder.auto_color = Some(true);
        builder
    }

    /// Sets the line colour.
    pub fn line_color(self, color: Rgb) -> (builder: UnlimitedQrCodeArgsBuilder)
        ensures
            builder@ == (UnlimitedQrCodeArgsBuilderModel { line_color: Some(color), ..self@ }),
    {
        let mut builder = self;
        builder.line_color = Some(color);
        builder
    }

    /// Asks for a transparent background.
    pub fn with_is_hyaline(self) -> (builder: UnlimitedQrCodeArgsBuilder)
        ensures
            builder@ == (UnlimitedQrCodeArgsBuilderModel { is_hyaline: Some(true), ..self@ }),
    {
        let mut builder = self;
        builder.is_hyaline = Some(true);
        builder
    }

    /// Sets the version of the mini-program that the code opens.
    pub fn env_version(self, version: MinappEnvVersion) -> (builder: UnlimitedQrCodeArgsBuilder)
        ensures
            builder@ == (UnlimitedQrCodeArgsBuilderModel { env_version: Some(version), ..self@ }),
    {
        let mut builder = self;
        builder.env_version = Some(version);
        builder
    }

    /// Validates what was collected and yields the arguments.
    pub fn build(self) -> (r: Result<UnlimitedQrCodeArgs, Error>)
        ensures
            r.is_ok() == unlimited_fault(self@).is_none(),
            r matches Err(e) ==> e@ == (
                ErrorKind::InvalidParameter,
                unlimited_fault(self@).unwrap(),
            ),
            r matches Ok(args) ==> args@ == (UnlimitedQrCodeArgsModel {
                page: self@.page.unwrap(),
                scene: self@.scene.unwrap(),
                width: self@.width,
                check_path: self@.check_path,
                auto_color: self@.auto_color,
                line_color: self@.line_color,
                is_hyaline: self@.is_hyaline,
                env_version: self@.env_version,
            }),
    {
        let page = match self.page {
            None => {
                return Err(Error::InvalidParameter("小程序页面路径不能为空".to_string()));
            },
            Some(page) => match NonQueryPagePath::new(page.as_str()) {
                Ok(path) => path.into_inner(),
                Err(e) => {
                    return Err(Error::InvalidParameter(e.message()));
                },
            },
        };
        let scene = match self.scene {
            None => {
                return Err(Error::InvalidParameter("scene 不能为空".to_string()));
            },
            Some(scene) => match SceneString::new(scene.as_str()) {
                Ok(valid) => valid.into_inner(),
                Err(e) => {
                    return Err(Error::InvalidParameter(e.message()));
                },
            },
        };
        if self.auto_color.is_some() && self.line_color.is_some() {
            return Err(
                Error::InvalidParameter("auto_color 为 true 时，line_color 不能设置".to_string()),
            );
        }
        Ok(
            UnlimitedQrCodeArgs {
                page,
                scene,
                check_path: self.check_path,
                width: self.width,
                auto_color: self.auto_color,
                line_color: self.line_color,
                is_hyaline: self.is_hyaline,
                env_version: self.env_version,
            },
        )
    }
}

impl<C: HttpClient> WechatMinappSDK<C> {
    /// Asks the remote for the unlimited code of `args`: obtains the access
    /// token, sends the request and takes the image of a successful answer.
    /// The refresher role is free again afterwards, whatever happened.
    pub fn unlimited_qr_code(&mut self, args: UnlimitedQrCodeArgs) -> (r: Result<QrCode, Error>)
        requires
            old(self).wf(),
        ensures
            final(self).wf(),
            asked_for_token(old(self)@, final(self)@, r),
    {
        let ghost before = self@;
        let fetched = self.token();
        proof {
            let now = choose|now: Timestamp| served(before, self@, now@, outcome_view(fetched));
            assert(served(before, self@, now@, outcome_view(fetched)));
        }
        let token = match fetched {
            Ok(token) => token,
            Err(e) => {
                return Err(e);
            },
        };
        QrCode::from_exchange(self.exchange(args.request(token.as_str())))
    }
}

} // verus!
