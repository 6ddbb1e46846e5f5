//! The text moderation endpoint: its arguments, its request and its verdict.

use vstd::prelude::*;
use vstd::string::StringExecFns;
use crate::client::{asked_for_token, Timestamp, WechatMinappSDK};
use crate::client::memory_storage::served;
use crate::client::token_storage::outcome_view;
use crate::constants::MSG_SEC_CHECK_END_POINT;
use crate::error::{Error, ErrorKind};
use crate::minapp_security::{Label, Suggest};
use crate::utils::http::{
    access_token_query, conclude, Exchange, HttpClient, HttpRequest, json_headers,
    json_request_headers, JsonMember, MemberModel, Method, optional_text, push_optional_text,
    push_text, RequestModel, token_query,
};
use crate::utils::json::{
    answer_of, i32_at, integer_at, length_at, member_missing, missing_member,
    spec_json_i32, spec_json_integer, spec_json_length, spec_json_text, text_at,
};
use crate::utils::text::{byte_len, decimal, optional_chars, to_decimal, to_unsigned_decimal};

verus! {

/// The longest content that can be checked, in bytes.
pub const MAX_CONTENT_LENGTH: usize = 2500;

/// Where the content to be checked comes from.
#[derive(Debug, Clone, Copy, PartialEq, Eq, Structural)]
pub enum Scene {
    /// A profile.
    Profile,
    /// A comment.
    Comment,
    /// A forum post.
    Forum,
    /// A social log.
    SocialLog,
}

impl Scene {
    /// The number by which the remote API knows this scene.
    pub open spec fn spec_value(&self) -> u32 {
        match self {
            Scene::Profile => 1,
            Scene::Comment => 2,
            Scene::Forum => 3,
            Scene::SocialLog => 4,
        }
    }

    /// The number by which the remote API knows this scene.
    pub fn value(&self) -> (v: u32)
        ensures
            v == self.spec_value(),
    {
        match self {
            Scene::Profile => 1,
            Scene::Comment => 2,
            Scene::Forum => 3,
            Scene::SocialLog => 4,
        }
    }

    /// The scene with the number `value`, if there is one.
    pub fn from_value(value: u32) -> (scene: Option<Scene>)
        ensures
            scene.is_some() == (1 <= value <= 4),
            scene matches Some(s) ==> s.spec_value() == value,
    {
        match value {
            1 => Some(Scene::Profile),
            2 => Some(Scene::Comment),
            3 => Some(Scene::Forum),
            4 => Some(Scene::SocialLog),
            _ => None,
        }
    }

    /// The name of this scene.
    pub fn description(&self) -> (text: &'static str)
        ensures
            text@ == match self {
                Scene::Profile => "资料"@,
                Scene::Comment => "评论"@,
                Scene::Forum => "论坛"@,
                Scene::SocialLog => "社交日志"@,
            },
    {
        match self {
            Scene::Profile => "资料",
            Scene::Comment => "评论",
            Scene::Forum => "论坛",
            Scene::SocialLog => "社交日志",
        }
    }
}

/// The arguments of a text check.
#[derive(Debug, Clone)]
pub struct Args {
    /// The text to check, at most 2500 bytes of UTF-8.
    pub content: String,
    /// The version of the interface; 2 for the current one.
    pub version: u32,
    pub scene: Scene,
    /// The user's openid; the user must have visited the mini-program
    /// within the last two hours.
    pub openid: String,
    pub title: Option<String>,
    pub nickname: Option<String>,
    /// The personal signature; only meaningful in the profile scene.
    pub signature: Option<String>,
}

/// Collects the arguments of a text check and validates them at the end.
#[derive(Debug)]
pub struct ArgsBuilder {
    content: Option<String>,
    version: Option<u32>,
    scene: Option<Scene>,
    openid: Option<String>,
    title: Option<String>,
    nickname: Option<String>,
    signature: Option<String>,
}

/// The message that rejects content of more than 2500 bytes.
pub open spec fn content_too_long() -> Seq<char> {
    "content 长度不能超过2500字"@
}

/// The message that rejects a signature outside the profile scene.
pub open spec fn signature_misplaced() -> Seq<char> {
    "signature 仅在资料场景(scene=1)下有效"@
}

/// Why arguments with this content, scene and signature are rejected, or
/// `None` where they are valid: the content is at most 2500 bytes long, and a
/// signature comes only with the profile scene.
pub open spec fn args_fault(content: Seq<char>, scene: Scene, signature: Option<Seq<char>>) -> Option<
    Seq<char>,
> {
    if byte_len(content) > 2500 {
        Some(content_too_long())
    } else if signature is Some && scene != Scene::Profile {
        Some(signature_misplaced())
    } else {
        None
    }
}

/// Why what was collected yields no arguments, or `None` where it does. The
/// content, the scene and the openid must be set, in this order of complaint;
/// then the rules of [`args_fault`] apply.
pub open spec fn builder_fault(builder: ArgsBuilderModel) -> Option<Seq<char>> {
    if builder.content is None {
        Some("content 是必填参数"@)
    } else if builder.scene is None {
        Some("scene 是必填参数"@)
    } else if builder.openid is None {
        Some("openid 是必填参数"@)
    } else {
        args_fault(builder.content.unwrap(), builder.scene.unwrap(), builder.signature)
    }
}

fn check_args(content: &String, scene: Scene, signature: &Option<String>) -> (r: Result<(), Error>)
    ensures
        r.is_ok() == args_fault(content@, scene, optional_chars(*signature)).is_none(),
        r matches Err(e) ==> args_fault(content@, scene, optional_chars(*signature)) == Some(e@.1)
            && e@.0 == ErrorKind::InvalidParameter,
{
    if content.as_str().as_bytes().len() > MAX_CONTENT_LENGTH {
        return Err(Error::InvalidParameter("content 长度不能超过2500字".to_string()));
    }
    if signature.is_some() && scene != Scene::Profile {
        return Err(
            Error::InvalidParameter("signature 仅在资料场景(scene=1)下有效".to_string()),
        );
    }
    Ok(())
}

/// What has been collected, mathematically.
pub struct ArgsBuilderModel {
    pub content: Option<Seq<char>>,
    pub version: Option<u32>,
    pub scene: Option<Scene>,
    pub openid: Option<Seq<char>>,
    pub title: Option<Seq<char>>,
    pub nickname: Option<Seq<char>>,
    pub signature: Option<Seq<char>>,
}

impl View for ArgsBuilder {
    type V = ArgsBuilderModel;

    closed spec fn view(&self) -> ArgsBuilderModel {
        ArgsBuilderModel {
            content: optional_chars(self.content),
            version: self.version,
            scene: self.scene,
            openid: optional_chars(self.openid),
            title: optional_chars(self.title),
            nickname: optional_chars(self.nickname),
            signature: optional_chars(self.signature),
        }
    }
}

impl ArgsBuilder {
    /// The model of a builder in which nothing is set.
    pub open spec fn blank() -> ArgsBuilderModel {
        ArgsBuilderModel {
            content: None,
            version: None,
            scene: None,
            openid: None,
            title: None,
            nickname: None,
            signature: None,
        }
    }

    /// A builder in which nothing is set.
    pub fn new() -> (builder: ArgsBuilder)
        ensures
            builder@ == Self::blank(),
    {
        ArgsBuilder {
            content: None,
            version: None,
            scene: None,
            openid: None,
            title: None,
            nickname: None,
            signature: None,
        }
    }

    /// Sets the text to check.
    pub fn content(self, content: &str) -> (builder: ArgsBuilder)
        ensures
            builder@ == (ArgsBuilderModel { content: Some(content@), ..self@ }),
    {
        let mut builder = self;
        builder.content = Some(content.to_string());
        builder
    }

    /// Sets the version of the interface.
    pub fn version(self, version: u32) -> (builder: ArgsBuilder)
        ensures
            builder@ == (ArgsBuilderModel { version: Some(version), ..self@ }),
    {
        let mut builder = self;
        builder.version = Some(version);
        builder
    }

    /// Sets the scene.
    pub fn scene(self, scene: Scene) -> (builder: ArgsBuilder)
        ensures
            builder@ == (ArgsBuilderModel { scene: Some(scene), ..self@ }),
    {
        let mut builder = self;
        builder.scene = Some(scene);
        builder
    }

    /// Sets the user's openid.
    pub fn openid(self, openid: &str) -> (builder: ArgsBuilder)
        ensures
            builder@ == (ArgsBuilderModel { openid: Some(openid@), ..self@ }),
    {
        let mut builder = self;
        builder.openid = Some(openid.to_string());
        builder
    }

    /// Sets the title of the text.
    pub fn title(self, title: &str) -> (builder: ArgsBuilder)
        ensures
            builder@ == (ArgsBuilderModel { title: Some(title@), ..self@ }),
    {
        let mut builder = self;
        builder.title = Some(title.to_string());
        builder
    }

    /// Sets the user's nickname.
    pub fn nickname(self, nickname: &str) -> (builder: ArgsBuilder)
        ensures
            builder@ == (ArgsBuilderModel { nickname: Some(nickname@), ..self@ }),
    {
        let mut builder = self;
        builder.nickname = Some(nickname.to_string());
        builder
    }

    /// Sets the personal signature.
    pub fn signature(self, signature: &str) -> (builder: ArgsBuilder)
        ensures
            builder@ == (ArgsBuilderModel { signature: Some(signature@), ..self@ }),
    {
        let mut builder = self;
        builder.signature = Some(signature.to_string());
        builder
    }

    /// Validates what was collected and yields the arguments. The version
    /// defaults to 2.
    pub fn build(self) -> (r: Result<Args, Error>)
        ensures
            r.is_ok() == builder_fault(self@).is_none(),
            r matches Err(e) ==> e@ == (ErrorKind::InvalidParameter, builder_fault(self@).unwrap()),
            r matches Ok(args) ==> {
                &&& Some(args.content@) == self@.content
                &&& args.version == match self@.version {
                    Some(v) => v,
                    None => 2u32,
                }
                &&& Some(args.scene) == self@.scene
                &&& Some(args.openid@) == self@.openid
                &&& optional_chars(args.title) == self@.title
                &&& optional_chars(args.nickname) == self@.nickname
                &&& optional_chars(args.signature) == self@.signature
            },
    {
        let content = match self.content {
            Some(content) => content,
            None => {
                return Err(Error::InvalidParameter("content 是必填参数".to_string()));
            },
        };
        let version = match self.version {
            Some(version) => version,
            None => 2,
        };
        let scene = match self.scene {
            Some(scene) => scene,
            None => {
                return Err(Error::InvalidParameter("scene 是必填参数".to_string()));
            },
        };
        let openid = match self.openid {
            Some(openid) => openid,
            None => {
                return Err(Error::InvalidParameter("openid 是必填参数".to_string()));
            },
        };
        match check_args(&content, scene, &self.signature) {
            Ok(()) => {},
            Err(e) => {
                return Err(e);
            },
        }
        Ok(
            Args {
                content,
                version,
                scene,
                openid,
                title: self.title,
                nickname: self.nickname,
                signature: self.signature,
            },
        )
    }
}

/// The request that asks for the check of `args`, authorised by
/// `access_token`. The body holds, in order: the content, the version and
/// the scene as decimal numerals, the openid, and then the title, the
/// nickname and the signature as far as they are set.
pub open spec fn check_request(args: Args, access_token: Seq<char>) -> RequestModel {
    RequestModel {
        url: MSG_SEC_CHECK_END_POINT@,
        query: token_query(access_token),
        method: Method::Post,
        headers: json_headers(),
        body: Some(
            seq![
                ("content"@, MemberModel::Text(args.content@)),
                ("version"@, MemberModel::Text(decimal(args.version as int))),
                ("scene"@, MemberModel::Text(decimal(args.scene.spec_value() as int))),
                ("openid"@, MemberModel::Text(args.openid@)),
            ] + optional_text("title"@, args.title) + optional_text("nickname"@, args.nickname)
                + optional_text("signature"@, args.signature),
        ),
    }
}

impl Args {
    /// A builder in which nothing is set.
    pub fn builder() -> (builder: ArgsBuilder)
        ensures
            builder@ == ArgsBuilder::blank(),
    {
        ArgsBuilder::new()
    }

    /// The arguments for `content` in `scene`, with version 2 and nothing
    /// optional. Nothing is validated here.
    pub fn new(content: &str, scene: Scene, openid: &str) -> (args: Args)
        ensures
            args.content@ == content@,
            args.version == 2,
            args.scene == scene,
            args.openid@ == openid@,
            args.title is None,
            args.nickname is None,
            args.signature is None,
    {
        Args {
            content: content.to_string(),
            version: 2,
            scene,
            openid: openid.to_string(),
            title: None,
            nickname: None,
            signature: None,
        }
    }

    /// Whether the scene is the profile.
    pub fn is_profile_scene(&self) -> (b: bool)
        ensures
            b == (self.scene == Scene::Profile),
    {
        self.scene == Scene::Profile
    }

    /// The length of the content in bytes.
    pub fn content_length(&self) -> (n: usize)
        ensures
            n == byte_len(self.content@),
    {
        self.content.as_str().as_bytes().len()
    }

    /// Checks the rules of [`args_fault`].
    pub fn validate(&self) -> (r: Result<(), Error>)
        ensures
            r.is_ok() == args_fault(self.content@, self.scene, optional_chars(self.signature)).is_none(),
            r matches Err(e) ==> e@ == (
                ErrorKind::InvalidParameter,
                args_fault(self.content@, self.scene, optional_chars(self.signature)).unwrap(),
            ),
    {
        check_args(&self.content, self.scene, &self.signature)
    }

    /// The request that asks for the check, authorised by `access_token`.
    /// Invalid arguments are refused before anything is sent.
    pub fn request(&self, access_token: &str) -> (r: Result<HttpRequest, Error>)
        ensures
            r.is_ok() == args_fault(self.content@, self.scene, optional_chars(self.signature)).is_none(),
            r matches Err(e) ==> e@ == (
                ErrorKind::InvalidParameter,
                args_fault(self.content@, self.scene, optional_chars(self.signature)).unwrap(),
            ),
            r matches Ok(request) ==> request@ == check_request(*self, access_token@),
    {
        match self.validate() {
            Ok(()) => {},
            Err(e) => {
                return Err(e);
            },
        }
        let mut body: Vec<(String, JsonMember)> = Vec::new();
        push_text(&mut body, "content", self.content.as_str());
        push_text(&mut body, "version", to_decimal(self.version as i64).as_str());
        push_text(&mut body, "scene", to_decimal(self.scene.value() as i64).as_str());
        push_text(&mut body, "openid", self.openid.as_str());
        push_optional_text(&mut body, "title", &self.title);
        push_optional_text(&mut body, "nickname", &self.nickname);
        push_optional_text(&mut body, "signature", &self.signature);
        assert(crate::utils::http::members_view(body) =~= check_request(
            *self,
            access_token@,
        ).body.unwrap());
        Ok(
            HttpRequest {
                url: MSG_SEC_CHECK_END_POINT.to_string(),
                query: access_token_query(access_token),
                method: Method::Post,
                headers: json_request_headers(),
                body: Some(body),
            },
        )
    }
}

/// The verdict of one strategy of the check. The remote also reports a
/// confidence between 0 and 100, a fraction, which this type leaves out.
#[derive(Debug, Clone)]
pub struct DetailResult {
    pub strategy: String,
    /// The verdict counts only where this is 0.
    pub errcode: i32,
    pub suggest: Option<Suggest>,
    pub label: Option<Label>,
    /// The custom keyword that the content hit, if any.
    pub keyword: Option<String>,
}

/// The overall verdict.
#[derive(Debug, Clone, Copy, PartialEq, Eq, Structural)]
pub struct ComprehensiveResult {
    pub suggest: Suggest,
    pub label: Label,
}

/// What the check answered.
#[derive(Debug, Clone)]
pub struct MsgSecCheckResult {
    pub errcode: i32,
    pub errmsg: String,
    pub detail: Option<Vec<DetailResult>>,
    pub result: Option<ComprehensiveResult>,
    /// Identifies the request on the remote side.
    pub trace_id: Option<String>,
}

/// What the verdict of one strategy is, mathematically.
pub struct DetailModel {
    pub strategy: Seq<char>,
    pub errcode: i32,
    pub suggest: Option<Suggest>,
    pub label: Option<Label>,
    pub keyword: Option<Seq<char>>,
}

impl View for DetailResult {
    type V = DetailModel;

    open spec fn view(&self) -> DetailModel {
        DetailModel {
            strategy: self.strategy@,
            errcode: self.errcode,
            suggest: self.suggest,
            label: self.label,
            keyword: optional_chars(self.keyword),
        }
    }
}

/// What the check answered, mathematically.
pub struct MsgSecCheckModel {
    pub errcode: i32,
    pub errmsg: Seq<char>,
    pub detail: Option<Seq<DetailModel>>,
    pub result: Option<ComprehensiveResult>,
    pub trace_id: Option<Seq<char>>,
}

/// The verdicts of a list, as mathematics.
pub open spec fn details_view(details: Vec<DetailResult>) -> Seq<DetailModel> {
    details@.map_values(|d: DetailResult| d@)
}

impl View for MsgSecCheckResult {
    type V = MsgSecCheckModel;

    open spec fn view(&self) -> MsgSecCheckModel {
        MsgSecCheckModel {
            errcode: self.errcode,
            errmsg: self.errmsg@,
            detail: match self.detail {
                Some(details) => Some(details_view(details)),
                None => None,
            },
            result: self.result,
            trace_id: optional_chars(self.trace_id),
        }
    }
}

/// The JSON pointer to the member `member` of the verdict at position `i` of
/// the list `detail`.
pub open spec fn detail_pointer(i: int, member: Seq<char>) -> Seq<char> {
    "/detail/"@ + decimal(i) + "/"@ + member
}

/// The verdict at position `i` of the list `detail` in `body`: its strategy
/// and error code, which must be there, and its advice, label and keyword as
/// far as they are there and of the right kind.
pub open spec fn spec_detail(body: Seq<u8>, i: int) -> Option<DetailModel> {
    match (
        spec_json_text(body, detail_pointer(i, "strategy"@)),
        spec_json_i32(body, detail_pointer(i, "errcode"@)),
    ) {
        (Some(strategy), Some(errcode)) => Some(
            DetailModel {
                strategy,
                errcode,
                suggest: match spec_json_text(body, detail_pointer(i, "suggest"@)) {
                    Some(name) => Suggest::spec_named(name),
                    None => None,
                },
                label: Label::spec_coded(spec_json_integer(body, detail_pointer(i, "label"@))),
                keyword: spec_json_text(body, detail_pointer(i, "keyword"@)),
            },
        ),
        _ => None,
    }
}

/// The overall verdict in `body`: the advice and the label under `result`,
/// where both are there.
pub open spec fn spec_result(body: Seq<u8>) -> Option<ComprehensiveResult> {
    match (
        match spec_json_text(body, "/result/suggest"@) {
            Some(name) => Suggest::spec_named(name),
            None => None,
        },
        Label::spec_coded(spec_json_integer(body, "/result/label"@)),
    ) {
        (Some(suggest), Some(label)) => Some(ComprehensiveResult { suggest, label }),
        _ => None,
    }
}

/// Whether each of the first `n` verdicts of the list `detail` in `body`
/// holds what it must.
pub open spec fn details_complete(body: Seq<u8>, n: int) -> bool {
    forall|i: int| 0 <= i < n ==> (#[trigger] spec_detail(body, i)) is Some
}

/// The list of verdicts in `body`, where there is a list: `n` verdicts, in
/// order.
pub open spec fn spec_details(body: Seq<u8>) -> Option<Seq<DetailModel>> {
    match spec_json_length(body, "/detail"@) {
        Some(n) => Some(Seq::new(n as nat, |i: int| spec_detail(body, i).unwrap())),
        None => None,
    }
}

/// What the bytes of the check's answer hold: the error code and message,
/// which must be there; the list of verdicts where there is a list, each of
/// which must hold its strategy and error code; the overall verdict and the
/// trace id as far as they are there. `None` where something that must be
/// there is not.
pub open spec fn spec_check_answer(body: Seq<u8>) -> Option<MsgSecCheckModel> {
    match (spec_json_i32(body, "/errcode"@), spec_json_text(body, "/errmsg"@)) {
        (Some(errcode), Some(errmsg)) => {
            if spec_json_length(body, "/detail"@) matches Some(n) && !details_complete(body, n) {
                None
            } else {
                Some(
                    MsgSecCheckModel {
                        errcode,
                        errmsg,
                        detail: spec_details(body),
                        result: spec_result(body),
                        trace_id: spec_json_text(body, "/trace_id"@),
                    },
                )
            }
        },
        _ => None,
    }
}

fn detail_member(i: usize, member: &str) -> (pointer: String)
    ensures
        pointer@ == detail_pointer(i as int, member@),
{
    String::from_str("/detail/").concat(to_unsigned_decimal(i as u64).as_str()).concat("/").concat(
        member,
    )
}

fn decode_detail(body: &[u8], i: usize) -> (r: Option<DetailResult>)
    ensures
        r.is_some() == spec_detail(body@, i as int).is_some(),
        r matches Some(detail) ==> Some(detail@) == spec_detail(body@, i as int),
{
    let strategy = match text_at(body, detail_member(i, "strategy").as_str()) {
        Some(text) => text,
        None => {
            return None;
        },
    };
    let errcode = match i32_at(body, detail_member(i, "errcode").as_str()) {
        Some(n) => n,
        None => {
            return None;
        },
    };
    let suggest = match text_at(body, detail_member(i, "suggest").as_str()) {
        Some(name) => Suggest::named(name.as_str()),
        None => None,
    };
    let label = Label::coded(integer_at(body, detail_member(i, "label").as_str()));
    let keyword = text_at(body, detail_member(i, "keyword").as_str());
    Some(DetailResult { strategy, errcode, suggest, label, keyword })
}

fn decode_result(body: &[u8]) -> (r: Option<ComprehensiveResult>)
    ensures
        r == spec_result(body@),
{
    let suggest = match text_at(body, "/result/suggest") {
        Some(name) => Suggest::named(name.as_str()),
        None => None,
    };
    let label = Label::coded(integer_at(body, "/result/label"));
    match (suggest, label) {
        (Some(suggest), Some(label)) => Some(ComprehensiveResult { suggest, label }),
        _ => None,
    }
}

/// The verdicts among `details` that count: those with error code 0, in
/// order.
pub open spec fn valid_details(details: Seq<DetailResult>) -> Seq<DetailResult>
    decreases details.len(),
{
    if details.len() == 0 {
        Seq::empty()
    } else {
        let before = valid_details(details.drop_last());
        if details.last().errcode == 0 {
            before.push(details.last())
        } else {
            before
        }
    }
}

/// The message of the failure that an answer with a non-zero error code
/// gives: a fixed prefix, the code as a decimal numeral, a dash, and the
/// remote's message.
pub open spec fn check_failure(errcode: i32, errmsg: Seq<char>) -> Seq<char> {
    "微信内容安全检测API错误: "@ + decimal(errcode as int) + " - "@ + errmsg
}

impl MsgSecCheckResult {
    /// Decodes the bytes of the check's answer.
    #[verifier::loop_isolation(false)]
    pub fn decode(body: &[u8]) -> (r: Result<MsgSecCheckResult, Error>)
        ensures
            r.is_ok() == spec_check_answer(body@).is_some(),
            r matches Ok(answer) ==> Some(answer@) == spec_check_answer(body@),
            r matches Err(e) ==> e@ == (ErrorKind::Decode, member_missing()),
    {
        let errcode = match i32_at(body, "/errcode") {
            Some(n) => n,
            None => {
                return Err(missing_member());
            },
        };
        let errmsg = match text_at(body, "/errmsg") {
            Some(text) => text,
            None => {
                return Err(missing_member());
            },
        };
        let detail = match length_at(body, "/detail") {
            Some(n) => {
                let mut details: Vec<DetailResult> = Vec::new();
                let mut i: usize = 0;
                while i < n
                    invariant
                        i <= n,
                        details@.len() == i,
                        forall|j: int|
                            0 <= j < i ==> spec_detail(body@, j) == Some(
                                (#[trigger] details@[j])@,
                            ),
                    decreases n - i,
                {
                    match decode_detail(body, i) {
                        Some(detail) => {
                            details.push(detail);
                        },
                        None => {
                            assert(!details_complete(body@, n as int)) by {
                                assert(spec_detail(body@, i as int) is None);
                            }
                            return Err(missing_member());
                        },
                    }
                    i += 1;
                }
                assert(details_complete(body@, n as int)) by {
                    assert forall|j: int| 0 <= j < n implies (#[trigger] spec_detail(
                        body@,
                        j,
                    )) is Some by {
                        assert(spec_detail(body@, j) == Some(details@[j]@));
                    }
                }
                assert(details_view(details) =~= spec_details(body@).unwrap()) by {
                    assert forall|j: int| 0 <= j < n implies details_view(details)[j]
                        == spec_detail(body@, j).unwrap() by {
                        assert(spec_detail(body@, j) == Some(details@[j]@));
                    }
                }
                Some(details)
            },
            None => None,
        };
        let result = decode_result(body);
        let trace_id = text_at(body, "/trace_id");
        Ok(MsgSecCheckResult { errcode, errmsg, detail, result, trace_id })
    }

    /// What was observed of the exchange with the check, the bytes of a
    /// successful answer decoded.
    pub fn read(exchange: Exchange<Vec<u8>>) -> (r: Exchange<MsgSecCheckResult>)
        ensures
            exchange matches Exchange::Decoded { body } ==> match spec_check_answer(body@) {
                Some(answer) => r matches Exchange::Decoded { body: decoded_body }
                    && decoded_body@ == answer,
                None => r matches Exchange::Undecodable { message } && message@
                    == member_missing(),
            },
            exchange matches Exchange::Unreachable { message } ==> r == (Exchange::<
                MsgSecCheckResult,
            >::Unreachable { message }),
            exchange matches Exchange::Refused { status, text } ==> r == (Exchange::<
                MsgSecCheckResult,
            >::Refused { status, text }),
            exchange matches Exchange::Undecodable { message } ==> r == (Exchange::<
                MsgSecCheckResult,
            >::Undecodable { message }),
    {
        match answer_of(exchange) {
            Ok(bytes) => match Self::decode(bytes.as_slice()) {
                Ok(body) => Exchange::Decoded { body },
                Err(e) => Exchange::Undecodable { message: e.message() },
            },
            Err(other) => other,
        }
    }

    /// Whether the request succeeded: the error code is 0.
    pub fn is_success(&self) -> (b: bool)
        ensures
            b == (self.errcode == 0),
    {
        self.errcode == 0
    }

    /// The overall advice, if there is an overall verdict.
    pub fn get_suggest(&self) -> (suggest: Option<Suggest>)
        ensures
            suggest == match self.result {
                Some(result) => Some(result.suggest),
                None => None,
            },
    {
        match &self.result {
            Some(result) => Some(result.suggest),
            None => None,
        }
    }

    /// The overall label, if there is an overall verdict.
    pub fn get_label(&self) -> (label: Option<Label>)
        ensures
            label == match self.result {
                Some(result) => Some(result.label),
                None => None,
            },
    {
        match &self.result {
            Some(result) => Some(result.label),
            None => None,
        }
    }

    /// Whether the content passed: there is an overall verdict and it
    /// advises to pass.
    pub fn is_pass(&self) -> (b: bool)
        ensures
            b == (self.result matches Some(result) && result.suggest == Suggest::Pass),
    {
        match self.get_suggest() {
            Some(suggest) => suggest.is_pass(),
            None => false,
        }
    }

    /// Whether the content is risky: there is an overall verdict and it says
    /// so.
    pub fn is_risky(&self) -> (b: bool)
        ensures
            b == (self.result matches Some(result) && result.suggest == Suggest::Risky),
    {
        match self.get_suggest() {
            Some(suggest) => suggest.is_risky(),
            None => false,
        }
    }

    /// Whether the content needs review: there is an overall verdict and it
    /// asks for one.
    pub fn needs_review(&self) -> (b: bool)
        ensures
            b == (self.result matches Some(result) && result.suggest == Suggest::Review),
    {
        match self.get_suggest() {
            Some(suggest) => suggest.needs_review(),
            None => false,
        }
    }

    /// The verdicts that count: those with error code 0, in order; none
    /// where the answer holds no details.
    pub fn get_valid_details(&self) -> (valid: Vec<&DetailResult>)
        ensures
            valid@.map_values(|d: &DetailResult| *d) == match self.detail {
                Some(details) => valid_details(details@),
                None => Seq::empty(),
            },
    {
        let mut valid: Vec<&DetailResult> = Vec::new();
        match &self.detail {
            Some(details) => {
                let mut i: usize = 0;
                assert(details@.take(0) =~= Seq::<DetailResult>::empty());
                assert(valid@.map_values(|d: &DetailResult| *d) =~= valid_details(
                    details@.take(0),
                ));
                while i < details.len()
                    invariant
                        i <= details.len(),
                        valid@.map_values(|d: &DetailResult| *d) == valid_details(
                            details@.take(i as int),
                        ),
                    decreases details.len() - i,
                {
                    let ghost upto = details@.take(i + 1);
                    assert(upto.drop_last() =~= details@.take(i as int));
                    let ghost before = valid@.map_values(|d: &DetailResult| *d);
                    if details[i].errcode == 0 {
                        valid.push(&details[i]);
                        assert(valid@.map_values(|d: &DetailResult| *d) =~= before.push(
                            details@[i as int],
                        ));
                    }
                    i += 1;
                }
                assert(details@.take(details.len() as int) =~= details@);
            },
            None => {
                assert(valid@.map_values(|d: &DetailResult| *d) =~= Seq::<DetailResult>::empty());
            },
        }
        valid
    }

    /// Turns what was observed of the exchange with the check into its
    /// result: the answer itself where it reports success, a server-side
    /// failure with the message of [`check_failure`] where its error code is
    /// not 0, and the failure of the exchange in every other case.
    pub fn from_exchange(exchange: Exchange<MsgSecCheckResult>) -> (r: Result<
        MsgSecCheckResult,
        Error,
    >)
        ensures
            exchange matches Exchange::Decoded { body } ==> {
                if body.errcode == 0 {
                    r == Ok::<MsgSecCheckResult, Error>(body)
                } else {
                    r matches Err(e) && e@ == (
                        ErrorKind::InternalServer,
                        check_failure(body.errcode, body.errmsg@),
                    )
                }
            },
            !(exchange is Decoded) ==> r == crate::utils::http::spec_conclude(exchange),
    {
        let answer = match conclude(exchange) {
            Ok(answer) => answer,
            Err(e) => {
                return Err(e);
            },
        };
        if answer.is_success() {
            Ok(answer)
        } else {
            let message = String::from_str("微信内容安全检测API错误: ").concat(
                to_decimal(answer.errcode as i64).as_str(),
            ).concat(" - ").concat(answer.errmsg.as_str());
            Err(Error::InternalServer(message))
        }
    }
}

impl<C: HttpClient> WechatMinappSDK<C> {
    /// Asks the remote to check `args`. Invalid arguments are refused before
    /// the token cache or the remote is touched; otherwise the access token
    /// is obtained, the request sent and the answer decoded. The refresher
    /// role is free again afterwards, whatever happened.
    pub fn msg_sec_check(&mut self, args: &Args) -> (r: Result<MsgSecCheckResult, Error>)
        requires
            old(self).wf(),
        ensures
            final(self).wf(),
            args_fault(args.content@, args.scene, optional_chars(args.signature)) is None ==> asked_for_token(old(self)@, final(self)@, r),
            args_fault(args.content@, args.scene, optional_chars(args.signature)) matches Some(
                fault,
            ) ==> (final(self)@ == old(self)@ && (r matches Err(e) && e@ == (
                ErrorKind::InvalidParameter,
                fault,
            ))),
    {
        match args.validate() {
            Ok(()) => {},
            Err(e) => {
                return Err(e);
            },
        }
        let ghost before = self@;
        let fetched = self.token();
        proof {
            let now = choose|now: Timestamp| served(before, self@, now@, outcome_view(fetched));
            assert(served(before, self@, now@, outcome_view(fetched)));
        }
        let token = match fetched {
            Ok(token) => token,
            Err(e) => {
                return Err(e);
            },
        };
        let request = match args.request(token.as_str()) {
            Ok(request) => request,
            Err(e) => {
                return Err(e);
            },
        };
        MsgSecCheckResult::from_exchange(MsgSecCheckResult::read(self.exchange(request)))
    }
}

} // verus!
