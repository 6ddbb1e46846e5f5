//! The short link to a page: its arguments, its request and its answer.

use vstd::prelude::*;
use crate::client::{asked_for_token, Timestamp, WechatMinappSDK};
use crate::client::memory_storage::served;
use crate::client::token_storage::outcome_view;
use crate::constants::SHORT_LINK_END_POINT;
use crate::error::{Error, ErrorKind};
use crate::qr::minapp_code::{checked_path, path_fault};
use crate::utils::spec_parse_url;
use crate::utils::http::{
    access_token_query, agent_headers, build_request, conclude, Exchange, HttpClient,
    HttpRequest, JsonMember, MemberModel, members_view, Method, push_flag, push_optional_text,
    push_text, RequestModel, spec_conclude, token_query,
};
use crate::utils::json::{
    answer_of, member_missing, missing_member, spec_json_text, text_at,
};
use crate::utils::text::optional_chars;

verus! {

/// A short link, as the remote issued it.
#[derive(Debug, Clone)]
pub struct ShortLink {
    link: String,
}

impl View for ShortLink {
    type V = Seq<char>;

    closed spec fn view(&self) -> Seq<char> {
        self.link@
    }
}

impl ShortLink {
    /// The short link with the address `link`.
    pub fn new(link: String) -> (short: ShortLink)
        ensures
            short@ == link@,
    {
        ShortLink { link }
    }

    /// The address of the link.
    pub fn link(&self) -> (link: &str)
        ensures
            link@ == self@,
    {
        self.link.as_str()
    }

    /// Decodes the bytes of the link endpoint's answer: the link is the text
    /// of the member `link`.
    pub fn decode(body: &[u8]) -> (r: Result<ShortLink, Error>)
        ensures
            r.is_ok() == spec_json_text(body@, "/link"@).is_some(),
            r matches Ok(short) ==> Some(short@) == spec_json_text(body@, "/link"@),
            r matches Err(e) ==> e@ == (ErrorKind::Decode, member_missing()),
    {
        match text_at(body, "/link") {
            Some(link) => Ok(ShortLink { link }),
            None => Err(missing_member()),
        }
    }

    /// What was observed of the exchange with the link endpoint, the bytes
    /// of a successful answer decoded.
    pub fn read(exchange: Exchange<Vec<u8>>) -> (r: Exchange<ShortLink>)
        ensures
            exchange matches Exchange::Decoded { body } ==> match spec_json_text(
                body@,
                "/link"@,
            ) {
                Some(link) => r matches Exchange::Decoded { body: short } && short@ == link,
                None => r matches Exchange::Undecodable { message } && message@
                    == member_missing(),
            },
            exchange matches Exchange::Unreachable { message } ==> r == (Exchange::<
                ShortLink,
            >::Unreachable { message }),
            exchange matches Exchange::Refused { status, text } ==> r == (Exchange::<
                ShortLink,
            >::Refused { status, text }),
            exchange matches Exchange::Undecodable { message } ==> r == (Exchange::<
                ShortLink,
            >::Undecodable { message }),
    {
        match answer_of(exchange) {
            Ok(bytes) => match Self::decode(bytes.as_slice()) {
                Ok(body) => Exchange::Decoded { body },
                Err(e) => Exchange::Undecodable { message: e.message() },
            },
            Err(other) => other,
        }
    }

    /// Turns what was observed of the exchange with the link endpoint into
    /// its result: the link of a successful answer, and the failure of the
    /// exchange in every other case.
    pub fn from_exchange(exchange: Exchange<ShortLink>) -> (r: Result<ShortLink, Error>)
        ensures
            r == spec_conclude(exchange),
    {
        conclude(exchange)
    }
}

/// The arguments of a request for a short link.
#[derive(Debug)]
pub struct ShortLinkArgs {
    path: String,
    page_title: Option<String>,
    is_permanent: bool,
}

/// What the arguments of a request for a short link are, mathematically.
pub struct ShortLinkArgsModel {
    /// The page, with its parameters, at most 1024 bytes.
    pub path: Seq<char>,
    pub page_title: Option<Seq<char>>,
    /// Whether the link never expires.
    pub is_permanent: bool,
}

impl View for ShortLinkArgs {
    type V = ShortLinkArgsModel;

    closed spec fn view(&self) -> ShortLinkArgsModel {
        ShortLinkArgsModel {
            path: self.path@,
            page_title: optional_chars(self.page_title),
            is_permanent: self.is_permanent,
        }
    }
}

/// Collects the arguments of a request for a short link and validates them
/// at the end.
#[derive(Debug)]
pub struct ShortLinkArgsBuilder {
    path: Option<String>,
    page_title: Option<String>,
    is_permanent: Option<bool>,
}

/// What has been collected, mathematically.
pub struct ShortLinkArgsBuilderModel {
    pub path: Option<Seq<char>>,
    pub page_title: Option<Seq<char>>,
    pub is_permanent: Option<bool>,
}

impl View for ShortLinkArgsBuilder {
    type V = ShortLinkArgsBuilderModel;

    closed spec fn view(&self) -> ShortLinkArgsBuilderModel {
        ShortLinkArgsBuilderModel {
            path: optional_chars(self.path),
            page_title: optional_chars(self.page_title),
            is_permanent: self.is_permanent,
        }
    }
}

/// The request that asks for the short link of `args`, authorised by
/// `access_token`, to the address `url`. The body holds the page under
/// `page_url`, the title where there is one, and whether the link is
/// permanent.
pub open spec fn short_link_request(
    url: Seq<char>,
    args: ShortLinkArgsModel,
    access_token: Seq<char>,
) -> RequestModel {
    RequestModel {
        url,
        query: token_query(access_token),
        method: Method::Post,
        headers: agent_headers(),
        body: Some(
            seq![("page_url"@, MemberModel::Text(args.path))] + (match args.page_title {
                Some(title) => seq![("page_title"@, MemberModel::Text(title))],
                None => Seq::empty(),
            }) + seq![("is_permanent"@, MemberModel::Flag(args.is_permanent))],
        ),
    }
}

impl ShortLinkArgs {
    /// A builder in which nothing is set.
    pub fn builder() -> (builder: ShortLinkArgsBuilder)
        ensures
            builder@ == ShortLinkArgsBuilder::blank(),
    {
        ShortLinkArgsBuilder::new()
    }

    /// The page.
    pub fn path(&self) -> (path: String)
        ensures
            path@ == self@.path,
    {
        self.path.clone()
    }

    /// The title of the page.
    pub fn page_title(&self) -> (title: Option<String>)
        ensures
            optional_chars(title) == self@.page_title,
    {
        match &self.page_title {
            Some(title) => Some(title.clone()),
            None => None,
        }
    }

    /// Whether the link never expires.
    pub fn is_permanent(&self) -> (permanent: bool)
        ensures
            permanent == self@.is_permanent,
    {
        self.is_permanent
    }

    /// The request that asks for the link, authorised by `access_token`. It
    /// goes to the normal form of the link endpoint's address, and fails only
    /// if that address were no URL.
    pub fn request(&self, access_token: &str) -> (r: Result<HttpRequest, Error>)
        ensures
            r.is_ok() == spec_parse_url(SHORT_LINK_END_POINT@).is_some(),
            r matches Ok(request) ==> request@ == short_link_request(
                spec_parse_url(SHORT_LINK_END_POINT@).unwrap(),
                self@,
                access_token@,
            ),
            r matches Err(e) ==> e@ == (
                ErrorKind::InvalidParameter,
                crate::utils::invalid_url_message(),
            ),
    {
        let mut body: Vec<(String, JsonMember)> = Vec::new();
        push_text(&mut body, "page_url", self.path.as_str());
        push_optional_text(&mut body, "page_title", &self.page_title);
        push_flag(&mut body, "is_permanent", self.is_permanent);
        assert(members_view(body) =~= short_link_request(
            SHORT_LINK_END_POINT@,
            self@,
            access_token@,
        ).body.unwrap());
        let r = build_request(
            SHORT_LINK_END_POINT,
            Method::Post,
            None,
            Some(access_token_query(access_token)),
            Some(body),
        );
        assert(agent_headers() + Seq::<(Seq<char>, Seq<char>)>::empty() =~= agent_headers());
        r
    }
}

impl ShortLinkArgsBuilder {
    /// The model of a builder in which nothing is set.
    pub open spec fn blank() -> ShortLinkArgsBuilderModel {
        ShortLinkArgsBuilderModel { path: None, page_title: None, is_permanent: None }
    }

    /// A builder in which nothing is set.
    pub fn new() -> (builder: ShortLinkArgsBuilder)
        ensures
            builder@ == Self::blank(),
    {
        ShortLinkArgsBuilder { path: None, page_title: None, is_permanent: None }
    }

    /// Sets the page.
    pub fn path(self, path: &str) -> (builder: ShortLinkArgsBuilder)
        ensures
            builder@ == (ShortLinkArgsBuilderModel { path: Some(path@), ..self@ }),
    {
        let mut builder = self;
        builder.path = Some(path.to_string());
        builder
    }

    /// Sets the title of the page.
    pub fn page_title(self, title: &str) -> (builder: ShortLinkArgsBuilder)
        ensures
            builder@ == (ShortLinkArgsBuilderModel { page_title: Some(title@), ..self@ }),
    {
        let mut builder = self;
        builder.page_title = Some(title.to_string());
        builder
    }

    /// Asks for a link that never expires.
    pub fn with_permanent(self) -> (builder: ShortLinkArgsBuilder)
        ensures
            builder@ == (ShortLinkArgsBuilderModel { is_permanent: Some(true), ..self@ }),
    {
        let mut builder = self;
        builder.is_permanent = Some(true);
        builder
    }

    /// Validates what was collected and yields the arguments. The path must
    /// be set and at most 1024 bytes long; a link is permanent only where
    /// that was asked for.
    pub fn build(self) -> (r: Result<ShortLinkArgs, Error>)
        ensures
            r.is_ok() == path_fault(self@.path).is_none(),
            r matches Err(e) ==> e@ == (
                ErrorKind::InvalidParameter,
                path_fault(self@.path).unwrap(),
            ),
            r matches Ok(args) ==> args@ == (ShortLinkArgsModel {
                path: self@.path.unwrap(),
                page_title: self@.page_title,
                is_permanent: match self@.is_permanent {
                    Some(permanent) => permanent,
                    None => false,
                },
            }),
    {
        let path = match checked_path(self.path) {
            Ok(path) => path,
            Err(e) => {
                return Err(e);
            },
        };
        let is_permanent = match self.is_permanent {
            Some(permanent) => permanent,
            None => false,
        };
        Ok(ShortLinkArgs { path, page_title: self.page_title, is_permanent })
    }
}

impl<C: HttpClient> WechatMinappSDK<C> {
    /// Asks the remote for the short link of `args`: obtains the access
    /// token, sends the request and decodes a successful answer. The
    /// refresher role is free again afterwards, whatever happened.
    pub fn short_link(&mut self, args: ShortLinkArgs) -> (r: Result<ShortLink, Error>)
        requires
            old(self).wf(),
        ensures
            final(self).wf(),
            asked_for_token(old(self)@, final(self)@, r),
    {
        let ghost before = self@;
        let fetched = self.token();
        proof {
            let now = choose|now: Timestamp| served(before, self@, now@, outcome_view(fetched));
            assert(served(before, self@, now@, outcome_view(fetched)));
        }
        let token = match fetched {
            Ok(token) => token,
            Err(e) => {
                return Err(e);
            },
        };
        let request = match args.request(token.as_str()) {
            Ok(request) => request,
            Err(e) => {
                return Err(e);
            },
        };
        ShortLink::from_exchange(ShortLink::read(self.exchange(request)))
    }
}

} // verus!
