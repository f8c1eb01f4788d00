//! A mount and its four handlers. Each handler is a function of the request
//! path and of the mount's state, fixed when the mount is built; what the
//! bundle or the JSON writer hands back is taken as it comes.

use vstd::prelude::*;
use vstd::string::*;
use vstd::utf8::encode_utf8;

use crate::bundle::{asset_content, asset_paths, config_json, contains_text, json_plain, url_member};
use crate::content_type::{guess_content_type, mime_of};
use crate::paths::{
    config_suffix, file_name, file_name_of, index_location, index_location_of,
    lemma_file_name_after_prefix, spec_url, spec_url_of,
};
use crate::routes::{
    first_match, lemma_asset_routed, lemma_spec_route_wins, names_view, resolve, route_model,
    route_table, routes_view, Route, RouteKind,
};

verus! {

pub const STATUS_OK: u16 = 200;

pub const STATUS_FOUND: u16 = 302;

pub const STATUS_NOT_FOUND: u16 = 404;

/// Media type of the configuration document.
pub const JSON_CONTENT_TYPE: &'static str = "application/json";

/// A response, as plain values: its status, its `Location` and
/// `Content-Type` headers where it has them, and its body.
pub struct Reply {
    pub status: u16,
    pub location: Option<String>,
    pub content_type: Option<String>,
    pub body: Vec<u8>,
}

pub struct ReplyView {
    pub status: u16,
    pub location: Option<Seq<char>>,
    pub content_type: Option<Seq<char>>,
    pub body: Seq<u8>,
}

pub open spec fn text_view(o: Option<String>) -> Option<Seq<char>> {
    match o {
        Some(s) => Some(s@),
        None => None,
    }
}

pub open spec fn bytes_view(o: Option<Vec<u8>>) -> Option<Seq<u8>> {
    match o {
        Some(v) => Some(v@),
        None => None,
    }
}

impl View for Reply {
    type V = ReplyView;

    open spec fn view(&self) -> ReplyView {
        ReplyView {
            status: self.status,
            location: text_view(self.location),
            content_type: text_view(self.content_type),
            body: self.body@,
        }
    }
}

/// The redirect from the mount root to the entry page.
pub open spec fn index_reply_of(path: Seq<char>) -> ReplyView {
    ReplyView {
        status: STATUS_FOUND,
        location: Some(index_location_of(path)),
        content_type: None,
        body: Seq::empty(),
    }
}

/// The specification document, as it was given.
pub open spec fn spec_reply_of(name: Seq<char>, content: Seq<u8>) -> ReplyView {
    ReplyView { status: STATUS_OK, location: None, content_type: Some(mime_of(name)), body: content }
}

/// A bundled file, or an empty 404 where the bundle has none of that name.
pub open spec fn asset_reply_of(name: Seq<char>, found: Option<Seq<u8>>) -> ReplyView {
    match found {
        Some(content) => ReplyView {
            status: STATUS_OK,
            location: None,
            content_type: Some(mime_of(name)),
            body: content,
        },
        None => ReplyView {
            status: STATUS_NOT_FOUND,
            location: None,
            content_type: None,
            body: Seq::empty(),
        },
    }
}

/// The configuration document, from its JSON text.
pub open spec fn config_reply_of(json: Seq<char>) -> ReplyView {
    ReplyView {
        status: STATUS_OK,
        location: None,
        content_type: Some(JSON_CONTENT_TYPE@),
        body: encode_utf8(json),
    }
}

/// Why the configuration document could not be made.
#[derive(Clone, Copy, Debug, PartialEq, Eq, Structural)]
pub enum ConfigError {
    /// The configuration could not be written as JSON.
    Unserializable,
}

/// The specification document of a mount: the name it is served under and
/// its content.
pub struct MountedSpec {
    pub name: String,
    pub content: Vec<u8>,
}

impl MountedSpec {
    pub fn new(name: String, content: Vec<u8>) -> (r: MountedSpec)
        ensures
            r.name == name,
            r.content == content,
    {
        MountedSpec { name, content }
    }
}

/// What a mount shares with its handlers, fixed when it is built: the
/// specification, the viewer configuration and the route table.
pub struct Mount {
    pub spec: MountedSpec,
    pub config: swagger_ui::Config,
    pub routes: Vec<Route>,
}

impl Mount {
    /// A mount with one asset route for each of `assets`.
    pub fn with_assets(spec: MountedSpec, config: swagger_ui::Config, assets: &Vec<String>) -> (r:
        Mount)
        ensures
            r.spec == spec,
            r.config == config,
            routes_view(r.routes@) == route_model(spec.name@, names_view(assets@)),
    {
        let routes = route_table(spec.name.as_str(), assets);
        Mount { spec, config, routes }
    }

    /// A mount with one asset route for each file of the viewer bundle.
    pub fn new(spec: MountedSpec, config: swagger_ui::Config) -> (r: Mount)
        ensures
            r.spec == spec,
            r.config == config,
            exists|assets: Seq<Seq<char>>|
                routes_view(r.routes@) == #[trigger] route_model(spec.name@, assets),
    {
        let assets = asset_paths();
        Mount::with_assets(spec, config, &assets)
    }

    /// The handler of the first route of this mount whose path is `path`,
    /// relative to the mount.
    pub fn route_for(&self, path: &str) -> (r: Option<RouteKind>)
        ensures
            r == first_match(routes_view(self.routes@), path@),
    {
        resolve(&self.routes, path)
    }

    /// The specification document, byte for byte as the mount was given it.
    pub fn spec_reply(&self) -> (r: Reply)
        ensures
            r@ == spec_reply_of(self.spec.name@, self.spec.content@),
    {
        let content_type = guess_content_type(self.spec.name.as_str());
        let body = self.spec.content.clone();
        assert(body@ =~= self.spec.content@);
        Reply { status: STATUS_OK, location: None, content_type: Some(content_type), body }
    }

    /// The configuration document for a request whose path is `path`: the
    /// mount's configuration, told that the specification lies beside it.
    pub fn config_reply(&self, path: &str) -> (r: Result<Reply, ConfigError>)
        ensures
            r is Ok,
            r is Ok ==> exists|json: Seq<char>|
                {
                    &&& r->Ok_0@ == #[trigger] config_reply_of(json)
                    &&& json_plain(spec_url_of(path@, self.spec.name@)) ==> contains_text(
                        json,
                        url_member(spec_url_of(path@, self.spec.name@)),
                    )
                },
    {
        let url = spec_url(path, self.spec.name.as_str());
        proof {
            assert(url@.len() > 0);
        }
        let json = config_json(&self.config, url);
        config_reply_from(json)
    }

    /// The reply of the handler `kind` to a request whose path is `path`.
    pub fn respond(&self, kind: RouteKind, path: &str) -> (r: Result<Reply, ConfigError>)
        ensures
            kind == RouteKind::Index ==> r is Ok && r->Ok_0@ == index_reply_of(path@),
            kind == RouteKind::Spec ==> r is Ok && r->Ok_0@ == spec_reply_of(
                self.spec.name@,
                self.spec.content@,
            ),
            kind == RouteKind::Asset ==> r is Ok && exists|found: Option<Seq<u8>>|
                r->Ok_0@ == #[trigger] asset_reply_of(file_name_of(path@), found),
            kind == RouteKind::Config ==> r is Ok && exists|json: Seq<char>|
                {
                    &&& r->Ok_0@ == #[trigger] config_reply_of(json)
                    &&& json_plain(spec_url_of(path@, self.spec.name@)) ==> contains_text(
                        json,
                        url_member(spec_url_of(path@, self.spec.name@)),
                    )
                },
    {
        match kind {
            RouteKind::Config => self.config_reply(path),
            RouteKind::Spec => Ok(self.spec_reply()),
            RouteKind::Index => Ok(index_reply(path)),
            RouteKind::Asset => Ok(asset_reply(path)),
        }
    }
}

/// The redirect sent for a request to the mount root whose path is `path`.
pub fn index_reply(path: &str) -> (r: Reply)
    ensures
        r@ == index_reply_of(path@),
{
    let location = index_location(path);
    let r = Reply {
        status: STATUS_FOUND,
        location: Some(location),
        content_type: None,
        body: Vec::new(),
    };
    assert(r@.body =~= Seq::<u8>::empty());
    r
}

/// The reply to a request that no route of the mount matches: an empty 404,
/// as for a bundled file that is not there.
pub fn unrouted_reply(path: &str) -> (r: Reply)
    ensures
        r@ == asset_reply_of(file_name_of(path@), None),
{
    let r = Reply {
        status: STATUS_NOT_FOUND,
        location: None,
        content_type: None,
        body: Vec::new(),
    };
    assert(r@.body =~= Seq::<u8>::empty());
    r
}

/// The reply for the bundled file `name`, from what the bundle holds under
/// that name.
pub fn asset_reply_from(name: &str, found: Option<Vec<u8>>) -> (r: Reply)
    ensures
        r@ == asset_reply_of(name@, bytes_view(found)),
{
    match found {
        Some(content) => Reply {
            status: STATUS_OK,
            location: None,
            content_type: Some(guess_content_type(name)),
            body: content,
        },
        None => {
            let r = Reply {
                status: STATUS_NOT_FOUND,
                location: None,
                content_type: None,
                body: Vec::new(),
            };
            assert(r@.body =~= Seq::<u8>::empty());
            r
        },
    }
}

/// The reply for a request for a bundled file: the last segment of `path`
/// is looked up in the viewer bundle.
pub fn asset_reply(path: &str) -> (r: Reply)
    ensures
        exists|found: Option<Seq<u8>>| r@ == #[trigger] asset_reply_of(file_name_of(path@), found),
{
    let name = file_name(path);
    let found = asset_content(name.as_str());
    let ghost seen = bytes_view(found);
    let r = asset_reply_from(name.as_str(), found);
    assert(r@ == asset_reply_of(file_name_of(path@), seen));
    r
}

/// The configuration document from its JSON text, or the error where the
/// configuration could not be written.
pub fn config_reply_from(json: Result<String, serde_json::Error>) -> (r: Result<
    Reply,
    ConfigError,
>)
    ensures
        match json {
            Ok(text) => r is Ok && r->Ok_0@ == config_reply_of(text@),
            Err(_) => r == Err::<Reply, ConfigError>(ConfigError::Unserializable),
        },
{
    match json {
        Ok(text) => {
            let body = text.as_str().as_bytes_vec();
            Ok(
                Reply {
                    status: STATUS_OK,
                    location: None,
                    content_type: Some(String::from_str(JSON_CONTENT_TYPE)),
                    body,
                },
            )
        },
        Err(_) => Err(ConfigError::Unserializable),
    }
}

/// A request for the specification under any prefix reaches the
/// specification handler, which answers with exactly the bytes the mount was
/// given, unless the specification is named like the configuration document.
pub proof fn lemma_spec_served_verbatim(
    spec_name: Seq<char>,
    content: Seq<u8>,
    assets: Seq<Seq<char>>,
)
    requires
        seq!['/'] + spec_name != config_suffix(),
    ensures
        first_match(route_model(spec_name, assets), seq!['/'] + spec_name) == Some(
            RouteKind::Spec,
        ),
        spec_reply_of(spec_name, content).status == STATUS_OK,
        spec_reply_of(spec_name, content).body == content,
{
    lemma_spec_route_wins(spec_name, assets);
}

/// A request under any prefix `p` for a listed asset (named without `/`, and
/// not like the configuration document or the specification) reaches the
/// asset handler, which looks that same name up and answers 200 with what is
/// stored under it; a name with nothing stored gets an empty 404.
pub proof fn lemma_asset_served(
    spec_name: Seq<char>,
    assets: Seq<Seq<char>>,
    i: int,
    p: Seq<char>,
    content: Seq<u8>,
)
    requires
        0 <= i < assets.len(),
        forall|j: int| 0 <= j < assets[i].len() ==> assets[i][j] != '/',
        seq!['/'] + assets[i] != config_suffix(),
        assets[i] != spec_name,
    ensures
        first_match(route_model(spec_name, assets), seq!['/'] + assets[i]) == Some(
            RouteKind::Asset,
        ),
        file_name_of(p + seq!['/'] + assets[i]) == assets[i],
        asset_reply_of(assets[i], Some(content)) == (ReplyView {
            status: STATUS_OK,
            location: None,
            content_type: Some(mime_of(assets[i])),
            body: content,
        }),
        asset_reply_of(assets[i], None).status == STATUS_NOT_FOUND,
        asset_reply_of(assets[i], None).body.len() == 0,
{
    lemma_asset_routed(spec_name, assets, i);
    lemma_file_name_after_prefix(p, assets[i]);
}

/// Two requests with the same path to an unchanged mount get the same reply,
/// for each kind of route: for an asset, where the bundle holds the same
/// content, and for the configuration document, where the configuration is
/// written as the same JSON.
pub proof fn lemma_same_request_same_reply(
    a: Reply,
    b: Reply,
    kind: RouteKind,
    spec: MountedSpec,
    path: Seq<char>,
    found: Option<Seq<u8>>,
    json: Seq<char>,
)
    requires
        kind == RouteKind::Index ==> a@ == index_reply_of(path) && b@ == index_reply_of(path),
        kind == RouteKind::Spec ==> a@ == spec_reply_of(spec.name@, spec.content@) && b@
            == spec_reply_of(spec.name@, spec.content@),
        kind == RouteKind::Asset ==> a@ == asset_reply_of(file_name_of(path), found) && b@
            == asset_reply_of(file_name_of(path), found),
        kind == RouteKind::Config ==> a@ == config_reply_of(json) && b@ == config_reply_of(json),
    ensures
        a@ == b@,
{
}

} // verus!
