//! The route table of a mount: the paths it answers, relative to the mount,
//! in order of precedence, each with the kind of handler that answers it.

use vstd::prelude::*;
use vstd::string::*;

use crate::paths::{config_suffix, ends_with, has_suffix, CONFIG_FILE_PATH};

verus! {

/// Which handler answers a route.
#[derive(Clone, Copy, Debug, PartialEq, Eq, Structural)]
pub enum RouteKind {
    /// The viewer configuration document.
    Config,
    /// The specification document.
    Spec,
    /// The mount root, redirected to the entry page.
    Index,
    /// One of the viewer's bundled assets.
    Asset,
}

/// One exact path, relative to the mount, and the handler that answers it.
pub struct Route {
    pub path: String,
    pub kind: RouteKind,
}

pub open spec fn names_view(names: Seq<String>) -> Seq<Seq<char>> {
    names.map_values(|a: String| a@)
}

pub open spec fn routes_view(routes: Seq<Route>) -> Seq<(Seq<char>, RouteKind)> {
    routes.map_values(|r: Route| (r.path@, r.kind))
}

pub open spec fn asset_routes(assets: Seq<Seq<char>>) -> Seq<(Seq<char>, RouteKind)> {
    assets.map_values(|a: Seq<char>| (seq!['/'] + a, RouteKind::Asset))
}

/// The routes of a mount, first the configuration document, then the
/// specification, then the mount root, then one per asset.
pub open spec fn route_model(spec_name: Seq<char>, assets: Seq<Seq<char>>) -> Seq<
    (Seq<char>, RouteKind),
> {
    seq![
        (config_suffix(), RouteKind::Config),
        (seq!['/'] + spec_name, RouteKind::Spec),
        (Seq::<char>::empty(), RouteKind::Index),
    ] + asset_routes(assets)
}

/// The handler of the first route whose path is `path`: the first one
/// registered wins.
pub open spec fn first_match(table: Seq<(Seq<char>, RouteKind)>, path: Seq<char>) -> Option<
    RouteKind,
>
    decreases table.len(),
{
    if table.len() == 0 {
        None
    } else if table[0].0 == path {
        Some(table[0].1)
    } else {
        first_match(table.drop_first(), path)
    }
}

fn same_text(a: &str, b: &str) -> (r: bool)
    ensures
        r == (a@ == b@),
{
    if a.unicode_len() != b.unicode_len() {
        return false;
    }
    let r = ends_with(a, b);
    proof {
        assert(a@.subrange(0, a@.len() as int) =~= a@);
    }
    r
}

fn slash_then(name: &str) -> (r: String)
    ensures
        r@ == seq!['/'] + name@,
{
    let mut r = String::from_str("/");
    proof {
        reveal_strlit("/");
    }
    r.append(name);
    r
}

/// The route table of a mount of the specification `spec_name`, with one
/// route for each of `assets`.
pub fn route_table(spec_name: &str, assets: &Vec<String>) -> (r: Vec<Route>)
    ensures
        routes_view(r@) == route_model(spec_name@, names_view(assets@)),
{
    let mut r: Vec<Route> = Vec::new();
    r.push(Route { path: String::from_str(CONFIG_FILE_PATH), kind: RouteKind::Config });
    r.push(Route { path: slash_then(spec_name), kind: RouteKind::Spec });
    r.push(Route { path: String::new(), kind: RouteKind::Index });
    let ghost head = seq![
        (config_suffix(), RouteKind::Config),
        (seq!['/'] + spec_name@, RouteKind::Spec),
        (Seq::<char>::empty(), RouteKind::Index),
    ];
    assert(routes_view(r@) =~= head);
    let mut i: usize = 0;
    while i < assets.len()
        invariant
            i <= assets@.len(),
            routes_view(r@) == head + asset_routes(names_view(assets@.subrange(0, i as int))),
        decreases assets@.len() - i,
    {
        let ghost before = r@;
        let route = Route { path: slash_then(assets[i].as_str()), kind: RouteKind::Asset };
        r.push(route);
        proof {
            let done = assets@.subrange(0, i as int);
            let more = assets@.subrange(0, i + 1);
            assert(r@ =~= before.push(route));
            assert(routes_view(r@) =~= routes_view(before).push((route.path@, route.kind)));
            assert(more =~= done.push(assets@[i as int]));
            assert(asset_routes(names_view(more)) =~= asset_routes(names_view(done)).push(
                (seq!['/'] + assets@[i as int]@, RouteKind::Asset),
            ));
        }
        i = i + 1;
    }
    assert(assets@.subrange(0, assets@.len() as int) =~= assets@);
    r
}

proof fn lemma_first_match_from(table: Seq<(Seq<char>, RouteKind)>, path: Seq<char>, i: int)
    requires
        0 <= i < table.len(),
    ensures
        first_match(table.subrange(i, table.len() as int), path) == if table[i].0 == path {
            Some(table[i].1)
        } else {
            first_match(table.subrange(i + 1, table.len() as int), path)
        },
{
    assert(table.subrange(i, table.len() as int).drop_first() =~= table.subrange(
        i + 1,
        table.len() as int,
    ));
}

/// The handler that answers `path` (relative to the mount) in `routes`.
pub fn resolve(routes: &Vec<Route>, path: &str) -> (r: Option<RouteKind>)
    ensures
        r == first_match(routes_view(routes@), path@),
{
    let ghost table = routes_view(routes@);
    let mut i: usize = 0;
    assert(table.subrange(0, table.len() as int) =~= table);
    while i < routes.len()
        invariant
            table == routes_view(routes@),
            i <= routes@.len(),
            first_match(table, path@) == first_match(
                table.subrange(i as int, table.len() as int),
                path@,
            ),
        decreases routes@.len() - i,
    {
        proof {
            lemma_first_match_from(table, path@, i as int);
        }
        if same_text(routes[i].path.as_str(), path) {
            return Some(routes[i].kind);
        }
        i = i + 1;
    }
    None
}

proof fn lemma_asset_match(assets: Seq<Seq<char>>, i: int)
    requires
        0 <= i < assets.len(),
    ensures
        first_match(asset_routes(assets), seq!['/'] + assets[i]) == Some(RouteKind::Asset),
    decreases assets.len(),
{
    let table = asset_routes(assets);
    if table[0].0 != seq!['/'] + assets[i] {
        assert(i != 0);
        assert(table.drop_first() =~= asset_routes(assets.drop_first()));
        lemma_asset_match(assets.drop_first(), i - 1);
    }
}

/// The configuration document's route comes first, so no specification name
/// and no asset can shadow it.
pub proof fn lemma_config_route_wins(spec_name: Seq<char>, assets: Seq<Seq<char>>)
    ensures
        first_match(route_model(spec_name, assets), config_suffix()) == Some(RouteKind::Config),
{
}

/// The specification's route is answered by the specification handler,
/// whatever asset has the same name, unless the name is the configuration
/// document's.
pub proof fn lemma_spec_route_wins(spec_name: Seq<char>, assets: Seq<Seq<char>>)
    requires
        seq!['/'] + spec_name != config_suffix(),
    ensures
        first_match(route_model(spec_name, assets), seq!['/'] + spec_name) == Some(
            RouteKind::Spec,
        ),
{
    let table = route_model(spec_name, assets);
    let path = seq!['/'] + spec_name;
    assert(table[0].0 == config_suffix());
    assert(first_match(table, path) == first_match(table.drop_first(), path));
    assert(table.drop_first()[0] == (path, RouteKind::Spec));
}

/// Every asset has a route to the asset handler, unless its path is taken by
/// the configuration document or the specification.
pub proof fn lemma_asset_routed(spec_name: Seq<char>, assets: Seq<Seq<char>>, i: int)
    requires
        0 <= i < assets.len(),
        seq!['/'] + assets[i] != config_suffix(),
        assets[i] != spec_name,
    ensures
        first_match(route_model(spec_name, assets), seq!['/'] + assets[i]) == Some(
            RouteKind::Asset,
        ),
{
    let table = route_model(spec_name, assets);
    let path = seq!['/'] + assets[i];
    assert(path.len() > 0);
    assert(path != seq!['/'] + spec_name) by {
        if path == seq!['/'] + spec_name {
            assert(assets[i] =~= path.drop_first());
            assert(spec_name =~= (seq!['/'] + spec_name).drop_first());
        }
    }
    let t1 = table.drop_first();
    let t2 = t1.drop_first();
    let t3 = t2.drop_first();
    assert(table[0].0 == config_suffix());
    assert(first_match(table, path) == first_match(t1, path));
    assert(t1[0].0 == seq!['/'] + spec_name);
    assert(first_match(t1, path) == first_match(t2, path));
    assert(t2[0].0 == Seq::<char>::empty());
    assert(first_match(t2, path) == first_match(t3, path));
    assert(t3 =~= asset_routes(assets));
    lemma_asset_match(assets, i);
}

} // verus!
