//! The reverse proxy (Caddy): the Caddyfile the platform generates, how a
//! route is found in the proxy's route list, the fallback address of its
//! admin API, and the container it runs in.
use vstd::prelude::*;
use crate::error::AppError;
use crate::json::{json_string, listing_views, read_route_listing, route_listing, views, write_json_string};
use crate::text::{chars_of, has_prefix, has_substring, matches_at, push_str, str_eq, string_of};

verus! {

/// A route of a deployed app: requests for `domain` go to `upstream`.
#[derive(Debug)]
pub struct CaddyRoute {
    pub domain: String,
    pub upstream: String,
}

/// The head of a generated Caddyfile: a comment and the admin address.
pub open spec fn caddyfile_head() -> Seq<char> {
    "# Labuh Platform - Auto-generated Caddyfile\n{\n    admin 0.0.0.0:2019\n}\n\n"@
}

/// The platform's own site on port 80: the API and the frontend.
pub open spec fn main_site(api: Seq<char>, frontend: Seq<char>) -> Seq<char> {
    ":80 {\n    handle /api/* {\n        reverse_proxy "@ + api
        + "\n    }\n\n    handle {\n        reverse_proxy "@ + frontend + "\n    }\n}\n\n"@
}

/// The site block of one route.
pub open spec fn route_block(domain: Seq<char>, upstream: Seq<char>) -> Seq<char> {
    domain + " {\n    reverse_proxy "@ + upstream + "\n}\n\n"@
}

/// The site blocks of `routes`, in order.
pub open spec fn route_blocks(routes: Seq<CaddyRoute>) -> Seq<char>
    decreases routes.len(),
{
    if routes.len() == 0 {
        Seq::empty()
    } else {
        route_blocks(routes.drop_last()) + route_block(
            routes.last().domain@,
            routes.last().upstream@,
        )
    }
}

/// A generated Caddyfile.
pub open spec fn caddyfile(routes: Seq<CaddyRoute>, api: Seq<char>, frontend: Seq<char>) -> Seq<
    char,
> {
    caddyfile_head() + main_site(api, frontend) + route_blocks(routes)
}

/// The Caddyfile for `routes`, with the platform's API and frontend behind
/// port 80.
pub fn generate_caddyfile(routes: &Vec<CaddyRoute>, api_upstream: &str, frontend_upstream: &str) -> (r:
    String)
    ensures
        r@ == caddyfile(routes@, api_upstream@, frontend_upstream@),
{
    let mut content = chars_of(
        "# Labuh Platform - Auto-generated Caddyfile\n{\n    admin 0.0.0.0:2019\n}\n\n",
    );
    push_str(&mut content, ":80 {\n    handle /api/* {\n        reverse_proxy ");
    push_str(&mut content, api_upstream);
    push_str(&mut content, "\n    }\n\n    handle {\n        reverse_proxy ");
    push_str(&mut content, frontend_upstream);
    push_str(&mut content, "\n    }\n}\n\n");
    let ghost start = content@;
    proof {
        assert(start =~= caddyfile_head() + main_site(api_upstream@, frontend_upstream@));
        assert(routes@.subrange(0, 0) =~= Seq::<CaddyRoute>::empty());
        assert(start + route_blocks(routes@.subrange(0, 0)) =~= start);
    }
    let mut i: usize = 0;
    while i < routes.len()
        invariant
            i <= routes.len(),
            content@ == start + route_blocks(routes@.subrange(0, i as int)),
            start == caddyfile_head() + main_site(api_upstream@, frontend_upstream@),
        decreases routes.len() - i,
    {
        let ghost before = content@;
        push_str(&mut content, routes[i].domain.as_str());
        push_str(&mut content, " {\n    reverse_proxy ");
        push_str(&mut content, routes[i].upstream.as_str());
        push_str(&mut content, "\n}\n\n");
        proof {
            let sub = routes@.subrange(0, i + 1);
            assert(sub.drop_last() =~= routes@.subrange(0, i as int));
            assert(sub.last() == routes@[i as int]);
            assert(content@ =~= before + route_block(
                routes@[i as int].domain@,
                routes@[i as int].upstream@,
            ));
        }
        i = i + 1;
    }
    proof {
        assert(routes@.subrange(0, routes.len() as int) =~= routes@);
    }
    string_of(&content)
}

/// Some host of `hosts` is `domain`.
pub open spec fn hosts_name(hosts: Seq<Seq<char>>, domain: Seq<char>) -> bool {
    exists|j: int| 0 <= j < hosts.len() && #[trigger] hosts[j] == domain
}

/// The host lists of routes, as plain text.
pub open spec fn route_views(routes: Seq<Vec<String>>) -> Seq<Seq<Seq<char>>> {
    routes.map_values(|r: Vec<String>| views(r@))
}

/// The index of the first route whose host list names `domain`, if any. A
/// route is given by the hosts of its first matcher.
pub open spec fn first_route_for(routes: Seq<Seq<Seq<char>>>, domain: Seq<char>) -> Option<int>
    decreases routes.len(),
{
    if routes.len() == 0 {
        None
    } else if hosts_name(routes.last(), domain) && first_route_for(routes.drop_last(), domain)
        is None {
        Some(routes.len() - 1)
    } else {
        first_route_for(routes.drop_last(), domain)
    }
}

/// The routes of `routes` that do not name `domain`, in order.
pub open spec fn routes_of_others(routes: Seq<Seq<Seq<char>>>, domain: Seq<char>) -> Seq<Seq<Seq<char>>>
    decreases routes.len(),
{
    if routes.len() == 0 {
        Seq::empty()
    } else if hosts_name(routes.last(), domain) {
        routes_of_others(routes.drop_last(), domain)
    } else {
        routes_of_others(routes.drop_last(), domain).push(routes.last())
    }
}

/// The first route naming `domain`, when there is one, names it; when there
/// is none, no route names it.
pub proof fn lemma_first_route_for(routes: Seq<Seq<Seq<char>>>, domain: Seq<char>)
    ensures
        first_route_for(routes, domain) matches Some(i) ==> 0 <= i < routes.len() && hosts_name(
            routes[i],
            domain,
        ),
        first_route_for(routes, domain) is None ==> forall|k: int|
            0 <= k < routes.len() ==> !hosts_name(#[trigger] routes[k], domain),
    decreases routes.len(),
{
    if routes.len() > 0 {
        let init = routes.drop_last();
        lemma_first_route_for(init, domain);
        assert forall|k: int| 0 <= k < init.len() implies #[trigger] init[k] == routes[k] by {}
        if first_route_for(routes, domain) is None {
            assert forall|k: int| 0 <= k < routes.len() implies !hosts_name(#[trigger] routes[k], domain) by {
                if k < init.len() {
                    assert(init[k] == routes[k]);
                }
            }
        }
    }
}

/// Deleting a route that names `domain` leaves the routes of other domains
/// as they were, in order.
pub proof fn lemma_remove_domain_route(routes: Seq<Seq<Seq<char>>>, domain: Seq<char>, i: int)
    requires
        0 <= i < routes.len(),
        hosts_name(routes[i], domain),
    ensures
        routes_of_others(routes.remove(i), domain) == routes_of_others(routes, domain),
    decreases routes.len(),
{
    let r = routes.remove(i);
    if i == routes.len() - 1 {
        assert(r =~= routes.drop_last());
    } else {
        let init = routes.drop_last();
        assert(init[i] == routes[i]);
        lemma_remove_domain_route(init, domain, i);
        assert(r.drop_last() =~= init.remove(i));
        assert(r.last() == routes.last());
    }
}

/// When no route names `domain`, every route is one of another domain.
pub proof fn lemma_no_domain_route(routes: Seq<Seq<Seq<char>>>, domain: Seq<char>)
    requires
        forall|k: int| 0 <= k < routes.len() ==> !hosts_name(#[trigger] routes[k], domain),
    ensures
        routes_of_others(routes, domain) == routes,
    decreases routes.len(),
{
    if routes.len() > 0 {
        let init = routes.drop_last();
        assert forall|k: int| 0 <= k < init.len() implies !hosts_name(#[trigger] init[k], domain) by {
            assert(init[k] == routes[k]);
        }
        lemma_no_domain_route(init, domain);
        assert(!hosts_name(routes[routes.len() - 1], domain));
        assert(init.push(routes.last()) =~= routes);
    }
}

proof fn lemma_first_route_prefix(routes: Seq<Seq<Seq<char>>>, domain: Seq<char>, i: int)
    requires
        0 <= i < routes.len(),
        forall|k: int| 0 <= k < i ==> !hosts_name(#[trigger] routes[k], domain),
        hosts_name(routes[i], domain),
    ensures
        first_route_for(routes.subrange(0, i + 1), domain) == Some(i),
    decreases i,
{
    let sub = routes.subrange(0, i + 1);
    assert(sub.drop_last() =~= routes.subrange(0, i));
    lemma_no_route_in_prefix(routes, domain, i);
}

proof fn lemma_no_route_in_prefix(routes: Seq<Seq<Seq<char>>>, domain: Seq<char>, i: int)
    requires
        0 <= i <= routes.len(),
        forall|k: int| 0 <= k < i ==> !hosts_name(#[trigger] routes[k], domain),
    ensures
        first_route_for(routes.subrange(0, i), domain) is None,
    decreases i,
{
    if i > 0 {
        let sub = routes.subrange(0, i);
        assert(sub.drop_last() =~= routes.subrange(0, i - 1));
        assert(sub.last() == routes[i - 1]);
        lemma_no_route_in_prefix(routes, domain, i - 1);
    }
}

/// Whether some host of `hosts` is `domain`.
fn hosts_contain(hosts: &Vec<String>, domain: &str) -> (r: bool)
    ensures
        r == hosts_name(views(hosts@), domain@),
{
    let ghost hv = views(hosts@);
    let mut j: usize = 0;
    while j < hosts.len()
        invariant
            j <= hosts.len(),
            hv == views(hosts@),
            forall|k: int| 0 <= k < j ==> (#[trigger] hosts@[k])@ != domain@,
        decreases hosts.len() - j,
    {
        if str_eq(hosts[j].as_str(), domain) {
            proof {
                assert(hv[j as int] == domain@);
            }
            return true;
        }
        j = j + 1;
    }
    proof {
        assert forall|k: int| 0 <= k < hv.len() implies #[trigger] hv[k] != domain@ by {
            assert(hv[k] == hosts@[k]@);
        }
    }
    false
}

/// The index of the first route whose hosts name `domain`, if any.
pub fn find_route(routes: &Vec<Vec<String>>, domain: &str) -> (r: Option<usize>)
    ensures
        match r {
            Some(i) => first_route_for(route_views(routes@), domain@) == Some(i as int),
            None => first_route_for(route_views(routes@), domain@) is None,
        },
{
    let ghost rv = route_views(routes@);
    let mut i: usize = 0;
    while i < routes.len()
        invariant
            i <= routes.len(),
            rv == route_views(routes@),
            rv.len() == routes@.len(),
            forall|k: int| 0 <= k < i ==> !hosts_name(#[trigger] rv[k], domain@),
        decreases routes.len() - i,
    {
        let hit = hosts_contain(&routes[i], domain);
        proof {
            assert(rv[i as int] == views(routes@[i as int]@));
        }
        if hit {
            proof {
                lemma_first_route_prefix(rv, domain@, i as int);
                lemma_first_route_extends(rv, domain@, i + 1);
            }
            return Some(i);
        }
        i = i + 1;
    }
    proof {
        lemma_no_route_in_prefix(rv, domain@, rv.len() as int);
        assert(rv.subrange(0, rv.len() as int) =~= rv);
    }
    None
}

proof fn lemma_first_route_extends(routes: Seq<Seq<Seq<char>>>, domain: Seq<char>, n: int)
    requires
        0 < n <= routes.len(),
        first_route_for(routes.subrange(0, n), domain) is Some,
    ensures
        first_route_for(routes, domain) == first_route_for(routes.subrange(0, n), domain),
    decreases routes.len() - n,
{
    if n < routes.len() {
        let sub = routes.subrange(0, n + 1);
        assert(sub.drop_last() =~= routes.subrange(0, n));
        lemma_first_route_extends(routes, domain, n + 1);
    } else {
        assert(routes.subrange(0, n) =~= routes);
    }
}

/// The string entries of a host list, in order.
pub open spec fn strings_of(hs: Seq<Option<Seq<char>>>) -> Seq<Seq<char>>
    decreases hs.len(),
{
    if hs.len() == 0 {
        Seq::empty()
    } else {
        match hs.last() {
            Some(h) => strings_of(hs.drop_last()).push(h),
            None => strings_of(hs.drop_last()),
        }
    }
}

/// The host lists of a route listing: the string hosts of each route's first
/// matcher, none for a route without such a list.
pub open spec fn host_lists_of(listing: Seq<Option<Seq<Option<Seq<char>>>>>) -> Seq<Seq<Seq<char>>> {
    listing.map_values(
        |r: Option<Seq<Option<Seq<char>>>>|
            match r {
                Some(hs) => strings_of(hs),
                None => Seq::empty(),
            },
    )
}

/// The string hosts of one route's entries.
fn strings_in(hs: &Vec<Option<String>>) -> (r: Vec<String>)
    ensures
        views(r@) == strings_of(
            hs@.map_values(
                |h: Option<String>|
                    match h {
                        Some(x) => Some(x@),
                        None => None,
                    },
            ),
        ),
{
    let ghost hv = hs@.map_values(
        |h: Option<String>|
            match h {
                Some(x) => Some(x@),
                None => None,
            },
    );
    let mut r: Vec<String> = Vec::new();
    let mut i: usize = 0;
    while i < hs.len()
        invariant
            i <= hs.len(),
            hv.len() == hs@.len(),
            forall|k: int| 0 <= k < hs@.len() ==> #[trigger] hv[k] == match hs@[k] {
                Some(x) => Some(x@),
                None => None::<Seq<char>>,
            },
            views(r@) == strings_of(hv.subrange(0, i as int)),
        decreases hs.len() - i,
    {
        proof {
            assert(hv.subrange(0, i + 1).drop_last() =~= hv.subrange(0, i as int));
            assert(hv.subrange(0, i + 1).last() == hv[i as int]);
        }
        match &hs[i] {
            Some(h) => {
                let ghost before = r@;
                r.push(string_of(&chars_of(h.as_str())));
                proof {
                    assert(views(r@) =~= views(before).push(h@));
                }
            },
            None => {},
        }
        i = i + 1;
    }
    proof {
        assert(hv.subrange(0, hs.len() as int) =~= hv);
    }
    r
}

/// The host lists of a parsed route listing.
pub fn host_lists(listing: &Vec<Option<Vec<Option<String>>>>) -> (r: Vec<Vec<String>>)
    ensures
        route_views(r@) == host_lists_of(listing_views(listing@)),
{
    let ghost lv = listing_views(listing@);
    let mut r: Vec<Vec<String>> = Vec::new();
    let mut i: usize = 0;
    while i < listing.len()
        invariant
            i <= listing.len(),
            lv == listing_views(listing@),
            r@.len() == i,
            forall|k: int| 0 <= k < i ==> views((#[trigger] r@[k])@) == host_lists_of(lv)[k],
        decreases listing.len() - i,
    {
        let hosts = match &listing[i] {
            Some(hs) => strings_in(hs),
            None => Vec::new(),
        };
        proof {
            assert(lv[i as int] == match listing@[i as int] {
                Some(hs) => Some(
                    hs@.map_values(
                        |h: Option<String>|
                            match h {
                                Some(x) => Some(x@),
                                None => None,
                            },
                    ),
                ),
                None => None::<Seq<Option<Seq<char>>>>,
            });
            if listing@[i as int] is None {
                assert(views(hosts@) =~= Seq::<Seq<char>>::empty());
            }
        }
        r.push(hosts);
        i = i + 1;
    }
    proof {
        assert(route_views(r@) =~= host_lists_of(lv));
    }
    r
}

/// The host lists of the route listing `text`, or the message of the
/// parser's error.
pub fn read_host_lists(text: &str) -> (r: Result<Vec<Vec<String>>, String>)
    ensures
        match route_listing(text@) {
            Ok(l) => r matches Ok(h) && route_views(h@) == host_lists_of(l),
            Err(m) => r matches Err(x) && x@ == m,
        },
{
    match read_route_listing(text) {
        Ok(l) => Ok(host_lists(&l)),
        Err(m) => Err(m),
    }
}

/// The handler that proxies to `upstream`, as JSON.
pub open spec fn reverse_proxy_json(upstream: Seq<char>) -> Seq<char> {
    "{\"handler\":\"reverse_proxy\",\"upstreams\":[{\"dial\":"@ + json_string(upstream) + "}]}"@
}

/// The route serving `domain` from `upstream`, as the JSON the admin API
/// takes (members in key order, as `serde_json` writes an object).
pub open spec fn route_json(domain: Seq<char>, upstream: Seq<char>) -> Seq<char> {
    "{\"handle\":["@ + reverse_proxy_json(upstream) + "],\"match\":[{\"host\":["@ + json_string(domain)
        + "]}]}"@
}

/// The route serving `domain` from `upstream` behind HTTP basic
/// authentication of `username` with the bcrypt hash `password_hash`, as
/// JSON.
pub open spec fn auth_route_json(
    domain: Seq<char>,
    upstream: Seq<char>,
    username: Seq<char>,
    password_hash: Seq<char>,
) -> Seq<char> {
    "{\"handle\":[{\"handler\":\"authentication\",\"providers\":{\"http_basic\":{\"accounts\":[{\"password\":"@
        + json_string(password_hash) + ",\"username\":"@ + json_string(username)
        + "}],\"hash\":{\"algorithm\":\"bcrypt\"}}}},"@ + reverse_proxy_json(upstream)
        + "],\"match\":[{\"host\":["@ + json_string(domain) + "]}]}"@
}

/// The JSON of the route serving `domain` from `upstream`.
pub fn write_route(domain: &str, upstream: &str) -> (r: String)
    ensures
        r@ == route_json(domain@, upstream@),
{
    let d = write_json_string(domain);
    let u = write_json_string(upstream);
    let mut v = chars_of("{\"handle\":[");
    push_str(&mut v, "{\"handler\":\"reverse_proxy\",\"upstreams\":[{\"dial\":");
    push_str(&mut v, u.as_str());
    push_str(&mut v, "}]}");
    push_str(&mut v, "],\"match\":[{\"host\":[");
    push_str(&mut v, d.as_str());
    push_str(&mut v, "]}]}");
    proof {
        assert(v@ =~= route_json(domain@, upstream@));
    }
    string_of(&v)
}

/// The JSON of the route serving `domain` from `upstream` behind basic
/// authentication.
pub fn write_auth_route(domain: &str, upstream: &str, username: &str, password_hash: &str) -> (r: String)
    ensures
        r@ == auth_route_json(domain@, upstream@, username@, password_hash@),
{
    let d = write_json_string(domain);
    let u = write_json_string(upstream);
    let n = write_json_string(username);
    let p = write_json_string(password_hash);
    let mut v = chars_of(
        "{\"handle\":[{\"handler\":\"authentication\",\"providers\":{\"http_basic\":{\"accounts\":[{\"password\":",
    );
    push_str(&mut v, p.as_str());
    push_str(&mut v, ",\"username\":");
    push_str(&mut v, n.as_str());
    push_str(&mut v, "}],\"hash\":{\"algorithm\":\"bcrypt\"}}}},");
    push_str(&mut v, "{\"handler\":\"reverse_proxy\",\"upstreams\":[{\"dial\":");
    push_str(&mut v, u.as_str());
    push_str(&mut v, "}]}");
    push_str(&mut v, "],\"match\":[{\"host\":[");
    push_str(&mut v, d.as_str());
    push_str(&mut v, "]}]}");
    proof {
        assert(v@ =~= auth_route_json(domain@, upstream@, username@, password_hash@));
    }
    string_of(&v)
}

/// `s` with every occurrence of `from` replaced by `to`, scanning from the
/// left, as `str::replace` does for a non-empty pattern.
pub open spec fn replace_all(s: Seq<char>, from: Seq<char>, to: Seq<char>) -> Seq<char>
    decreases s.len(),
{
    if from.len() == 0 || s.len() == 0 {
        s
    } else if has_prefix(s, from) {
        to + replace_all(s.subrange(from.len() as int, s.len() as int), from, to)
    } else {
        seq![s[0]] + replace_all(s.drop_first(), from, to)
    }
}

/// `s` with every occurrence of the non-empty `from` replaced by `to`.
pub fn replace_all_of(s: &str, from: &str, to: &str) -> (r: String)
    requires
        from@.len() > 0,
    ensures
        r@ == replace_all(s@, from@, to@),
{
    let sv = chars_of(s);
    let fv = chars_of(from);
    let mut out: Vec<char> = Vec::new();
    let mut i: usize = 0;
    proof {
        assert(sv@.subrange(0, sv@.len() as int) =~= sv@);
    }
    while i < sv.len()
        invariant
            i <= sv.len(),
            sv@ == s@,
            fv@ == from@,
            fv@.len() > 0,
            out@ + replace_all(sv@.subrange(i as int, sv@.len() as int), fv@, to@) == replace_all(
                sv@,
                fv@,
                to@,
            ),
        decreases sv.len() - i,
    {
        let ghost rest = sv@.subrange(i as int, sv@.len() as int);
        let ghost before = out@;
        if matches_at(&sv, &fv, i) {
            proof {
                assert(rest.subrange(0, fv@.len() as int) =~= sv@.subrange(
                    i as int,
                    i + fv@.len(),
                ));
                assert(has_prefix(rest, fv@));
                assert(rest.subrange(fv@.len() as int, rest.len() as int) =~= sv@.subrange(
                    i + fv@.len(),
                    sv@.len() as int,
                ));
                assert(before + (to@ + replace_all(
                    sv@.subrange(i + fv@.len(), sv@.len() as int),
                    fv@,
                    to@,
                )) =~= (before + to@) + replace_all(
                    sv@.subrange(i + fv@.len(), sv@.len() as int),
                    fv@,
                    to@,
                ));
            }
            push_str(&mut out, to);
            i = i + fv.len();
        } else {
            proof {
                if has_prefix(rest, fv@) {
                    assert(sv@.subrange(i as int, i + fv@.len()) =~= rest.subrange(
                        0,
                        fv@.len() as int,
                    ));
                }
                assert(rest.drop_first() =~= sv@.subrange(i + 1, sv@.len() as int));
                assert(before + (seq![rest[0]] + replace_all(rest.drop_first(), fv@, to@)) =~= before.push(
                    sv@[i as int],
                ) + replace_all(rest.drop_first(), fv@, to@));
            }
            out.push(sv[i]);
            i = i + 1;
        }
    }
    proof {
        assert(sv@.subrange(i as int, sv@.len() as int) =~= Seq::<char>::empty());
        assert(out@ + Seq::<char>::empty() =~= out@);
    }
    string_of(&out)
}

/// The admin address to retry a request at when the configured one refused
/// the connection: the configured address with `localhost` replaced by the
/// proxy's container name `caddy`; no retry unless it names `localhost`.
pub open spec fn fallback_admin_url(admin_api_url: Seq<char>) -> Option<Seq<char>> {
    if has_substring(admin_api_url, "localhost"@) {
        Some(replace_all(admin_api_url, "localhost"@, "caddy"@))
    } else {
        None
    }
}

/// The admin address to retry at after a refused connection, if any.
pub fn fallback_admin_url_of(admin_api_url: &str) -> (r: Option<String>)
    ensures
        match r {
            Some(u) => fallback_admin_url(admin_api_url@) == Some(u@),
            None => fallback_admin_url(admin_api_url@) is None,
        },
{
    proof {
        reveal_strlit("localhost");
    }
    if crate::text::contains_sub(&chars_of(admin_api_url), &chars_of("localhost")) {
        Some(replace_all_of(admin_api_url, "localhost", "caddy"))
    } else {
        None
    }
}

/// A reply of the proxy's admin API: whether its status is a success, the
/// status line, and the body text (empty when it cannot be read).
#[derive(Debug)]
pub struct HttpReply {
    pub success: bool,
    pub status: String,
    pub body: String,
}

/// Where a reload of the configuration stands.
#[derive(Debug, Clone, Copy, PartialEq, Eq, Structural)]
pub enum ReloadStage {
    Adapting,
    Loading,
    Finished,
}

/// A reload of the proxy's configuration from a Caddyfile.
pub struct ReloadFlow {
    pub stage: ReloadStage,
}

/// What the caller does next in a reload.
pub enum ReloadAction {
    /// Have the admin API adapt `caddyfile` to its JSON configuration.
    Adapt { caddyfile: String },
    /// Load the JSON configuration `config`; a body that is not JSON fails
    /// this step with the parser's message.
    Load { config: String },
    Finish(Result<(), AppError>),
}

/// One step of a reload: adapt, then load what the adaptation gave; a
/// refused step ends it with the admin API's reply.
pub open spec fn reload_next(
    s: ReloadFlow,
    e: Result<HttpReply, AppError>,
    t: ReloadFlow,
    a: ReloadAction,
) -> bool {
    match s.stage {
        ReloadStage::Adapting => match e {
            Err(err) => t.stage == ReloadStage::Finished && a == ReloadAction::Finish(Err(err)),
            Ok(r) => if r.success {
                t.stage == ReloadStage::Loading && a == (ReloadAction::Load { config: r.body })
            } else {
                t.stage == ReloadStage::Finished && (a matches ReloadAction::Finish(
                    Err(AppError::CaddyApi(m)),
                ) && m@ == "Failed to adapt Caddyfile: "@ + r.body@)
            },
        },
        ReloadStage::Loading => match e {
            Err(err) => t.stage == ReloadStage::Finished && a == ReloadAction::Finish(Err(err)),
            Ok(r) => if r.success {
                t.stage == ReloadStage::Finished && a == ReloadAction::Finish(Ok(()))
            } else {
                t.stage == ReloadStage::Finished && (a matches ReloadAction::Finish(
                    Err(AppError::CaddyApi(m)),
                ) && m@ == "Failed to load config: "@ + r.body@)
            },
        },
        ReloadStage::Finished => false,
    }
}

/// Starts reloading the proxy's configuration from `caddyfile`.
pub fn start_reload(caddyfile: String) -> (r: (ReloadFlow, ReloadAction))
    ensures
        r.0.stage == ReloadStage::Adapting,
        r.1 == (ReloadAction::Adapt { caddyfile }),
{
    (ReloadFlow { stage: ReloadStage::Adapting }, ReloadAction::Adapt { caddyfile })
}

impl ReloadFlow {
    /// Takes the admin API's reply to the last action.
    pub fn step(self, e: Result<HttpReply, AppError>) -> (r: (ReloadFlow, ReloadAction))
        requires
            self.stage != ReloadStage::Finished,
        ensures
            reload_next(self, e, r.0, r.1),
    {
        let done = ReloadFlow { stage: ReloadStage::Finished };
        match e {
            Err(err) => (done, ReloadAction::Finish(Err(err))),
            Ok(r) => if self.stage == ReloadStage::Adapting {
                if r.success {
                    (ReloadFlow { stage: ReloadStage::Loading }, ReloadAction::Load { config: r.body })
                } else {
                    let m = crate::text::concat2("Failed to adapt Caddyfile: ", r.body.as_str());
                    (done, ReloadAction::Finish(Err(AppError::CaddyApi(m))))
                }
            } else {
                if r.success {
                    (done, ReloadAction::Finish(Ok(())))
                } else {
                    let m = crate::text::concat2("Failed to load config: ", r.body.as_str());
                    (done, ReloadAction::Finish(Err(AppError::CaddyApi(m))))
                }
            },
        }
    }
}

/// A reload succeeds only when both the adaptation and the load were
/// accepted.
pub proof fn law_reload_succeeds_only_when_loaded(
    s: ReloadFlow,
    e: Result<HttpReply, AppError>,
    t: ReloadFlow,
    a: ReloadAction,
)
    requires
        reload_next(s, e, t, a),
        a == ReloadAction::Finish(Ok(())),
    ensures
        s.stage == ReloadStage::Loading,
        e matches Ok(r) && r.success,
{
}

} // verus!
