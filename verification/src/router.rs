//! Routing of request paths to endpoints by URL patterns.
use vstd::prelude::*;
use crate::text::string_views;

verus! {

/// What a regular expression's `captures` gives on a text: `None` when it
/// does not match, else every capture group in order (group 0 is the whole
/// match), each `None` when it took no part in the match.
pub uninterp spec fn regex_groups(pattern: Seq<char>, text: Seq<char>) -> Option<
    Seq<Option<Seq<char>>>,
>;

/// The view of an optional capture.
pub open spec fn group_view(g: Option<String>) -> Option<Seq<char>> {
    match g {
        Some(s) => Some(s@),
        None => None,
    }
}

/// The view of the captures of one match.
pub open spec fn groups_view(groups: Option<Vec<Option<String>>>) -> Option<Seq<Option<Seq<char>>>> {
    match groups {
        Some(v) => Some(v@.map_values(|g: Option<String>| group_view(g))),
        None => None,
    }
}

/// `regex::Regex::new(pattern)` then `Regex::captures(text)` (regex 1),
/// with each capture group copied out. A pattern that does not compile
/// matches nothing. The contract only names the result, which depends on
/// the pattern and the text alone.
#[verifier::external_body]
fn regex_captures(pattern: &str, text: &str) -> (groups: Option<Vec<Option<String>>>)
    ensures
        groups_view(groups) == regex_groups(pattern@, text@),
{
    let re = match regex::Regex::new(pattern) {
        Ok(re) => re,
        Err(_) => return None,
    };
    let captures = re.captures(text)?;
    let mut groups: Vec<Option<String>> = Vec::new();
    for group in captures.iter() {
        groups.push(match group {
            Some(m) => Some(m.as_str().to_owned()),
            None => None,
        });
    }
    Some(groups)
}

/// The captures of the first pattern that matches the text.
pub open spec fn first_match(patterns: Seq<Seq<char>>, text: Seq<char>) -> Option<Seq<Option<Seq<char>>>>
    decreases patterns.len(),
{
    if patterns.len() == 0 {
        None
    } else {
        match regex_groups(patterns[0], text) {
            Some(groups) => Some(groups),
            None => first_match(patterns.drop_first(), text),
        }
    }
}

/// The groups that took part in the match, in order.
pub open spec fn present_groups(groups: Seq<Option<Seq<char>>>) -> Seq<Seq<char>>
    decreases groups.len(),
{
    if groups.len() == 0 {
        Seq::empty()
    } else {
        let before = present_groups(groups.drop_last());
        match groups.last() {
            Some(g) => before.push(g),
            None => before,
        }
    }
}

/// The groups of one match after the whole match (group 0).
pub open spec fn after_whole_match(groups: Seq<Option<Seq<char>>>) -> Seq<Option<Seq<char>>> {
    if groups.len() == 0 {
        groups
    } else {
        groups.skip(1)
    }
}

/// The path segments that a match captured: its capture groups after the
/// whole match, leaving out those that took no part in it.
pub fn capture_segments(groups: &Vec<Option<String>>) -> (segs: Vec<String>)
    ensures
        string_views(segs@) == present_groups(
            after_whole_match(groups@.map_values(|g: Option<String>| group_view(g))),
        ),
{
    let ghost gv = groups@.map_values(|g: Option<String>| group_view(g));
    let mut found: Vec<String> = Vec::new();
    if groups.len() == 0 {
        assert(string_views(found@) =~= present_groups(gv));
        return found;
    }
    let mut j: usize = 1;
    assert(gv.skip(1).take(0) =~= Seq::<Option<Seq<char>>>::empty());
    while j < groups.len()
        invariant
            1 <= j <= groups@.len(),
            gv == groups@.map_values(|g: Option<String>| group_view(g)),
            string_views(found@) == present_groups(gv.skip(1).take(j - 1)),
        decreases groups@.len() - j,
    {
        let ghost prev = string_views(found@);
        assert(gv.skip(1).take(j as int).drop_last() =~= gv.skip(1).take(j - 1));
        assert(gv.skip(1).take(j as int).last() == group_view(groups@[j as int]));
        match &groups[j] {
            Some(g) => {
                found.push(g.clone());
                assert(string_views(found@) =~= prev.push(g@));
            },
            None => {},
        }
        j = j + 1;
    }
    assert(gv.skip(1).take(groups@.len() - 1) =~= gv.skip(1));
    found
}

/// The path segments that the first matching pattern captures.
pub open spec fn segments(patterns: Seq<Seq<char>>, path: Seq<char>) -> Option<Seq<Seq<char>>> {
    match first_match(patterns, path) {
        Some(groups) => Some(present_groups(after_whole_match(groups))),
        None => None,
    }
}

/// Splits a path into the segments that the first matching URL pattern
/// captures; `None` when no pattern matches.
pub fn to_segments(path: &str, url_patterns: &Vec<String>) -> (found: Option<Vec<String>>)
    ensures
        match found {
            Some(v) => segments(string_views(url_patterns@), path@) == Some(string_views(v@)),
            None => segments(string_views(url_patterns@), path@) is None,
        },
{
    let ghost patterns = string_views(url_patterns@);
    let mut i: usize = 0;
    assert(patterns.skip(0) =~= patterns);
    while i < url_patterns.len()
        invariant
            i <= url_patterns@.len(),
            patterns == string_views(url_patterns@),
            first_match(patterns, path@) == first_match(patterns.skip(i as int), path@),
        decreases url_patterns@.len() - i,
    {
        let ghost rest = patterns.skip(i as int);
        assert(rest[0] == url_patterns@[i as int]@);
        assert(rest.drop_first() =~= patterns.skip(i + 1));
        match regex_captures(url_patterns[i].as_str(), path) {
            Some(groups) => {
                return Some(capture_segments(&groups));
            },
            None => {},
        }
        i = i + 1;
    }
    assert(patterns.skip(i as int).len() == 0);
    None
}

/// The endpoints that requests are routed to.
#[derive(Debug, PartialEq, Eq, Structural)]
pub enum Endpoint {
    GiveClient,
    PostNgcFile,
    ConnectWs,
    NotFound,
}

/// The URL patterns of the router, in the order they are tried.
pub open spec fn url_patterns() -> Seq<Seq<char>> {
    seq!["/(index.html)"@, "/(ngc)"@, "/(ws)"@]
}

/// The endpoint that captured segments select: exactly `index.html`,
/// `ngc` or `ws`; anything else, or no match at all, is not found.
pub open spec fn endpoint_for(segs: Option<Seq<Seq<char>>>) -> Endpoint {
    match segs {
        Some(s) => if s == seq!["index.html"@] {
            Endpoint::GiveClient
        } else if s == seq!["ngc"@] {
            Endpoint::PostNgcFile
        } else if s == seq!["ws"@] {
            Endpoint::ConnectWs
        } else {
            Endpoint::NotFound
        },
        None => Endpoint::NotFound,
    }
}

/// The endpoint for a request path.
pub open spec fn route(path: Seq<char>) -> Endpoint {
    endpoint_for(segments(url_patterns(), path))
}

/// The view of optional segments.
pub open spec fn opt_segments(segs: Option<Vec<String>>) -> Option<Seq<Seq<char>>> {
    match segs {
        Some(v) => Some(string_views(v@)),
        None => None,
    }
}

fn is_single(segs: &Vec<String>, name: &str) -> (b: bool)
    ensures
        b == (string_views(segs@) == seq![name@]),
{
    if segs.len() != 1 {
        assert(string_views(segs@).len() != 1);
        return false;
    }
    let wanted = name.to_owned();
    let b = segs[0] == wanted;
    if b {
        assert(string_views(segs@) =~= seq![name@]);
    } else {
        assert(string_views(segs@)[0] != name@);
    }
    b
}

/// Selects the endpoint for a request path.
pub fn router(path: &str) -> (endpoint: Endpoint)
    ensures
        endpoint == route(path@),
{
    let mut patterns: Vec<String> = Vec::new();
    patterns.push("/(index.html)".to_owned());
    patterns.push("/(ngc)".to_owned());
    patterns.push("/(ws)".to_owned());
    assert(string_views(patterns@) =~= url_patterns());
    select_endpoint(to_segments(path, &patterns))
}

/// Selects the endpoint for the segments a path was split into.
pub fn select_endpoint(segs: Option<Vec<String>>) -> (endpoint: Endpoint)
    ensures
        endpoint == endpoint_for(opt_segments(segs)),
{
    match segs {
        Some(segs) => {
            if is_single(&segs, "index.html") {
                Endpoint::GiveClient
            } else if is_single(&segs, "ngc") {
                Endpoint::PostNgcFile
            } else if is_single(&segs, "ws") {
                Endpoint::ConnectWs
            } else {
                Endpoint::NotFound
            }
        },
        None => Endpoint::NotFound,
    }
}

/// The segments of a match are exactly the capture groups that took part
/// in it, in order: none is dropped, repeated or reordered, and a group that
/// took no part gives no segment.
pub proof fn lemma_segments_are_participating_groups(groups: Seq<Option<Seq<char>>>)
    ensures
        present_groups(groups) == groups.filter(|g: Option<Seq<char>>| g is Some).map_values(
            |g: Option<Seq<char>>| g->0,
        ),
        present_groups(groups).len() == groups.filter(|g: Option<Seq<char>>| g is Some).len(),
    decreases groups.len(),
{
    reveal_with_fuel(Seq::<_>::filter, 1);
    let pred = |g: Option<Seq<char>>| g is Some;
    let un = |g: Option<Seq<char>>| g->0;
    if groups.len() > 0 {
        lemma_segments_are_participating_groups(groups.drop_last());
        let before = groups.drop_last().filter(pred);
        if groups.last() is Some {
            assert(groups.filter(pred) == before.push(groups.last()));
            assert(before.push(groups.last()).map_values(un) =~= before.map_values(un).push(
                groups.last()->0,
            ));
        } else {
            assert(groups.filter(pred) == before);
        }
    } else {
        assert(groups.filter(pred).map_values(un) =~= Seq::<Seq<char>>::empty());
    }
}

/// The endpoint that exactly one captured segment names: `index.html`,
/// `ngc` or `ws`.
pub open spec fn endpoint_named(segs: Seq<Seq<char>>) -> Endpoint {
    if segs == seq!["index.html"@] {
        Endpoint::GiveClient
    } else if segs == seq!["ngc"@] {
        Endpoint::PostNgcFile
    } else if segs == seq!["ws"@] {
        Endpoint::ConnectWs
    } else {
        Endpoint::NotFound
    }
}

/// A request path reaches an endpoint only through the router's three fixed
/// patterns `/(index.html)`, `/(ngc)` and `/(ws)`, tried in this order: the
/// first one that matches decides, by the segments it captures, and a path
/// that none matches is not found. In particular the websocket endpoint
/// answers only a path that one of these patterns matches with exactly the
/// segment `ws`.
pub proof fn lemma_route_by_fixed_patterns(path: Seq<char>)
    ensures
        route(path) == (match regex_groups("/(index.html)"@, path) {
            Some(g) => endpoint_named(present_groups(after_whole_match(g))),
            None => match regex_groups("/(ngc)"@, path) {
                Some(g) => endpoint_named(present_groups(after_whole_match(g))),
                None => match regex_groups("/(ws)"@, path) {
                    Some(g) => endpoint_named(present_groups(after_whole_match(g))),
                    None => Endpoint::NotFound,
                },
            },
        }),
        route(path) == Endpoint::ConnectWs ==> exists|p: Seq<char>|
            (p == "/(index.html)"@ || p == "/(ngc)"@ || p == "/(ws)"@) && (#[trigger] regex_groups(
                p,
                path,
            ) matches Some(g) && present_groups(after_whole_match(g)) == seq!["ws"@]),
{
    reveal_strlit("index.html");
    reveal_strlit("ngc");
    reveal_strlit("ws");
    let ps = url_patterns();
    assert(ps.drop_first() =~= seq!["/(ngc)"@, "/(ws)"@]);
    assert(ps.drop_first().drop_first() =~= seq!["/(ws)"@]);
    assert(ps.drop_first().drop_first().drop_first() =~= Seq::<Seq<char>>::empty());
    assert(ps[0] == "/(index.html)"@);
    assert(ps.drop_first()[0] == "/(ngc)"@);
    assert(ps.drop_first().drop_first()[0] == "/(ws)"@);
    match regex_groups("/(index.html)"@, path) {
        Some(g) => {
            assert(first_match(ps, path) == Some(g));
            assert(route(path) == endpoint_for(Some(present_groups(after_whole_match(g)))));
        },
        None => {
            assert(first_match(ps, path) == first_match(ps.drop_first(), path));
            match regex_groups("/(ngc)"@, path) {
                Some(g) => {
                    assert(first_match(ps, path) == Some(g));
                    assert(route(path) == endpoint_for(
                        Some(present_groups(after_whole_match(g))),
                    ));
                },
                None => {
                    assert(first_match(ps.drop_first(), path) == first_match(
                        ps.drop_first().drop_first(),
                        path,
                    ));
                    match regex_groups("/(ws)"@, path) {
                        Some(g) => {
                            assert(route(path) == endpoint_for(
                                Some(present_groups(after_whole_match(g))),
                            ));
                        },
                        None => {
                            let rest = ps.drop_first().drop_first();
                            assert(first_match(rest, path) == first_match(rest.drop_first(), path));
                            assert(first_match(rest.drop_first(), path) is None);
                            assert(first_match(ps, path) is None);
                        },
                    }
                },
            }
        },
    }
}

/// Patterns are tried in order and the first that matches decides: a match
/// is the captures of some pattern that matches, with every pattern before
/// it failing to match; no match means that no pattern matches.
pub proof fn lemma_first_match_is_first(patterns: Seq<Seq<char>>, text: Seq<char>)
    ensures
        first_match(patterns, text) matches Some(g) ==> exists|k: int|
            0 <= k < patterns.len() && regex_groups(#[trigger] patterns[k], text) == Some(g) && forall|
                j: int,
            | 0 <= j < k ==> regex_groups(#[trigger] patterns[j], text) is None,
        first_match(patterns, text) is None ==> forall|j: int|
            0 <= j < patterns.len() ==> regex_groups(#[trigger] patterns[j], text) is None,
    decreases patterns.len(),
{
    if patterns.len() > 0 {
        let rest = patterns.drop_first();
        lemma_first_match_is_first(rest, text);
        match regex_groups(patterns[0], text) {
            Some(g) => {
                assert(regex_groups(patterns[0], text) == Some(g));
            },
            None => {
                if let Some(g) = first_match(rest, text) {
                    let k = choose|k: int|
                        0 <= k < rest.len() && regex_groups(#[trigger] rest[k], text) == Some(g)
                            && forall|j: int|
                            0 <= j < k ==> regex_groups(#[trigger] rest[j], text) is None;
                    assert(patterns[k + 1] == rest[k]);
                    assert forall|j: int| 0 <= j < k + 1 implies regex_groups(
                        #[trigger] patterns[j],
                        text,
                    ) is None by {
                        if j > 0 {
                            assert(patterns[j] == rest[j - 1]);
                        }
                    }
                } else {
                    assert forall|j: int| 0 <= j < patterns.len() implies regex_groups(
                        #[trigger] patterns[j],
                        text,
                    ) is None by {
                        if j > 0 {
                            assert(patterns[j] == rest[j - 1]);
                        }
                    }
                }
            },
        }
    }
}

/// The segments of a match are its groups after group 0 (the whole match)
/// that took part, in order; selected segments name their endpoint exactly,
/// and no match at all is not found.
pub proof fn lemma_segments_select_endpoint(groups: Seq<Option<Seq<char>>>, segs: Seq<Seq<char>>)
    ensures
        groups.len() > 0 ==> present_groups(after_whole_match(groups)) == groups.drop_first().filter(
            |g: Option<Seq<char>>| g is Some,
        ).map_values(|g: Option<Seq<char>>| g->0),
        endpoint_for(Some(segs)) == endpoint_named(segs),
        endpoint_for(None) == Endpoint::NotFound,
{
    if groups.len() > 0 {
        assert(groups.skip(1) =~= groups.drop_first());
        lemma_segments_are_participating_groups(groups.drop_first());
    }
}

} // verus!
