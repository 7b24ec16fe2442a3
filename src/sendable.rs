use vstd::prelude::*;
use crate::error::ClientError;
use crate::query::{PairView, QueryParams, keys_unique};

verus! {

/// The url crate's `Url`: an absolute URL, carried through as an opaque value.
#[verifier::external_type_specification]
#[verifier::external_body]
pub struct ExUrl(url::Url);

/// The text that `application/x-www-form-urlencoded` serialisation makes of `s`.
pub uninterp spec fn form_encoded(s: Seq<char>) -> Seq<char>;

/// Whether a URL parser accepts `s` as an absolute URL.
pub uninterp spec fn url_parses(s: Seq<char>) -> bool;

/// Relies on url::form_urlencoded::byte_serialize: the percent-encoded form of
/// the UTF-8 bytes of `s`, which depends on `s` alone.
#[verifier::external_body]
fn form_encode(s: &String) -> (r: String)
    ensures
        r@ == form_encoded(s@),
{
    url::form_urlencoded::byte_serialize(s.as_bytes()).collect()
}

/// Relies on url::Url::parse: whether the text is accepted depends on the
/// text alone.
#[verifier::external_body]
fn parse_url(s: &String) -> (r: Option<url::Url>)
    ensures
        r is Some <==> url_parses(s@),
{
    url::Url::parse(s.as_str()).ok()
}

/// The fixed service endpoint that every resource path is relative to.
pub open spec fn api_base() -> Seq<char> {
    "https://www.googleapis.com/calendar/v3/"@
}

/// One query pair written as `key=value`.
pub open spec fn pair_text(p: PairView) -> Seq<char> {
    p.0 + "="@ + p.1
}

/// Pairs written one after another, separated by `&`.
pub open spec fn joined(s: Seq<PairView>) -> Seq<char>
    decreases s.len(),
{
    if s.len() == 0 {
        Seq::empty()
    } else if s.len() == 1 {
        pair_text(s[0])
    } else {
        joined(s.drop_last()) + "&"@ + pair_text(s.last())
    }
}

/// Each key and value put in its form-encoded shape.
pub open spec fn encoded_pairs(s: Seq<PairView>) -> Seq<PairView> {
    s.map_values(|p: PairView| (form_encoded(p.0), form_encoded(p.1)))
}

/// The query component that already-encoded pairs make: empty, or `?` and
/// the joined pairs.
pub open spec fn query_component(encoded: Seq<PairView>) -> Seq<char> {
    if encoded.len() == 0 {
        Seq::empty()
    } else {
        "?"@ + joined(encoded)
    }
}

/// The absolute URL text of a resource path with its query pairs.
pub open spec fn url_text(path: Seq<char>, query: Seq<PairView>) -> Seq<char> {
    api_base() + path + query_component(encoded_pairs(query))
}

fn base_text() -> (r: String)
    ensures
        r@ == api_base(),
{
    proof {
        reveal_strlit("https://www.googleapis.com/calendar/v3/");
    }
    String::from_str("https://www.googleapis.com/calendar/v3/")
}

/// Writes the URL text of `path` followed by the query component of pairs
/// whose keys and values are already form-encoded.
pub fn compose_url(path: &String, encoded: &Vec<(String, String)>) -> (r: String)
    ensures
        r@ == api_base() + path@ + query_component(
            encoded@.map_values(|p: (String, String)| (p.0@, p.1@)),
        ),
{
    let ghost ev = encoded@.map_values(|p: (String, String)| (p.0@, p.1@));
    let mut out = base_text();
    out.append(path.as_str());
    let ghost head = out@;
    if encoded.len() == 0 {
        assert(ev.len() == 0);
        assert(out@ =~= head + query_component(ev));
        return out;
    }
    out.append("?");
    let mut i: usize = 0;
    while i < encoded.len()
        invariant
            0 <= i <= encoded@.len(),
            ev.len() == encoded@.len(),
            ev == encoded@.map_values(|p: (String, String)| (p.0@, p.1@)),
            out@ == head + "?"@ + joined(ev.subrange(0, i as int)),
        decreases encoded.len() - i,
    {
        let ghost before = out@;
        if i > 0 {
            out.append("&");
        }
        out.append(encoded[i].0.as_str());
        out.append("=");
        out.append(encoded[i].1.as_str());
        proof {
            let s = ev.subrange(0, i as int + 1);
            assert(s.drop_last() =~= ev.subrange(0, i as int));
            assert(s.last() == ev[i as int]);
            if i == 0 {
                assert(joined(ev.subrange(0, 0)) =~= Seq::<char>::empty());
                assert(out@ =~= head + "?"@ + joined(s));
            } else {
                assert(out@ =~= head + "?"@ + joined(s));
            }
        }
        i = i + 1;
    }
    assert(ev.subrange(0, ev.len() as int) =~= ev);
    assert(out@ =~= head + query_component(ev));
    out
}

/// The absolute URL text for `path` with the pairs of `query`, each key and
/// value form-encoded.
pub fn url_string(path: &String, query: &QueryParams) -> (r: String)
    ensures
        r@ == url_text(path@, query@),
{
    let mut encoded: Vec<(String, String)> = Vec::new();
    let mut i: usize = 0;
    while i < query.len()
        invariant
            i <= query@.len(),
            encoded@.len() == i,
            forall|j: int|
                0 <= j < i ==> (#[trigger] encoded@[j]).0@ == form_encoded(query@[j].0)
                    && encoded@[j].1@ == form_encoded(query@[j].1),
        decreases query@.len() - i,
    {
        let (k, v) = query.pair(i);
        let ek = form_encode(k);
        let ev = form_encode(v);
        encoded.push((ek, ev));
        i = i + 1;
    }
    let r = compose_url(path, &encoded);
    assert(encoded@.map_values(|p: (String, String)| (p.0@, p.1@)) =~= encoded_pairs(query@));
    r
}

/// Parses the URL text for `path` and `query`.
pub fn resolve_url(path: &String, query: &QueryParams) -> (r: Result<url::Url, ClientError>)
    ensures
        r is Ok <==> url_parses(url_text(path@, query@)),
        r is Err ==> r == Err::<url::Url, ClientError>(ClientError::Url),
{
    let text = url_string(path, query);
    match parse_url(&text) {
        Some(u) => Ok(u),
        None => Err(ClientError::Url),
    }
}

} // verus!
verus! {

/// The plain-text view of an optional action.
pub open spec fn action_view(action: Option<String>) -> Option<Seq<char>> {
    match action {
        Some(a) => Some(a@),
        None => None,
    }
}

/// A value that can be addressed as a resource of the service: a relative
/// path, given an optional action, and the query pairs sent with it. Working
/// these out performs no I/O.
pub trait Sendable {
    /// Whether the descriptor's own state is consistent.
    spec fn descriptor_wf(&self) -> bool;

    /// The relative path for an action.
    spec fn path_of(&self, action: Option<Seq<char>>) -> Seq<char>;

    /// The query pairs.
    spec fn query_of(&self) -> Seq<PairView>;

    fn path(&self, action: Option<String>) -> (r: String)
        ensures
            r@ == self.path_of(action_view(action)),
    ;

    fn query(&self) -> (r: QueryParams)
        requires
            self.descriptor_wf(),
        ensures
            r.wf(),
            r@ == self.query_of(),
    ;

    /// The absolute URL of this resource for an action.
    fn url(&self, action: Option<String>) -> (r: Result<url::Url, ClientError>)
        requires
            self.descriptor_wf(),
        ensures
            r is Ok <==> url_parses(url_text(self.path_of(action_view(action)), self.query_of())),
            r is Err ==> r == Err::<url::Url, ClientError>(ClientError::Url),
    {
        let p = self.path(action);
        let q = self.query();
        resolve_url(&p, &q)
    }
}

} // verus!
verus! {

/// The text of each pair stands somewhere in the joined text.
proof fn lemma_joined_holds_pair(s: Seq<PairView>, i: int)
    requires
        0 <= i < s.len(),
    ensures
        exists|off: int|
            0 <= off && off + pair_text(s[i]).len() <= joined(s).len() && #[trigger] joined(
                s,
            ).subrange(off, off + pair_text(s[i]).len()) == pair_text(s[i]),
    decreases s.len(),
{
    let t = pair_text(s[i]);
    if s.len() == 1 {
        assert(joined(s).subrange(0, t.len() as int) =~= t);
        assert(0 + t.len() <= joined(s).len());
        assert(joined(s).subrange(0int, 0int + pair_text(s[i]).len()) == pair_text(s[i]));
    } else if i == s.len() - 1 {
        let front = joined(s.drop_last()) + "&"@;
        let off = front.len() as int;
        assert(joined(s) == front + t);
        assert(joined(s).subrange(off, off + t.len()) =~= t);
        assert(joined(s).subrange(off, off + pair_text(s[i]).len()) == pair_text(s[i]));
    } else {
        let d = s.drop_last();
        assert(d[i] == s[i]);
        lemma_joined_holds_pair(d, i);
        let off = choose|off: int|
            0 <= off && off + pair_text(d[i]).len() <= joined(d).len() && #[trigger] joined(
                d,
            ).subrange(off, off + pair_text(d[i]).len()) == pair_text(d[i]);
        let rest = "&"@ + pair_text(s.last());
        assert(joined(s) == joined(d) + rest);
        assert(joined(s).subrange(off, off + t.len()) =~= joined(d).subrange(off, off + t.len()));
        assert(joined(s).subrange(off, off + pair_text(s[i]).len()) == pair_text(s[i]));
    }
}

/// Resolving a descriptor's URL depends on nothing but its path for the
/// action and its query pairs: two resolutions of equal descriptor state give
/// the same URL text and the same parse outcome.
pub proof fn lemma_url_deterministic<T: Sendable>(a: &T, b: &T, action: Option<Seq<char>>)
    requires
        a.path_of(action) == b.path_of(action),
        a.query_of() == b.query_of(),
    ensures
        url_text(a.path_of(action), a.query_of()) == url_text(b.path_of(action), b.query_of()),
        url_parses(url_text(a.path_of(action), a.query_of())) == url_parses(
            url_text(b.path_of(action), b.query_of()),
        ),
{
}

/// The path part of a URL text is the service endpoint followed by the
/// resource path, whatever the query holds.
pub proof fn lemma_path_unaffected_by_query(path: Seq<char>, query: Seq<PairView>)
    ensures
        (api_base() + path).is_prefix_of(url_text(path, query)),
{
    let h = api_base() + path;
    assert(url_text(path, query).subrange(0, h.len() as int) =~= h);
}

/// With a non-empty query, the URL text is the path part, `?`, and the
/// joined encoded pairs; each key/value pair, form-encoded, stands in that
/// query component, and no other pair carries its key.
pub proof fn lemma_query_pair_in_url(path: Seq<char>, query: Seq<PairView>, i: int)
    requires
        keys_unique(query),
        0 <= i < query.len(),
    ensures
        url_text(path, query) == api_base() + path + "?"@ + joined(encoded_pairs(query)),
        encoded_pairs(query)[i] == (form_encoded(query[i].0), form_encoded(query[i].1)),
        exists|off: int|
            0 <= off && off + pair_text(encoded_pairs(query)[i]).len() <= joined(
                encoded_pairs(query),
            ).len() && #[trigger] joined(encoded_pairs(query)).subrange(
                off,
                off + pair_text(encoded_pairs(query)[i]).len(),
            ) == pair_text(encoded_pairs(query)[i]),
        forall|j: int| 0 <= j < query.len() && #[trigger] query[j].0 == query[i].0 ==> j == i,
{
    let e = encoded_pairs(query);
    assert(e.len() == query.len());
    assert(url_text(path, query) =~= api_base() + path + "?"@ + joined(e));
    lemma_joined_holds_pair(e, i);
    assert forall|j: int| 0 <= j < query.len() && #[trigger] query[j].0 == query[i].0 implies j
        == i by {
        if j < i {
            assert(query[j].0 != query[i].0);
        } else if i < j {
            assert(query[i].0 != query[j].0);
        }
    }
}

} // verus!
