//! Normalizing a user-supplied reference — a native `spotify:kind:id` string
//! or a web-player URL — into the canonical native form.

use vstd::prelude::*;

use crate::error::SpotifyError;

verus! {

/// The segments of `s` delimited by `':'`, in order. A string with no colon
/// is one segment; every colon opens a new (possibly empty) segment, so the
/// segment count is always one more than the colon count.
pub open spec fn split_colons(s: Seq<char>) -> Seq<Seq<char>>
    decreases s.len(),
{
    if s.len() == 0 {
        seq![Seq::<char>::empty()]
    } else if s[0] == ':' {
        seq![Seq::<char>::empty()].add(split_colons(s.drop_first()))
    } else {
        let rest = split_colons(s.drop_first());
        seq![seq![s[0]].add(rest[0])].add(rest.drop_first())
    }
}

/// Splitting yields at least one segment.
pub proof fn lemma_split_nonempty(s: Seq<char>)
    ensures
        split_colons(s).len() >= 1,
    decreases s.len(),
{
    if s.len() > 0 {
        lemma_split_nonempty(s.drop_first());
    }
}

/// How a split grows when one character is appended: a colon opens a fresh
/// empty segment, any other character extends the last segment.
pub proof fn lemma_split_push(s: Seq<char>, c: char)
    ensures
        c == ':' ==> split_colons(s.push(c)) == split_colons(s).push(Seq::<char>::empty()),
        c != ':' ==> split_colons(s.push(c)) == split_colons(s).update(
            split_colons(s).len() - 1,
            split_colons(s).last().push(c),
        ),
    decreases s.len(),
{
    lemma_split_nonempty(s);
    if s.len() == 0 {
        assert(s.push(c).drop_first() =~= Seq::<char>::empty());
        if c == ':' {
            assert(split_colons(s.push(c)) =~~= split_colons(s).push(Seq::<char>::empty()));
        } else {
            assert(seq![s.push(c)[0]].add(split_colons(s.push(c).drop_first())[0]) =~= seq![c]);
            assert(split_colons(s.push(c)) =~~= split_colons(s).update(
                split_colons(s).len() - 1,
                split_colons(s).last().push(c),
            ));
        }
    } else {
        assert(s.push(c).drop_first() =~= s.drop_first().push(c));
        lemma_split_push(s.drop_first(), c);
        lemma_split_nonempty(s.drop_first());
        if c == ':' {
            assert(split_colons(s.push(c)) =~~= split_colons(s).push(Seq::<char>::empty()));
        } else {
            assert(split_colons(s.push(c)) =~~= split_colons(s).update(
                split_colons(s).len() - 1,
                split_colons(s).last().push(c),
            ));
        }
    }
}

/// Splitting a concatenation: the two sides contribute their segments, and the
/// seam merges the last segment of the left with the first of the right, so
/// the counts add up minus one.
pub proof fn lemma_split_concat_len(a: Seq<char>, b: Seq<char>)
    ensures
        split_colons(a.add(b)).len() == split_colons(a).len() + split_colons(b).len() - 1,
    decreases a.len(),
{
    lemma_split_nonempty(a);
    lemma_split_nonempty(b);
    if a.len() == 0 {
        assert(a.add(b) =~= b);
    } else {
        assert(a.add(b).drop_first() =~= a.drop_first().add(b));
        lemma_split_concat_len(a.drop_first(), b);
        lemma_split_nonempty(a.drop_first().add(b));
    }
}

/// A string without any colon is a single segment, namely itself.
pub proof fn lemma_split_no_colon(s: Seq<char>)
    requires
        forall|i: int| 0 <= i < s.len() ==> s[i] != ':',
    ensures
        split_colons(s) == seq![s],
    decreases s.len(),
{
    if s.len() == 0 {
        assert(split_colons(s) =~~= seq![s]);
    } else {
        lemma_split_no_colon(s.drop_first());
        assert(seq![s[0]].add(s.drop_first()) =~= s);
        assert(split_colons(s) =~~= seq![s]);
    }
}

/// What the `url` crate makes of an input string: `None` when the string is
/// no URL at all; otherwise the URL's host, if any, and its path segments, if
/// the URL has a path of segments. The outcome depends on the characters of
/// the input alone.
pub uninterp spec fn url_parts_of(s: Seq<char>) -> Option<
    (Option<Seq<char>>, Option<Seq<Seq<char>>>),
>;

/// Relies on `url::Url::parse` together with `Url::host_str` and
/// `Url::path_segments`: parsing either fails or yields a URL whose host and
/// path segments are a function of the input characters alone.
#[verifier::external_body]
fn url_parts(s: &str) -> (r: Option<(Option<String>, Option<Vec<String>>)>)
    ensures
        r is Some <==> url_parts_of(s@) is Some,
        r matches Some(p) ==> {
            let q = url_parts_of(s@)->Some_0;
            &&& (p.0 is Some <==> q.0 is Some)
            &&& (p.0 matches Some(h) ==> q.0 == Some(h@))
            &&& (p.1 is Some <==> q.1 is Some)
            &&& (p.1 matches Some(v) ==> q.1 == Some(v@.map_values(|x: String| x@)))
        },
{
    match url::Url::parse(s) {
        Err(_) => None,
        Ok(u) => {
            let host = u.host_str().map(|h| h.to_string());
            let segs = u.path_segments().map(|it| it.map(|p| p.to_string()).collect());
            Some((host, segs))
        },
    }
}

/// The native scheme prefix, `spotify:`.
pub open spec fn native_prefix() -> Seq<char> {
    "spotify:"@
}

/// Whether `s` is written in the native scheme.
pub open spec fn is_native(s: Seq<char>) -> bool {
    s.len() >= 8 && s.subrange(0, 8) == native_prefix()
}

/// The host of the web player, the only host whose URLs are accepted.
pub open spec fn web_host() -> Seq<char> {
    "open.spotify.com"@
}

/// The canonical native form for a kind and an id.
pub open spec fn canonical_of(kind: Seq<char>, id: Seq<char>) -> Seq<char> {
    native_prefix().add(kind).add(":"@).add(id)
}

/// What `parse_uri` returns for an input: a native-scheme string is accepted
/// unchanged when it has at least three colon-delimited segments; any other
/// string must be a URL on the web-player host with at least two path
/// segments, whose first two become the kind and the id; everything else is
/// an invalid reference.
pub open spec fn parse_uri_spec(s: Seq<char>) -> Result<Seq<char>, SpotifyError> {
    if is_native(s) {
        if split_colons(s).len() >= 3 {
            Ok(s)
        } else {
            Err(SpotifyError::InvalidUri)
        }
    } else {
        match url_parts_of(s) {
            Option::None => Err(SpotifyError::InvalidUri),
            Option::Some(q) => if q.0 == Some(web_host()) {
                match q.1 {
                    Option::Some(sg) => if sg.len() >= 2 {
                        Ok(canonical_of(sg[0], sg[1]))
                    } else {
                        Err(SpotifyError::InvalidUri)
                    },
                    Option::None => Err(SpotifyError::InvalidUri),
                }
            } else {
                Err(SpotifyError::InvalidUri)
            },
        }
    }
}

/// Whether two string slices hold the same characters.
pub fn str_eq(a: &str, b: &str) -> (r: bool)
    ensures
        r == (a@ == b@),
{
    let sa = String::from_str(a);
    let sb = String::from_str(b);
    sa == sb
}

/// Normalize a native URI or a web-player URL into canonical native form.
///
/// A native-scheme input is returned unchanged if it has at least three
/// colon-delimited segments. Any other input is read as a URL: on the
/// web-player host with at least two path segments, the first two become
/// the kind and the id of the canonical form; everything else fails with
/// `InvalidUri`.
pub fn parse_uri(uri: &str) -> (r: Result<String, SpotifyError>)
    ensures
        r matches Ok(c) ==> parse_uri_spec(uri@) == Ok::<Seq<char>, SpotifyError>(c@),
        r matches Err(e) ==> parse_uri_spec(uri@) == Err::<Seq<char>, SpotifyError>(e),
{
    let n = uri.unicode_len();
    let native = n >= 8 && str_eq(uri.substring_char(0, 8), "spotify:");
    if native {
        let segs = split_colon_segments(uri);
        if segs.len() < 3 {
            return Err(SpotifyError::InvalidUri);
        }
        return Ok(String::from_str(uri));
    }
    match url_parts(uri) {
        None => Err(SpotifyError::InvalidUri),
        Some((host, segs)) => {
            match host {
                Some(h) => {
                    if !str_eq(h.as_str(), "open.spotify.com") {
                        return Err(SpotifyError::InvalidUri);
                    }
                    match segs {
                        Some(sg) => {
                            if sg.len() < 2 {
                                return Err(SpotifyError::InvalidUri);
                            }
                            let mut out = String::from_str("spotify:");
                            out.append(sg[0].as_str());
                            out.append(":");
                            out.append(sg[1].as_str());
                            proof {
                                let q = url_parts_of(uri@)->Some_0;
                                assert(q.1->Some_0[0] == sg@.map_values(|x: String| x@)[0]);
                                assert(q.1->Some_0[1] == sg@.map_values(|x: String| x@)[1]);
                                assert(out@ =~= canonical_of(sg@[0]@, sg@[1]@));
                            }
                            Ok(out)
                        },
                        None => Err(SpotifyError::InvalidUri),
                    }
                },
                None => Err(SpotifyError::InvalidUri),
            }
        },
    }
}

/// The colon-delimited segments of `s`, as owned strings.
pub fn split_colon_segments(s: &str) -> (r: Vec<String>)
    ensures
        r@.map_values(|v: String| v@) == split_colons(s@),
        r@.len() >= 1,
{
    let n = s.unicode_len();
    let mut segs: Vec<String> = Vec::new();
    let mut start: usize = 0;
    let mut i: usize = 0;
    proof {
        assert(s@.take(0) =~= Seq::<char>::empty());
        assert(segs@.map_values(|v: String| v@).push(s@.subrange(0, 0)) =~~= seq![
            Seq::<char>::empty(),
        ]);
    }
    while i < n
        invariant
            n == s@.len(),
            start <= i <= n,
            split_colons(s@.take(i as int)) == segs@.map_values(|v: String| v@).push(
                s@.subrange(start as int, i as int),
            ),
        decreases n - i,
    {
        let ghost pre = s@.take(i as int);
        let ghost mapped = segs@.map_values(|v: String| v@);
        proof {
            assert(s@.take(i + 1) =~= pre.push(s@[i as int]));
            lemma_split_push(pre, s@[i as int]);
        }
        let c = s.get_char(i);
        if c == ':' {
            let seg = String::from_str(s.substring_char(start, i));
            segs.push(seg);
            proof {
                assert(segs@.map_values(|v: String| v@) =~~= mapped.push(
                    s@.subrange(start as int, i as int),
                ));
                assert(split_colons(s@.take(i + 1)) =~~= segs@.map_values(|v: String| v@).push(
                    s@.subrange(i + 1, i + 1),
                ));
            }
            start = i + 1;
        } else {
            proof {
                assert(mapped.push(s@.subrange(start as int, i as int)).last() == s@.subrange(
                    start as int,
                    i as int,
                ));
                assert(s@.subrange(start as int, i as int).push(s@[i as int]) =~= s@.subrange(
                    start as int,
                    i + 1,
                ));
                assert(split_colons(s@.take(i + 1)) =~~= mapped.push(
                    s@.subrange(start as int, i + 1),
                ));
            }
        }
        i = i + 1;
    }
    let seg = String::from_str(s.substring_char(start, n));
    segs.push(seg);
    proof {
        assert(s@.take(n as int) =~= s@);
        assert(segs@.map_values(|v: String| v@) =~~= split_colons(s@));
    }
    segs
}

/// Every native-scheme input with fewer than three colon-delimited segments
/// is rejected as an invalid reference.
pub proof fn lemma_parse_native_short(s: Seq<char>)
    requires
        is_native(s),
        split_colons(s).len() < 3,
    ensures
        parse_uri_spec(s) == Err::<Seq<char>, SpotifyError>(SpotifyError::InvalidUri),
{
}

/// Every URL on the web-player host resolves to `spotify:<seg0>:<seg1>` when
/// it has at least two path segments, and is rejected when it has fewer.
pub proof fn lemma_parse_web_url(s: Seq<char>, host: Seq<char>, sg: Seq<Seq<char>>)
    requires
        !is_native(s),
        url_parts_of(s) == Some((Some(host), Some(sg))),
        host == web_host(),
    ensures
        sg.len() >= 2 ==> parse_uri_spec(s) == Ok::<Seq<char>, SpotifyError>(
            canonical_of(sg[0], sg[1]),
        ),
        sg.len() < 2 ==> parse_uri_spec(s) == Err::<Seq<char>, SpotifyError>(
            SpotifyError::InvalidUri,
        ),
{
}

/// A URL whose host is not the web-player host is rejected, whatever its
/// path looks like; so is a URL without a host, and a string that is no URL.
pub proof fn lemma_parse_other_host(
    s: Seq<char>,
    host: Option<Seq<char>>,
    sg: Option<Seq<Seq<char>>>,
)
    requires
        !is_native(s),
        url_parts_of(s) == Some((host, sg)) || url_parts_of(s) is None,
        host != Some(web_host()),
    ensures
        parse_uri_spec(s) == Err::<Seq<char>, SpotifyError>(SpotifyError::InvalidUri),
{
}

/// Parsing an already-canonical, well-formed reference is the identity.
pub proof fn lemma_parse_canonical_identity(s: Seq<char>)
    requires
        is_native(s),
        split_colons(s).len() >= 3,
    ensures
        parse_uri_spec(s) == Ok::<Seq<char>, SpotifyError>(s),
{
}

/// A single colon splits into two empty segments.
proof fn lemma_split_single_colon()
    ensures
        split_colons(":"@).len() == 2,
{
    reveal_strlit(":");
    assert(":"@.len() == 1);
    assert(":"@[0] == ':');
    assert(split_colons(Seq::<char>::empty()).len() == 1);
    assert(":"@.drop_first() =~= Seq::<char>::empty());
    assert(split_colons(":"@).len() == 1 + split_colons(":"@.drop_first()).len());
}

/// The scheme prefix splits into the segment `spotify` and an empty second
/// segment.
proof fn lemma_split_native_prefix()
    ensures
        split_colons(native_prefix()).len() == 2,
{
    reveal_strlit("spotify:");
    reveal_strlit("spotify");
    reveal_strlit(":");
    assert(native_prefix() =~= "spotify"@.add(":"@));
    assert(forall|i: int| 0 <= i < "spotify"@.len() ==> "spotify"@[i] != ':') by {
        assert("spotify"@[0] == 's');
        assert("spotify"@[1] == 'p');
        assert("spotify"@[2] == 'o');
        assert("spotify"@[3] == 't');
        assert("spotify"@[4] == 'i');
        assert("spotify"@[5] == 'f');
        assert("spotify"@[6] == 'y');
    }
    lemma_split_no_colon("spotify"@);
    lemma_split_single_colon();
    lemma_split_concat_len("spotify"@, ":"@);
}

/// Whatever `parse_uri` accepts, it accepts again unchanged: resolution is
/// idempotent, whether the accepted form came in natively or was rebuilt
/// from a web URL.
pub proof fn lemma_parse_idempotent(s: Seq<char>, t: Seq<char>)
    requires
        parse_uri_spec(s) == Ok::<Seq<char>, SpotifyError>(t),
    ensures
        parse_uri_spec(t) == Ok::<Seq<char>, SpotifyError>(t),
{
    if is_native(s) {
    } else {
        let q = url_parts_of(s)->Some_0;
        let sg = q.1->Some_0;
        let kind = sg[0];
        let id = sg[1];
        assert(t == canonical_of(kind, id));
        reveal_strlit("spotify:");
        reveal_strlit(":");
        assert(t.subrange(0, 8) =~= native_prefix());
        assert(is_native(t));
        lemma_split_native_prefix();
        lemma_split_nonempty(kind);
        lemma_split_nonempty(id);
        lemma_split_single_colon();
        lemma_split_concat_len(native_prefix(), kind);
        lemma_split_concat_len(native_prefix().add(kind), ":"@);
        lemma_split_concat_len(native_prefix().add(kind).add(":"@), id);
        assert(split_colons(t).len() >= 3);
    }
}

} // verus!
