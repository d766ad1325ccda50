//! Remote artwork for the cards: which origins may be fetched, which image types are
//! embedded, and the batch of embedded images a render uses.
use vstd::prelude::*;

use crate::text::{
    chars_of, equals, lower, lower_spec, owned, push_str, split_bounds, split_spec, starts_with,
    has_prefix, string_of, trim_bounds, trim_spec,
};

verus! {

/// The largest artwork that is embedded, in bytes.
pub const MAX_ARTWORK_BYTES: usize = 1_048_576;

/// The images embedded for one render: a data URI per artwork URL, and whether every
/// requested artwork could be embedded.
#[derive(Debug)]
pub struct EmbeddedArtworkBatch {
    complete: bool,
    images: Vec<(String, String)>,
}

/// The image of `url` among the pairs: the last pair for it wins.
pub open spec fn image_for(images: Seq<(Seq<char>, Seq<char>)>, url: Seq<char>) -> Option<Seq<char>>
    decreases images.len(),
{
    if images.len() == 0 {
        None
    } else if images.last().0 == url {
        Some(images.last().1)
    } else {
        image_for(images.drop_last(), url)
    }
}

/// The pairs of URL and data URI of the artwork that could be embedded, in order.
pub open spec fn result_pairs(results: Seq<Option<AcceptedArtwork>>) -> Seq<(Seq<char>, Seq<char>)>
    decreases results.len(),
{
    if results.len() == 0 {
        Seq::empty()
    } else {
        let rest = result_pairs(results.drop_last());
        match results.last() {
            Some(a) => rest.push(a.pair()),
            None => rest,
        }
    }
}

/// The image found for a URL among accepted pairs is accepted for that URL.
proof fn lemma_image_for_accepted(pairs: Seq<(Seq<char>, Seq<char>)>, url: Seq<char>)
    requires
        all_accepted(pairs),
        image_for(pairs, url) is Some,
    ensures
        accepted_pair((url, image_for(pairs, url)->0)),
    decreases pairs.len(),
{
    if pairs.last().0 != url {
        assert(all_accepted(pairs.drop_last())) by {
            assert forall|i: int| 0 <= i < pairs.drop_last().len() implies accepted_pair(
                #[trigger] pairs.drop_last()[i],
            ) by {
                assert(pairs.drop_last()[i] == pairs[i]);
            }
        }
        lemma_image_for_accepted(pairs.drop_last(), url);
    } else {
        assert(accepted_pair(pairs[pairs.len() - 1]));
    }
}

/// The image found for each fetched artwork's URL is present.
proof fn lemma_result_found(results: Seq<Option<AcceptedArtwork>>, i: int)
    requires
        0 <= i < results.len(),
        results[i] is Some,
    ensures
        image_for(result_pairs(results), results[i]->0.pair().0) is Some,
    decreases results.len(),
{
    let url = results[i]->0.pair().0;
    if i < results.len() - 1 {
        lemma_result_found(results.drop_last(), i);
        assert(results.drop_last()[i] == results[i]);
        let rest = result_pairs(results.drop_last());
        match results.last() {
            Some(a) => {
                if a.pair().0 != url {
                    assert(rest.push(a.pair()).drop_last() == rest);
                }
            },
            None => {},
        }
    }
}

impl Default for EmbeddedArtworkBatch {
    fn default() -> (r: Self)
        ensures
            r.is_complete(),
            forall|url: Seq<char>| r.image(url) is None,
    {
        EmbeddedArtworkBatch { complete: true, images: Vec::new() }
    }
}

impl EmbeddedArtworkBatch {
    /// A batch holds only accepted images.
    #[verifier::type_invariant]
    spec fn holds_accepted(&self) -> bool {
        all_accepted(self.images.deep_view())
    }
}

impl EmbeddedArtworkBatch {
    /// Whether every requested artwork was embedded.
    pub closed spec fn is_complete(&self) -> bool {
        self.complete
    }

    /// The data URI embedded for a URL.
    pub closed spec fn image(&self, url: Seq<char>) -> Option<Seq<char>> {
        image_for(self.images.deep_view(), url)
    }

    /// The batch of the fetched artwork: `results[i]` is the artwork accepted for the
    /// `i`-th requested URL, or nothing where it could not be embedded.
    pub fn from_results(results: &Vec<Option<AcceptedArtwork>>) -> (r: Self)
        ensures
            r.is_complete() == forall|i: int| 0 <= i < results@.len() ==> (#[trigger] results@[i]) is Some,
            forall|url: Seq<char>| r.image(url) == image_for(result_pairs(results@), url),
            forall|i: int| 0 <= i < results@.len() && (#[trigger] results@[i]) is Some ==> r.image(
                results@[i]->0.pair().0,
            ) is Some,
    {
        let ghost rs = results@;
        let mut complete = true;
        let mut images: Vec<(String, String)> = Vec::new();
        let mut i: usize = 0;
        while i < results.len()
            invariant
                i <= results@.len(),
                rs == results@,
                complete == forall|k: int| 0 <= k < i ==> (#[trigger] results@[k]) is Some,
                images.deep_view() == result_pairs(rs.take(i as int)),
                all_accepted(images.deep_view()),
            decreases results.len() - i,
        {
            proof {
                assert(rs.take(i + 1).drop_last() == rs.take(i as int));
                assert(rs.take(i + 1).last() == rs[i as int]);
            }
            match &results[i] {
                Some(a) => {
                    proof {
                        use_type_invariant(a);
                    }
                    let ghost before = images.deep_view();
                    images.push((owned(a.url()), owned(a.uri())));
                    proof {
                        assert(images.deep_view() =~= before.push(a.pair()));
                        assert forall|k: int| 0 <= k < images.deep_view().len() implies accepted_pair(
                            #[trigger] images.deep_view()[k],
                        ) by {
                            if k < before.len() {
                                assert(images.deep_view()[k] == before[k]);
                            }
                        }
                    }
                },
                None => {
                    complete = false;
                },
            }
            i = i + 1;
        }
        proof {
            assert(rs.take(results@.len() as int) == rs);
            assert forall|k: int| 0 <= k < rs.len() && (#[trigger] rs[k]) is Some implies image_for(
                result_pairs(rs),
                rs[k]->0.pair().0,
            ) is Some by {
                lemma_result_found(rs, k);
            }
        }
        EmbeddedArtworkBatch { complete, images }
    }

    /// Whether every requested artwork was embedded.
    pub fn complete(&self) -> (r: bool)
        ensures
            r == self.is_complete(),
    {
        self.complete
    }

    /// The data URI embedded for a URL.
    pub fn href(&self, url: &str) -> (r: Option<String>)
        ensures
            r.deep_view() == self.image(url@),
            r matches Some(d) ==> trusted_url_spec(url@) && image_data_uri(d@),
    {
        proof {
            use_type_invariant(self);
            if self.image(url@) is Some {
                lemma_image_for_accepted(self.images.deep_view(), url@);
            }
        }
        let ghost all = self.images.deep_view();
        let mut k = self.images.len();
        proof {
            assert(all.take(k as int) == all);
        }
        while k > 0
            invariant
                k <= self.images@.len(),
                all == self.images.deep_view(),
                image_for(all, url@) == image_for(all.take(k as int), url@),
                image_for(all, url@) is Some ==> accepted_pair((url@, image_for(all, url@)->0)),
            decreases k,
        {
            proof {
                assert(all.take(k as int).drop_last() == all.take(k - 1));
                assert(all.take(k as int).last() == all[k - 1]);
            }
            if equals(self.images[k - 1].0.as_str(), url) {
                return Some(owned(self.images[k - 1].1.as_str()));
            }
            k = k - 1;
        }
        None
    }
}

/// The parts of a parsed URL that decide whether it may be fetched.
#[derive(Debug, PartialEq, Eq)]
pub struct UrlParts {
    pub scheme: String,
    pub username: String,
    pub has_password: bool,
    pub port: Option<u16>,
    pub host: Option<String>,
    pub path: String,
}

/// The value of a `UrlParts`.
pub struct UrlPartsModel {
    pub scheme: Seq<char>,
    pub username: Seq<char>,
    pub has_password: bool,
    pub port: Option<u16>,
    pub host: Option<Seq<char>>,
    pub path: Seq<char>,
}

impl DeepView for UrlParts {
    type V = UrlPartsModel;

    open spec fn deep_view(&self) -> UrlPartsModel {
        UrlPartsModel {
            scheme: self.scheme@,
            username: self.username@,
            has_password: self.has_password,
            port: self.port,
            host: self.host.deep_view(),
            path: self.path@,
        }
    }
}

/// What the URL Standard parser makes of a text: the parts of the absolute URL, or
/// nothing where the text is not one.
pub uninterp spec fn parsed_url(raw: Seq<char>) -> Option<UrlPartsModel>;

/// `reqwest::Url::parse` (the `url` crate's WHATWG URL parser): the scheme, user name,
/// whether a password is given, the port (none where it is the scheme's default), the
/// host and the path of the parsed URL. What the parser makes of a text is not stated
/// here beyond its being a function of the text.
#[verifier::external_body]
fn parse_url(raw: &str) -> (r: Option<UrlParts>)
    ensures
        r.deep_view() == parsed_url(raw@),
{
    match reqwest::Url::parse(raw) {
        Ok(url) => Some(UrlParts {
            scheme: url.scheme().to_owned(),
            username: url.username().to_owned(),
            has_password: url.password().is_some(),
            port: url.port(),
            host: url.host_str().map(|h| h.to_owned()),
            path: url.path().to_owned(),
        }),
        Err(_) => None,
    }
}

/// Whether the parts of a URL name a trusted artwork origin: HTTPS on its default port,
/// without credentials, on the Discord CDN's image paths, the Discord media proxy, or
/// Spotify's image CDN.
pub open spec fn trusted_parts(p: UrlPartsModel) -> bool {
    &&& p.scheme == "https"@
    &&& p.username.len() == 0
    &&& !p.has_password
    &&& (p.port matches Some(n) ==> n == 443)
    &&& p.host is Some
    &&& ({
        let host = p.host->0;
        let path = p.path;
        if host == "cdn.discordapp.com"@ {
            has_prefix(path, "/app-assets/"@) || has_prefix(path, "/app-icons/"@) || has_prefix(
                path,
                "/avatars/"@,
            ) || has_prefix(path, "/avatar-decoration-presets/"@) || has_prefix(
                path,
                "/guild-tag-badges/"@,
            ) || has_prefix(path, "/embed/avatars/"@)
        } else if host == "media.discordapp.net"@ {
            path.len() > 0
        } else if host == "i.scdn.co"@ {
            has_prefix(path, "/image/"@)
        } else {
            false
        }
    })
}

fn trusted(p: &UrlParts) -> (r: bool)
    ensures
        r == trusted_parts(p.deep_view()),
{
    if !equals(p.scheme.as_str(), "https") || !p.username.as_str().is_empty() || p.has_password {
        return false;
    }
    if let Some(port) = p.port {
        if port != 443 {
            return false;
        }
    }
    let host = match &p.host {
        Some(h) => h.as_str(),
        None => return false,
    };
    let path = p.path.as_str();
    if equals(host, "cdn.discordapp.com") {
        starts_with(path, "/app-assets/") || starts_with(path, "/app-icons/") || starts_with(
            path,
            "/avatars/",
        ) || starts_with(path, "/avatar-decoration-presets/") || starts_with(
            path,
            "/guild-tag-badges/",
        ) || starts_with(path, "/embed/avatars/")
    } else if equals(host, "media.discordapp.net") {
        !path.is_empty()
    } else if equals(host, "i.scdn.co") {
        starts_with(path, "/image/")
    } else {
        false
    }
}

/// The parsed artwork URL, where it names a trusted artwork origin.
pub fn trusted_artwork_url(raw_url: &str) -> (r: Option<UrlParts>)
    ensures
        match parsed_url(raw_url@) {
            Some(p) => if trusted_parts(p) {
                r matches Some(q) && q.deep_view() == p
            } else {
                r is None
            },
            None => r is None,
        },
{
    let parts = match parse_url(raw_url) {
        Some(p) => p,
        None => return None,
    };
    if trusted(&parts) {
        Some(parts)
    } else {
        None
    }
}

/// The media type of a `Content-Type` value: its part before any parameter, trimmed and
/// lower-cased; only PNG, JPEG, WebP and GIF are embedded.
pub open spec fn content_type_spec(raw: Seq<char>) -> Option<Seq<char>> {
    let t = lower_spec(trim_spec(split_spec(raw, ';')[0]));
    if t == "image/png"@ {
        Some("image/png"@)
    } else if t == "image/jpeg"@ || t == "image/jpg"@ {
        Some("image/jpeg"@)
    } else if t == "image/webp"@ {
        Some("image/webp"@)
    } else if t == "image/gif"@ {
        Some("image/gif"@)
    } else {
        None
    }
}

/// The media type under which an artwork is embedded, if its type is supported.
pub fn supported_content_type(raw: &str) -> (r: Option<&'static str>)
    ensures
        match content_type_spec(raw@) {
            Some(t) => r matches Some(s) && s@ == t,
            None => r is None,
        },
{
    let chars = chars_of(raw);
    let parts = split_bounds(&chars, ';');
    proof {
        crate::text::lemma_split_nonempty(raw@, ';');
    }
    let (from, to) = parts[0];
    let (a, b) = trim_bounds(&chars, from, to);
    let piece = string_of(&chars, a, b);
    let t = lower(piece.as_str());
    if equals(t.as_str(), "image/png") {
        Some("image/png")
    } else if equals(t.as_str(), "image/jpeg") || equals(t.as_str(), "image/jpg") {
        Some("image/jpeg")
    } else if equals(t.as_str(), "image/webp") {
        Some("image/webp")
    } else if equals(t.as_str(), "image/gif") {
        Some("image/gif")
    } else {
        None
    }
}

/// The most data URIs kept between renders; the cache is emptied when it is full.
pub const MAX_CACHE_ENTRIES: usize = 64;

/// Whether a response's declared length, if any, is within the embedding limit.
pub fn declared_length_allowed(declared: Option<u64>) -> (r: bool)
    ensures
        r == match declared {
            Some(n) => n <= MAX_ARTWORK_BYTES,
            None => true,
        },
{
    match declared {
        Some(n) => n <= MAX_ARTWORK_BYTES as u64,
        None => true,
    }
}

/// Whether a streamed chunk still fits the embedding limit after `received` bytes.
pub fn chunk_fits(received: usize, chunk: usize) -> (r: bool)
    ensures
        r == (received + chunk <= MAX_ARTWORK_BYTES),
{
    received.saturating_add(chunk) <= MAX_ARTWORK_BYTES
}

/// The data URI of a fetched image: its content type and its Base64 bytes; nothing for an
/// empty body.
pub fn data_uri(content_type: &str, bytes: &[u8]) -> (r: Option<String>)
    requires
        bytes@.len() <= MAX_ARTWORK_BYTES,
    ensures
        bytes@.len() == 0 ==> r is None,
        bytes@.len() > 0 ==> (r matches Some(u) && u@ == "data:"@ + content_type@ + ";base64,"@
            + crate::hero::base64_standard(bytes@)),
{
    if bytes.len() == 0 {
        return None;
    }
    let mut uri = owned("data:");
    push_str(&mut uri, content_type);
    push_str(&mut uri, ";base64,");
    let encoded = crate::hero::encode_base64(bytes);
    push_str(&mut uri, encoded.as_str());
    Some(uri)
}

/// Whether a URL names a trusted artwork origin.
pub open spec fn trusted_url_spec(url: Seq<char>) -> bool {
    match parsed_url(url) {
        Some(p) => trusted_parts(p),
        None => false,
    }
}

/// The data URI embedded for a fetched artwork: only for a URL of a trusted origin, a
/// successful status, a supported image type, and a body that is not empty and within
/// the size limit; nothing otherwise.
pub open spec fn accepted_artwork_spec(url: Seq<char>, status: u16, content_type: Option<Seq<char>>, bytes: Seq<u8>) -> Option<
    Seq<char>,
> {
    if trusted_url_spec(url) && 200 <= status <= 299 && 0 < bytes.len() <= MAX_ARTWORK_BYTES {
        match content_type {
            Some(raw) => match content_type_spec(raw) {
                Some(t) => Some("data:"@ + t + ";base64,"@ + crate::hero::base64_standard(bytes)),
                None => None,
            },
            None => None,
        }
    } else {
        None
    }
}

/// A data URI of one of the embedded image types: PNG, JPEG, WebP or GIF.
pub open spec fn image_data_uri(d: Seq<char>) -> bool {
    ||| "data:image/png;base64,"@.is_prefix_of(d)
    ||| "data:image/jpeg;base64,"@.is_prefix_of(d)
    ||| "data:image/webp;base64,"@.is_prefix_of(d)
    ||| "data:image/gif;base64,"@.is_prefix_of(d)
}

/// An artwork URL and its data URI as they may be embedded: the URL names a trusted
/// origin and the data URI is an image.
pub open spec fn accepted_pair(p: (Seq<char>, Seq<char>)) -> bool {
    trusted_url_spec(p.0) && image_data_uri(p.1)
}

/// Pairs that may all be embedded.
pub open spec fn all_accepted(pairs: Seq<(Seq<char>, Seq<char>)>) -> bool {
    forall|i: int| 0 <= i < pairs.len() ==> accepted_pair(#[trigger] pairs[i])
}

proof fn lemma_prefixed(prefix: Seq<char>, rest: Seq<char>)
    ensures
        prefix.is_prefix_of(prefix + rest),
{
    assert((prefix + rest).subrange(0, prefix.len() as int) =~= prefix);
}

/// An accepted artwork's data URI is an image.
proof fn lemma_accepted_is_image(url: Seq<char>, status: u16, content_type: Option<Seq<char>>, bytes: Seq<u8>)
    requires
        accepted_artwork_spec(url, status, content_type, bytes) is Some,
    ensures
        accepted_pair((url, accepted_artwork_spec(url, status, content_type, bytes)->0)),
{
    let t = content_type_spec(content_type->0)->0;
    let b = crate::hero::base64_standard(bytes);
    reveal_strlit("data:");
    reveal_strlit(";base64,");
    reveal_strlit("image/png");
    reveal_strlit("image/jpeg");
    reveal_strlit("image/webp");
    reveal_strlit("image/gif");
    reveal_strlit("data:image/png;base64,");
    reveal_strlit("data:image/jpeg;base64,");
    reveal_strlit("data:image/webp;base64,");
    reveal_strlit("data:image/gif;base64,");
    let prefix = "data:"@ + t + ";base64,"@;
    assert("data:"@ + t + ";base64,"@ + b == prefix + b);
    lemma_prefixed(prefix, b);
    if t == "image/png"@ {
        assert(prefix =~= "data:image/png;base64,"@);
    } else if t == "image/jpeg"@ {
        assert(prefix =~= "data:image/jpeg;base64,"@);
    } else if t == "image/webp"@ {
        assert(prefix =~= "data:image/webp;base64,"@);
    } else {
        assert(prefix =~= "data:image/gif;base64,"@);
    }
}

/// An artwork that may be embedded: the URL it was fetched from, of a trusted origin,
/// and its data URI, an image. Only `accept_artwork` and the artwork cache make one.
#[derive(Debug)]
pub struct AcceptedArtwork {
    url: String,
    uri: String,
}

impl AcceptedArtwork {
    #[verifier::type_invariant]
    spec fn accepted(&self) -> bool {
        accepted_pair((self.url@, self.uri@))
    }

    /// The artwork URL and its data URI.
    pub closed spec fn pair(&self) -> (Seq<char>, Seq<char>) {
        (self.url@, self.uri@)
    }

    /// The URL the artwork was fetched from.
    pub fn url(&self) -> (r: &str)
        ensures
            r@ == self.pair().0,
            trusted_url_spec(r@),
    {
        proof {
            use_type_invariant(self);
        }
        self.url.as_str()
    }

    /// The data URI of the artwork.
    pub fn uri(&self) -> (r: &str)
        ensures
            r@ == self.pair().1,
            image_data_uri(r@),
    {
        proof {
            use_type_invariant(self);
        }
        self.uri.as_str()
    }
}

/// Decides whether a fetched artwork is embedded, and as which data URI.
pub fn accept_artwork(url: &str, status: u16, content_type: Option<&str>, bytes: &[u8]) -> (r: Option<AcceptedArtwork>)
    ensures
        match accepted_artwork_spec(
            url@,
            status,
            match content_type {
                Some(c) => Some(c@),
                None => None,
            },
            bytes@,
        ) {
            Some(d) => r matches Some(a) && a.pair() == (url@, d),
            None => r is None,
        },
{
    let ghost ct = match content_type {
        Some(c) => Some(c@),
        None => None,
    };
    match trusted_artwork_url(url) {
        None => return None,
        Some(_) => {},
    }
    if !(200 <= status && status <= 299) || bytes.len() == 0 || bytes.len() > MAX_ARTWORK_BYTES {
        return None;
    }
    let raw = match content_type {
        Some(c) => c,
        None => return None,
    };
    let t = match supported_content_type(raw) {
        Some(t) => t,
        None => return None,
    };
    match data_uri(t, bytes) {
        Some(uri) => {
            proof {
                lemma_accepted_is_image(url@, status, ct, bytes@);
            }
            Some(AcceptedArtwork { url: owned(url), uri })
        },
        None => None,
    }
}

/// Whether the keys of some pairs are distinct.
pub open spec fn distinct_keys(pairs: Seq<(Seq<char>, Seq<char>)>) -> bool {
    forall|i: int, j: int| 0 <= i < j < pairs.len() ==> (#[trigger] pairs[i]).0 != (#[trigger] pairs[j]).0
}

/// The data URIs fetched by earlier renders, by artwork URL.
pub struct ArtworkCache {
    entries: Vec<(String, String)>,
}

impl ArtworkCache {
    #[verifier::type_invariant]
    spec fn wf(&self) -> bool {
        &&& distinct_keys(self.entries.deep_view())
        &&& self.entries@.len() <= MAX_CACHE_ENTRIES
        &&& all_accepted(self.entries.deep_view())
    }

    /// The cached data URI of a URL.
    pub closed spec fn lookup(&self, url: Seq<char>) -> Option<Seq<char>> {
        image_for(self.entries.deep_view(), url)
    }

    /// The number of cached URLs.
    pub closed spec fn size(&self) -> nat {
        self.entries@.len()
    }

    pub fn new() -> (r: Self)
        ensures
            r.size() == 0,
            forall|url: Seq<char>| #[trigger] r.lookup(url) is None,
    {
        let r = ArtworkCache { entries: Vec::new() };
        proof {
            assert(r.entries.deep_view() =~= Seq::<(Seq<char>, Seq<char>)>::empty());
        }
        r
    }

    /// The cached artwork of a URL.
    pub fn get(&self, url: &str) -> (r: Option<AcceptedArtwork>)
        ensures
            match self.lookup(url@) {
                Some(d) => r matches Some(a) && a.pair() == (url@, d),
                None => r is None,
            },
    {
        proof {
            use_type_invariant(self);
        }
        let batch = EmbeddedArtworkBatch { complete: true, images: clone_pairs(&self.entries) };
        match batch.href(url) {
            Some(uri) => Some(AcceptedArtwork { url: owned(url), uri }),
            None => None,
        }
    }

    /// Keeps a data URI; a full cache is emptied first.
    pub fn insert(&mut self, artwork: &AcceptedArtwork)
        ensures
            final(self).lookup(artwork.pair().0) == Some(artwork.pair().1),
            old(self).size() >= MAX_CACHE_ENTRIES ==> final(self).size() == 1,
            old(self).size() < MAX_CACHE_ENTRIES ==> forall|other: Seq<char>|
                other != artwork.pair().0 ==> #[trigger] final(self).lookup(other) == old(self).lookup(other),
    {
        proof {
            use_type_invariant(&*self);
            use_type_invariant(artwork);
        }
        let url = artwork.url();
        let uri = artwork.uri();
        let mut entries: Vec<(String, String)> = Vec::new();
        std::mem::swap(&mut entries, &mut self.entries);
        if entries.len() >= MAX_CACHE_ENTRIES {
            entries = Vec::new();
            proof {
                assert(entries.deep_view() =~= Seq::<(Seq<char>, Seq<char>)>::empty());
            }
        }
        let ghost before = entries.deep_view();
        let mut k: usize = 0;
        while k < entries.len()
            invariant
                k <= entries@.len(),
                before == entries.deep_view(),
                forall|j: int| 0 <= j < k ==> (#[trigger] before[j]).0 != url@,
            ensures
                k <= entries@.len(),
                before == entries.deep_view(),
                forall|j: int| 0 <= j < k ==> (#[trigger] before[j]).0 != url@,
                k < entries@.len() ==> before[k as int].0 == url@,
            decreases entries.len() - k,
        {
            assert(before[k as int] == (entries@[k as int].0@, entries@[k as int].1@));
            if equals(entries[k].0.as_str(), url) {
                break;
            }
            k = k + 1;
        }
        let pair = (owned(url), owned(uri));
        if k < entries.len() {
            entries.set(k, pair);
            proof {
                let after = entries.deep_view();
                assert(after =~= before.update(k as int, (url@, uri@)));
                lemma_image_for_update(before, k as int, url@, uri@);
            }
        } else {
            entries.push(pair);
            proof {
                let after = entries.deep_view();
                assert(after =~= before.push((url@, uri@)));
                assert(after.drop_last() =~= before);
            }
        }
        self.entries = entries;
    }
}

fn clone_pairs(pairs: &Vec<(String, String)>) -> (r: Vec<(String, String)>)
    ensures
        r.deep_view() == pairs.deep_view(),
{
    let mut r: Vec<(String, String)> = Vec::new();
    let mut i: usize = 0;
    while i < pairs.len()
        invariant
            i <= pairs@.len(),
            r.deep_view() =~= pairs.deep_view().take(i as int),
        decreases pairs.len() - i,
    {
        let ghost before = r.deep_view();
        r.push((owned(pairs[i].0.as_str()), owned(pairs[i].1.as_str())));
        proof {
            assert(r.deep_view() =~= before.push(pairs.deep_view()[i as int]));
            assert(pairs.deep_view().take(i + 1) =~= pairs.deep_view().take(i as int).push(pairs.deep_view()[i as int]));
        }
        i = i + 1;
    }
    proof {
        assert(pairs.deep_view().take(pairs@.len() as int) =~= pairs.deep_view());
    }
    r
}

/// Replacing the value of the only pair of a key changes the lookup of that key alone.
proof fn lemma_image_for_update(pairs: Seq<(Seq<char>, Seq<char>)>, k: int, url: Seq<char>, uri: Seq<char>)
    requires
        0 <= k < pairs.len(),
        pairs[k].0 == url,
        distinct_keys(pairs),
    ensures
        image_for(pairs.update(k, (url, uri)), url) == Some(uri),
        forall|other: Seq<char>| other != url ==> #[trigger] image_for(pairs.update(k, (url, uri)), other)
            == image_for(pairs, other),
        distinct_keys(pairs.update(k, (url, uri))),
    decreases pairs.len(),
{
    let updated = pairs.update(k, (url, uri));
    if k == pairs.len() - 1 {
        assert(updated.drop_last() =~= pairs.drop_last());
        assert forall|other: Seq<char>| other != url implies #[trigger] image_for(updated, other) == image_for(
            pairs,
            other,
        ) by {
            assert(updated.last().0 == url);
            assert(pairs.last().0 == url);
        }
    } else {
        assert(updated.drop_last() =~= pairs.drop_last().update(k, (url, uri)));
        assert(pairs.last().0 != url) by {
            assert(pairs[k].0 != pairs[pairs.len() - 1].0);
        }
        assert(updated.last() == pairs.last());
        lemma_image_for_update(pairs.drop_last(), k, url, uri);
        assert forall|other: Seq<char>| other != url implies #[trigger] image_for(updated, other) == image_for(
            pairs,
            other,
        ) by {
            assert(image_for(pairs.drop_last().update(k, (url, uri)), other) == image_for(pairs.drop_last(), other));
        }
    }
    assert forall|i: int, j: int| 0 <= i < j < updated.len() implies (#[trigger] updated[i]).0 != (
    #[trigger] updated[j]).0 by {
        assert(pairs[i].0 != pairs[j].0);
    }
}

} // verus!
