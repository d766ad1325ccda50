//! The profile hero: the authored banner, embedded in an SVG document that never
//! changes with the presence.
use vstd::prelude::*;

use crate::text::{decimal, decimal_spec, owned, push_str};

verus! {

pub const HERO_RENDERER_REVISION: u64 = 3;
pub const HERO_WIDTH: u64 = 2048;
pub const HERO_HEIGHT: u64 = 682;

/// The character of a six-bit value in the standard Base64 alphabet: `A`-`Z`, `a`-`z`,
/// `0`-`9`, `+` and `/`.
pub open spec fn base64_char(n: int) -> char {
    if n < 26 {
        ('A' as int + n) as char
    } else if n < 52 {
        ('a' as int + (n - 26)) as char
    } else if n < 62 {
        ('0' as int + (n - 52)) as char
    } else if n == 62 {
        '+'
    } else {
        '/'
    }
}

/// The standard Base64 encoding with padding: each three bytes become four characters,
/// six bits each, and a last group of one or two bytes is padded with `=`.
pub open spec fn base64_standard(bytes: Seq<u8>) -> Seq<char>
    decreases bytes.len(),
{
    if bytes.len() == 0 {
        Seq::empty()
    } else if bytes.len() == 1 {
        let n = bytes[0] as int;
        seq![base64_char(n / 4), base64_char((n % 4) * 16), '=', '=']
    } else if bytes.len() == 2 {
        let n = bytes[0] as int * 256 + bytes[1] as int;
        seq![base64_char(n / 1024), base64_char((n / 16) % 64), base64_char((n % 16) * 4), '=']
    } else {
        let n = bytes[0] as int * 65536 + bytes[1] as int * 256 + bytes[2] as int;
        seq![base64_char(n / 262144), base64_char((n / 4096) % 64), base64_char((n / 64) % 64), base64_char(n % 64)]
            + base64_standard(bytes.skip(3))
    }
}

#[verifier::external_body]
pub(crate) fn encode_base64(bytes: &[u8]) -> (r: String)
    requires
        bytes@.len() <= usize::MAX / 4 * 3,
    ensures
        r@ == base64_standard(bytes@),
{
    base64::Engine::encode(&base64::engine::general_purpose::STANDARD, bytes)
}

/// The rendered hero document.
#[derive(Debug)]
pub struct HeroDocument {
    body: String,
    etag: String,
    stream_revision: u64,
}

impl HeroDocument {
    pub closed spec fn body_view(&self) -> Seq<char> {
        self.body@
    }

    pub closed spec fn etag_view(&self) -> Seq<char> {
        self.etag@
    }

    pub closed spec fn revision_view(&self) -> u64 {
        self.stream_revision
    }

    pub fn body(&self) -> (r: &str)
        ensures
            r@ == self.body_view(),
    {
        self.body.as_str()
    }

    pub fn etag(&self) -> (r: &str)
        ensures
            r@ == self.etag_view(),
    {
        self.etag.as_str()
    }

    pub fn stream_revision(&self) -> (r: u64)
        ensures
            r == self.revision_view(),
    {
        self.stream_revision
    }
}

/// The hero document around a background image reference.
pub open spec fn hero_svg_spec(background_href: Seq<char>) -> Seq<char> {
    "<svg xmlns=\"http://www.w3.org/2000/svg\" width=\""@ + decimal_spec(HERO_WIDTH as nat)
        + "\" height=\""@ + decimal_spec(HERO_HEIGHT as nat) + "\" viewBox=\"0 0 "@ + decimal_spec(
        HERO_WIDTH as nat,
    ) + " "@ + decimal_spec(HERO_HEIGHT as nat)
        + "\" role=\"img\" aria-labelledby=\"hero-title hero-desc\"><title id=\"hero-title\">ItzHerzchen profile hero</title><desc id=\"hero-desc\">Final authored ItzHerzchen profile banner.</desc><image href=\""@
        + background_href + "\" x=\"0\" y=\"0\" width=\""@ + decimal_spec(HERO_WIDTH as nat)
        + "\" height=\""@ + decimal_spec(HERO_HEIGHT as nat)
        + "\" preserveAspectRatio=\"xMidYMid meet\"/></svg>"@
}

/// The hero document around a background image reference.
pub fn render_hero(background_href: &str) -> (r: String)
    ensures
        r@ == hero_svg_spec(background_href@),
{
    let width = decimal(HERO_WIDTH);
    let height = decimal(HERO_HEIGHT);
    let mut r = owned("<svg xmlns=\"http://www.w3.org/2000/svg\" width=\"");
    push_str(&mut r, width.as_str());
    push_str(&mut r, "\" height=\"");
    push_str(&mut r, height.as_str());
    push_str(&mut r, "\" viewBox=\"0 0 ");
    push_str(&mut r, width.as_str());
    push_str(&mut r, " ");
    push_str(&mut r, height.as_str());
    push_str(
        &mut r,
        "\" role=\"img\" aria-labelledby=\"hero-title hero-desc\"><title id=\"hero-title\">ItzHerzchen profile hero</title><desc id=\"hero-desc\">Final authored ItzHerzchen profile banner.</desc><image href=\"",
    );
    push_str(&mut r, background_href);
    push_str(&mut r, "\" x=\"0\" y=\"0\" width=\"");
    push_str(&mut r, width.as_str());
    push_str(&mut r, "\" height=\"");
    push_str(&mut r, height.as_str());
    push_str(&mut r, "\" preserveAspectRatio=\"xMidYMid meet\"/></svg>");
    r
}

/// The static hero, rendered once from the banner image.
pub struct HeroRenderer {
    document: HeroDocument,
}

/// The hero's entity tag: fixed, since the body does not depend on the presence.
pub open spec fn hero_etag_spec() -> Seq<char> {
    "\"profile-hero-v"@ + decimal_spec(HERO_RENDERER_REVISION as nat) + "-static\""@
}

impl HeroRenderer {
    /// Every hero document carries the fixed tag and stream revision 0.
    #[verifier::type_invariant]
    spec fn static_document(&self) -> bool {
        &&& self.document.etag@ == hero_etag_spec()
        &&& self.document.stream_revision == 0
    }

    pub closed spec fn document_body(&self) -> Seq<char> {
        self.document.body@
    }

    pub closed spec fn document_etag(&self) -> Seq<char> {
        self.document.etag@
    }

    pub closed spec fn document_revision(&self) -> u64 {
        self.document.stream_revision
    }

    /// Renders the hero around the PNG banner, embedded as a data URI.
    pub fn new(banner_png: &[u8]) -> (r: Self)
        requires
            banner_png@.len() <= usize::MAX / 4 * 3,
        ensures
            r.document_body() == hero_svg_spec(
                "data:image/png;base64,"@ + base64_standard(banner_png@),
            ),
            r.document_etag() == hero_etag_spec(),
            r.document_revision() == 0,
    {
        let mut href = owned("data:image/png;base64,");
        let encoded = encode_base64(banner_png);
        push_str(&mut href, encoded.as_str());
        let body = render_hero(href.as_str());
        let mut etag = owned("\"profile-hero-v");
        let revision = decimal(HERO_RENDERER_REVISION);
        push_str(&mut etag, revision.as_str());
        push_str(&mut etag, "-static\"");
        HeroRenderer { document: HeroDocument { body, etag, stream_revision: 0 } }
    }

    /// The hero document; it does not depend on the presence.
    /// The hero document. It is the same document whatever the presence is: its tag is
    /// the fixed hero tag and its stream revision is 0.
    pub fn render(&self) -> (r: &HeroDocument)
        ensures
            r.body_view() == self.document_body(),
            r.etag_view() == self.document_etag(),
            r.revision_view() == self.document_revision(),
            r.etag_view() == hero_etag_spec(),
            r.revision_view() == 0,
    {
        proof {
            use_type_invariant(self);
        }
        &self.document
    }
}

} // verus!
