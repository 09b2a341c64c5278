//! The static asset registry: a fixed, read-only table from file name to
//! content bytes and MIME type. It holds the site logo and the stylesheet;
//! nothing is ever added or removed while the process runs.

use vstd::prelude::*;

verus! {

use crate::strutil::str_eq;
use vstd::string::StrSliceExecFns;
use vstd::string::StringExecFns;
use vstd::string::StringSliceAdditionalSpecFns;

/// One entry of the registry: content bytes and a MIME type.
#[derive(Debug, PartialEq, Eq)]
pub struct StaticAsset {
    pub content: Vec<u8>,
    pub mime: String,
}

/// The bytes of the logo, a 1 x 1 transparent PNG.
pub open spec fn spec_logo_png() -> Seq<u8> {
    seq![
        0x89u8, 0x50, 0x4e, 0x47, 0x0d, 0x0a, 0x1a, 0x0a, 0x00, 0x00, 0x00, 0x0d, 0x49, 0x48,
        0x44, 0x52, 0x00, 0x00, 0x00, 0x01, 0x00, 0x00, 0x00, 0x01, 0x08, 0x06, 0x00, 0x00,
        0x00, 0x1f, 0x15, 0xc4, 0x89, 0x00, 0x00, 0x00, 0x0a, 0x49, 0x44, 0x41, 0x54, 0x78,
        0x9c, 0x63, 0x00, 0x01, 0x00, 0x00, 0x05, 0x00, 0x01, 0x0d, 0x0a, 0x2d, 0xb4, 0x00,
        0x00, 0x00, 0x00, 0x49, 0x45, 0x4e, 0x44, 0xae, 0x42, 0x60, 0x82,
    ]
}

/// The logo as a fresh vector of bytes.
pub fn logo_png() -> (r: Vec<u8>)
    ensures
        r@ == spec_logo_png(),
{
    let r: Vec<u8> = vec![
        0x89u8, 0x50, 0x4e, 0x47, 0x0d, 0x0a, 0x1a, 0x0a, 0x00, 0x00, 0x00, 0x0d, 0x49, 0x48,
        0x44, 0x52, 0x00, 0x00, 0x00, 0x01, 0x00, 0x00, 0x00, 0x01, 0x08, 0x06, 0x00, 0x00,
        0x00, 0x1f, 0x15, 0xc4, 0x89, 0x00, 0x00, 0x00, 0x0a, 0x49, 0x44, 0x41, 0x54, 0x78,
        0x9c, 0x63, 0x00, 0x01, 0x00, 0x00, 0x05, 0x00, 0x01, 0x0d, 0x0a, 0x2d, 0xb4, 0x00,
        0x00, 0x00, 0x00, 0x49, 0x45, 0x4e, 0x44, 0xae, 0x42, 0x60, 0x82,
    ];
    proof {
        assert(r@ =~= spec_logo_png());
    }
    r
}

/// The bytes of the compiled stylesheet.
pub open spec fn spec_style_css() -> Seq<u8> {
    "body{font-family:sans-serif;margin:2em auto;max-width:40em}h1{color:#223}ul{list-style:square}\n".spec_bytes()
}

/// The stylesheet as a fresh vector of bytes.
pub fn style_css() -> (r: Vec<u8>)
    ensures
        r@ == spec_style_css(),
{
    "body{font-family:sans-serif;margin:2em auto;max-width:40em}h1{color:#223}ul{list-style:square}\n".as_bytes_vec()
}

/// What the registry holds under each name: the two bundled assets and
/// nothing else.
pub open spec fn spec_static_get(name: Seq<char>) -> Option<(Seq<u8>, Seq<char>)> {
    if name == "logo.png"@ {
        Option::Some((spec_logo_png(), "image/png"@))
    } else if name == "style.css"@ {
        Option::Some((spec_style_css(), "text/css"@))
    } else {
        Option::None
    }
}

/// Looks a file name up in the registry.
pub fn static_get(name: &str) -> (r: Option<StaticAsset>)
    ensures
        match r {
            Option::Some(entry) => spec_static_get(name@) == Option::Some(
                (entry.content@, entry.mime@),
            ),
            Option::None => spec_static_get(name@) == Option::None::<(Seq<u8>, Seq<char>)>,
        },
{
    if str_eq(name, "logo.png") {
        Option::Some(StaticAsset { content: logo_png(), mime: String::from_str("image/png") })
    } else if str_eq(name, "style.css") {
        Option::Some(StaticAsset { content: style_css(), mime: String::from_str("text/css") })
    } else {
        Option::None
    }
}

} // verus!
