//! Laws of the whole service, stated over the served response.

use vstd::prelude::*;

verus! {

use crate::handlers::{
    spec_answer, spec_debate_answers, spec_intercept, spec_json_utf8, spec_serve,
};
use crate::http::{SpecBody, SpecResponse};
use crate::json::{lemma_unescape_escape, spec_api_json, spec_escape, spec_unescape};
use crate::templates::{spec_debate_page, spec_debate_prefix};

/// Law: for every submitted text, serving `GET /debate` with it yields
/// status 200 and a page that embeds the text verbatim, as one contiguous
/// run of the body.
pub proof fn lemma_debate_served_verbatim(q: Seq<char>, now_secs: u64, elapsed_micros: u128)
    ensures
        ({
            let r = spec_serve("/debate"@, Option::Some(q), now_secs, elapsed_micros);
            let p = spec_debate_page(q, spec_debate_answers());
            r.status == 200 && r.body == SpecBody::Page(p) && exists|i: int|
                0 <= i && i + q.len() <= p.len() && #[trigger] p.subrange(i, i + q.len() as int)
                    == q
        }),
{
    reveal_strlit("/");
    reveal_strlit("/debate");
    assert("/"@.len() == 1);
    assert("/debate"@.len() == 7);
    let r = spec_serve("/debate"@, Option::Some(q), now_secs, elapsed_micros);
    let p = spec_debate_page(q, spec_debate_answers());
    assert(r.status == 200);
    assert(r.body == SpecBody::Page(p));
    let i0 = spec_debate_prefix().len() as int;
    assert(p.subrange(i0, i0 + q.len() as int) =~= q);
    assert(exists|i: int|
        0 <= i && i + q.len() <= p.len() && #[trigger] p.subrange(i, i + q.len() as int) == q);
}

/// Law: for every submitted text, serving `GET /api` with it yields status
/// 200, the JSON content type, and the JSON object built from the text, the
/// elapsed measurement and the fixed answer; and the escaping that object
/// uses loses nothing, so the debate field decodes to exactly the text.
pub proof fn lemma_api_served_lossless(q: Seq<char>, now_secs: u64, elapsed_micros: u128)
    ensures
        ({
            let r = spec_serve("/api"@, Option::Some(q), now_secs, elapsed_micros);
            r.status == 200 && r.content_type == Option::Some(spec_json_utf8()) && r.body
                == SpecBody::Page(spec_api_json(q, elapsed_micros, spec_answer()))
        }),
        spec_unescape(spec_escape(q)) == Option::Some(q),
        spec_unescape(spec_escape(spec_answer())) == Option::Some(spec_answer()),
{
    reveal_strlit("/");
    reveal_strlit("/debate");
    reveal_strlit("/api");
    assert("/"@.len() == 1);
    assert("/debate"@.len() == 7);
    assert("/api"@.len() == 4);
    lemma_unescape_escape(q);
    lemma_unescape_escape(spec_answer());
}

/// Law: the interceptor preserves the status code and every header of the
/// response it rewrites; a response that carries neither status 404 nor 500
/// passes through untouched.
pub proof fn lemma_intercept_preserves(r: SpecResponse)
    ensures
        spec_intercept(r).status == r.status,
        spec_intercept(r).expires == r.expires,
        spec_intercept(r).reason == r.reason,
        r.status != 404 && r.status != 500 ==> spec_intercept(r) == r,
{
}

/// Law: serving is deterministic. Identical inputs yield the identical
/// response, and the elapsed measurement can change nothing but the body of
/// a successful API answer: status, content type, expiry and reason phrase
/// never depend on it.
pub proof fn lemma_serve_idempotent(
    path: Seq<char>,
    debate: Option<Seq<char>>,
    now_secs: u64,
    e1: u128,
    e2: u128,
)
    ensures
        spec_serve(path, debate, now_secs, e1).status == spec_serve(path, debate, now_secs, e2).status,
        spec_serve(path, debate, now_secs, e1).content_type == spec_serve(
            path,
            debate,
            now_secs,
            e2,
        ).content_type,
        spec_serve(path, debate, now_secs, e1).expires == spec_serve(path, debate, now_secs, e2).expires,
        spec_serve(path, debate, now_secs, e1).reason == spec_serve(path, debate, now_secs, e2).reason,
        !(path == "/api"@ && debate is Some) ==> spec_serve(path, debate, now_secs, e1)
            == spec_serve(path, debate, now_secs, e2),
{
}

} // verus!
