//! The route handlers, the error interceptor and the dispatcher.
//!
//! Every function here is pure: it takes the request data the HTTP layer
//! extracted (path, optional `debate` query parameter) together with the two
//! clock readings the service uses (the current time in seconds for the
//! `Expires` header, the measured handler time in microseconds for the API
//! body), and returns a fully determined [`Response`].

use vstd::prelude::*;

verus! {

use crate::assets::{spec_static_get, static_get};
use crate::http::{RespBody, Response, SpecBody, SpecResponse};
use crate::json::{spec_api_json, APIResponse};
use crate::strutil::{str_eq, str_starts_with};
use crate::templates::{error_html, spec_error_page, spec_home_page, spec_debate_page, debate_html, home_html};
use vstd::string::StrSliceExecFns;
use vstd::string::StringExecFns;

/// How long a static asset may be cached: 180 days, in seconds.
pub const FAR_EXPIRES_SECS: u64 = 180 * 24 * 60 * 60;

/// The content type of the rendered pages that the interceptor forces.
pub open spec fn spec_html_utf8() -> Seq<char> {
    "text/html; charset=utf-8"@
}

/// The content type of the API bodies.
pub open spec fn spec_json_utf8() -> Seq<char> {
    "application/json; charset=utf-8"@
}

/// The fixed answer to every debate.
pub open spec fn spec_answer() -> Seq<char> {
    "Cuill\u{e8}re."@
}

/// The answer list the debate page is rendered with.
pub open spec fn spec_debate_answers() -> Seq<Seq<char>> {
    seq![spec_answer()]
}

/// The home endpoint: always the home page, status 200.
pub open spec fn spec_home_response() -> SpecResponse {
    SpecResponse {
        status: 200,
        content_type: Option::None,
        expires: Option::None,
        reason: Option::None,
        body: SpecBody::Page(spec_home_page()),
    }
}

/// Handles `GET /`.
pub fn home_response() -> (r: Response)
    ensures
        r@ == spec_home_response(),
{
    Response {
        status: 200,
        content_type: Option::None,
        expires: Option::None,
        reason: Option::None,
        body: RespBody::Page(home_html()),
    }
}

/// The debate endpoint on a present parameter: the debate page, status 200.
pub open spec fn spec_debate_response(q: Seq<char>) -> SpecResponse {
    SpecResponse {
        status: 200,
        content_type: Option::None,
        expires: Option::None,
        reason: Option::None,
        body: SpecBody::Page(spec_debate_page(q, spec_debate_answers())),
    }
}

/// Handles `GET /debate` when the `debate` parameter is present.
pub fn debate_response(debate: &str) -> (r: Response)
    ensures
        r@ == spec_debate_response(debate@),
{
    let answers: Vec<String> = vec![String::from_str("Cuill\u{e8}re.")];
    proof {
        assert(answers.deep_view() =~= spec_debate_answers());
    }
    let page = debate_html(debate, &answers);
    Response {
        status: 200,
        content_type: Option::None,
        expires: Option::None,
        reason: Option::None,
        body: RespBody::Page(page),
    }
}

/// The body the debate endpoint answers with when the parameter is missing
/// and the request is rejected before any handler runs.
pub open spec fn spec_missing_query_body() -> Seq<char> {
    "Requ\u{ea}te invalide : param\u{e8}tre \"debate\" manquant."@
}

/// The rejection of `GET /debate` without the required parameter.
pub open spec fn spec_missing_query_response() -> SpecResponse {
    SpecResponse {
        status: 400,
        content_type: Option::Some("text/plain; charset=utf-8"@),
        expires: Option::None,
        reason: Option::None,
        body: SpecBody::Page(spec_missing_query_body()),
    }
}

/// Rejects `GET /debate` when the `debate` parameter is missing.
pub fn missing_query_response() -> (r: Response)
    ensures
        r@ == spec_missing_query_response(),
{
    Response {
        status: 400,
        content_type: Option::Some(String::from_str("text/plain; charset=utf-8")),
        expires: Option::None,
        reason: Option::None,
        body: RespBody::Page(
            String::from_str("Requ\u{ea}te invalide : param\u{e8}tre \"debate\" manquant."),
        ),
    }
}

/// The body of the API's rejection when the parameter is missing.
pub open spec fn spec_api_error_body() -> Seq<char> {
    "{\"error\":\"Passez moi un query param \\\"debate\\\" pour que je puisse faire quelque chose\"}"@
}

/// The API endpoint: echo and answer as JSON on a present parameter, a
/// structured JSON error on a missing one.
pub open spec fn spec_api_response(debate: Option<Seq<char>>, elapsed_micros: u128) -> SpecResponse {
    match debate {
        Option::Some(q) => SpecResponse {
            status: 200,
            content_type: Option::Some(spec_json_utf8()),
            expires: Option::None,
            reason: Option::None,
            body: SpecBody::Page(spec_api_json(q, elapsed_micros, spec_answer())),
        },
        Option::None => SpecResponse {
            status: 400,
            content_type: Option::Some(spec_json_utf8()),
            expires: Option::None,
            reason: Option::None,
            body: SpecBody::Page(spec_api_error_body()),
        },
    }
}

/// Handles `GET /api`. The elapsed measurement is taken by the caller
/// around the answer computation and only flows into the body.
pub fn api_response(debate: Option<&str>, elapsed_micros: u128) -> (r: Response)
    ensures
        r@ == spec_api_response(debate.deep_view(), elapsed_micros),
{
    match debate {
        Option::Some(q) => {
            let payload = APIResponse {
                debate: String::from_str(q),
                elapsed_time: elapsed_micros,
                answer: String::from_str("Cuill\u{e8}re."),
            };
            let body = payload.to_json();
            Response {
                status: 200,
                content_type: Option::Some(String::from_str("application/json; charset=utf-8")),
                expires: Option::None,
                reason: Option::None,
                body: RespBody::Page(body),
            }
        },
        Option::None => Response {
            status: 400,
            content_type: Option::Some(String::from_str("application/json; charset=utf-8")),
            expires: Option::None,
            reason: Option::None,
            body: RespBody::Page(
                String::from_str(
                    "{\"error\":\"Passez moi un query param \\\"debate\\\" pour que je puisse faire quelque chose\"}",
                ),
            ),
        },
    }
}

/// The static endpoint: a found asset with its MIME type and a far-future
/// expiry, or a bare 404 with a reason phrase and an empty body.
pub open spec fn spec_static_response(name: Seq<char>, now_secs: u64) -> SpecResponse {
    match spec_static_get(name) {
        Option::Some(entry) => SpecResponse {
            status: 200,
            content_type: Option::Some(entry.1),
            expires: Option::Some((now_secs + FAR_EXPIRES_SECS) as u64),
            reason: Option::None,
            body: SpecBody::Raw(entry.0),
        },
        Option::None => SpecResponse {
            status: 404,
            content_type: Option::None,
            expires: Option::None,
            reason: Option::Some("No such static file."@),
            body: SpecBody::Raw(Seq::empty()),
        },
    }
}

/// Handles `GET /static/{filename}`.
pub fn static_response(name: &str, now_secs: u64) -> (r: Response)
    requires
        now_secs + FAR_EXPIRES_SECS <= u64::MAX,
    ensures
        r@ == spec_static_response(name@, now_secs),
{
    match static_get(name) {
        Option::Some(entry) => Response {
            status: 200,
            content_type: Option::Some(entry.mime),
            expires: Option::Some(now_secs + FAR_EXPIRES_SECS),
            reason: Option::None,
            body: RespBody::Raw(entry.content),
        },
        Option::None => {
            let r = Response {
                status: 404,
                content_type: Option::None,
                expires: Option::None,
                reason: Option::Some(String::from_str("No such static file.")),
                body: RespBody::Raw(Vec::new()),
            };
            proof {
                assert(r@ =~= spec_static_response(name@, now_secs));
            }
            r
        },
    }
}

/// What an unmatched route produces before interception.
pub open spec fn spec_not_found_response() -> SpecResponse {
    SpecResponse {
        status: 404,
        content_type: Option::None,
        expires: Option::None,
        reason: Option::None,
        body: SpecBody::Raw(Seq::empty()),
    }
}

/// Answers a request whose path matches no route.
pub fn not_found_response() -> (r: Response)
    ensures
        r@ == spec_not_found_response(),
{
    let r = Response {
        status: 404,
        content_type: Option::None,
        expires: Option::None,
        reason: Option::None,
        body: RespBody::Raw(Vec::new()),
    };
    proof {
        assert(r@ =~= spec_not_found_response());
    }
    r
}

/// The title and message of the not-found page.
pub open spec fn spec_title_404() -> Seq<char> {
    "Page introuvable"@
}

/// The explanatory message of the not-found page.
pub open spec fn spec_msg_404() -> Seq<char> {
    "On a cherch\u{e9} partout (oui, m\u{ea}me sous le canap\u{e9}), et on n'arrive pas \u{e0} trouver cette page. D\u{e9}so."@
}

/// The title of the internal-error page.
pub open spec fn spec_title_500() -> Seq<char> {
    "Erreur interne du serveur"@
}

/// The explanatory message of the internal-error page.
pub open spec fn spec_msg_500() -> Seq<char> {
    "On a tout cass\u{e9}, mais vous inqui\u{e9}tez pas, on va tout r\u{e9}parer."@
}

/// The interceptor: a response carrying status 404 or 500 keeps its status
/// and its other headers, but its body becomes the rendered error page and
/// its content type is forced to HTML. Every other response passes through
/// unchanged.
pub open spec fn spec_intercept(r: SpecResponse) -> SpecResponse {
    if r.status == 404 {
        SpecResponse {
            status: r.status,
            content_type: Option::Some(spec_html_utf8()),
            expires: r.expires,
            reason: r.reason,
            body: SpecBody::Page(spec_error_page(spec_title_404(), spec_msg_404())),
        }
    } else if r.status == 500 {
        SpecResponse {
            status: r.status,
            content_type: Option::Some(spec_html_utf8()),
            expires: r.expires,
            reason: r.reason,
            body: SpecBody::Page(spec_error_page(spec_title_500(), spec_msg_500())),
        }
    } else {
        r
    }
}

/// Applies the interceptor to a handler's response.
pub fn intercept(r: Response) -> (out: Response)
    ensures
        out@ == spec_intercept(r@),
{
    if r.status == 404 {
        Response {
            status: r.status,
            content_type: Option::Some(String::from_str("text/html; charset=utf-8")),
            expires: r.expires,
            reason: r.reason,
            body: RespBody::Page(
                error_html(
                    "Page introuvable",
                    "On a cherch\u{e9} partout (oui, m\u{ea}me sous le canap\u{e9}), et on n'arrive pas \u{e0} trouver cette page. D\u{e9}so.",
                ),
            ),
        }
    } else if r.status == 500 {
        Response {
            status: r.status,
            content_type: Option::Some(String::from_str("text/html; charset=utf-8")),
            expires: r.expires,
            reason: r.reason,
            body: RespBody::Page(
                error_html(
                    "Erreur interne du serveur",
                    "On a tout cass\u{e9}, mais vous inqui\u{e9}tez pas, on va tout r\u{e9}parer.",
                ),
            ),
        }
    } else {
        r
    }
}

/// Which handler a path reaches, and what it answers before interception.
pub open spec fn spec_route(
    path: Seq<char>,
    debate: Option<Seq<char>>,
    now_secs: u64,
    elapsed_micros: u128,
) -> SpecResponse {
    if path == "/"@ {
        spec_home_response()
    } else if path == "/debate"@ {
        match debate {
            Option::Some(q) => spec_debate_response(q),
            Option::None => spec_missing_query_response(),
        }
    } else if path == "/api"@ {
        spec_api_response(debate, elapsed_micros)
    } else if path.len() >= "/static/"@.len() && path.subrange(0, "/static/"@.len() as int)
        == "/static/"@ {
        spec_static_response(path.skip("/static/"@.len() as int), now_secs)
    } else {
        spec_not_found_response()
    }
}

/// The whole request cycle: route, handle, intercept.
pub open spec fn spec_serve(
    path: Seq<char>,
    debate: Option<Seq<char>>,
    now_secs: u64,
    elapsed_micros: u128,
) -> SpecResponse {
    spec_intercept(spec_route(path, debate, now_secs, elapsed_micros))
}

/// Serves one GET request: `path` is the request path, `debate` the decoded
/// query parameter if it was given, `now_secs` the current time and
/// `elapsed_micros` the measured handler time.
pub fn serve(path: &str, debate: Option<&str>, now_secs: u64, elapsed_micros: u128) -> (r:
    Response)
    requires
        now_secs + FAR_EXPIRES_SECS <= u64::MAX,
    ensures
        r@ == spec_serve(path@, debate.deep_view(), now_secs, elapsed_micros),
{
    let resp = if str_eq(path, "/") {
        home_response()
    } else if str_eq(path, "/debate") {
        match debate {
            Option::Some(q) => debate_response(q),
            Option::None => missing_query_response(),
        }
    } else if str_eq(path, "/api") {
        api_response(debate, elapsed_micros)
    } else if str_starts_with(path, "/static/") {
        proof {
            reveal_strlit("/static/");
        }
        let name = path.substring_char(8, path.unicode_len());
        proof {
            assert(name@ =~= path@.skip("/static/"@.len() as int));
        }
        static_response(name, now_secs)
    } else {
        not_found_response()
    };
    intercept(resp)
}

} // verus!
