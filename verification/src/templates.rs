//! The HTML templates: home page, debate page, and the generic error page.
//!
//! Rendering is total: every template is a pure function of its typed
//! arguments. The debate page embeds the submitted text verbatim together
//! with the list of answers; the error page embeds a title and a message.

use vstd::prelude::*;

verus! {

use vstd::string::StringExecFns;

/// The home page, a fixed document.
pub open spec fn spec_home_page() -> Seq<char> {
    "<!DOCTYPE html>\n<html lang=\"fr\">\n<head><meta charset=\"utf-8\"><title>Le grand d\u{e9}bat</title><link rel=\"stylesheet\" href=\"/static/style.css\"></head>\n<body>\n<img src=\"/static/logo.png\" alt=\"logo\">\n<h1>Le grand d\u{e9}bat</h1>\n<form action=\"/debate\" method=\"get\"><input name=\"debate\" placeholder=\"Votre d\u{e9}bat\"><button>Lancer</button></form>\n</body>\n</html>\n"@
}

/// Renders the home page.
pub fn home_html() -> (r: String)
    ensures
        r@ == spec_home_page(),
{
    String::from_str(
        "<!DOCTYPE html>\n<html lang=\"fr\">\n<head><meta charset=\"utf-8\"><title>Le grand d\u{e9}bat</title><link rel=\"stylesheet\" href=\"/static/style.css\"></head>\n<body>\n<img src=\"/static/logo.png\" alt=\"logo\">\n<h1>Le grand d\u{e9}bat</h1>\n<form action=\"/debate\" method=\"get\"><input name=\"debate\" placeholder=\"Votre d\u{e9}bat\"><button>Lancer</button></form>\n</body>\n</html>\n",
    )
}

/// What stands before the echoed debate text on the debate page.
pub open spec fn spec_debate_prefix() -> Seq<char> {
    "<!DOCTYPE html>\n<html lang=\"fr\">\n<head><meta charset=\"utf-8\"><title>Le grand d\u{e9}bat</title><link rel=\"stylesheet\" href=\"/static/style.css\"></head>\n<body>\n<h1>"@
}

/// What stands between the echoed debate text and the answers.
pub open spec fn spec_debate_mid() -> Seq<char> {
    "</h1>\n<ul>"@
}

/// What closes the debate page after the answers.
pub open spec fn spec_debate_suffix() -> Seq<char> {
    "</ul>\n</body>\n</html>\n"@
}

/// The answers rendered as list items, in order.
pub open spec fn spec_answer_items(answers: Seq<Seq<char>>) -> Seq<char>
    decreases answers.len(),
{
    if answers.len() == 0 {
        Seq::empty()
    } else {
        "<li>"@ + answers[0] + "</li>"@ + spec_answer_items(answers.drop_first())
    }
}

/// The debate page: the submitted text embedded verbatim, then the answers.
pub open spec fn spec_debate_page(q: Seq<char>, answers: Seq<Seq<char>>) -> Seq<char> {
    spec_debate_prefix() + q + spec_debate_mid() + spec_answer_items(answers)
        + spec_debate_suffix()
}

/// Appending one answer appends one list item.
proof fn lemma_answer_items_snoc(answers: Seq<Seq<char>>, x: Seq<char>)
    ensures
        spec_answer_items(answers.push(x)) == spec_answer_items(answers)
            + ("<li>"@ + x + "</li>"@),
    decreases answers.len(),
{
    if answers.len() == 0 {
        assert(answers.push(x).drop_first() =~= Seq::<Seq<char>>::empty());
        assert(answers.push(x)[0] == x);
        assert(spec_answer_items(Seq::<Seq<char>>::empty()) =~= Seq::<char>::empty());
        assert(spec_answer_items(answers) =~= Seq::<char>::empty());
        assert(spec_answer_items(answers.push(x)) == "<li>"@ + x + "</li>"@ + spec_answer_items(
            answers.push(x).drop_first(),
        ));
        assert(spec_answer_items(answers.push(x)) =~= spec_answer_items(answers) + ("<li>"@ + x
            + "</li>"@));
    } else {
        lemma_answer_items_snoc(answers.drop_first(), x);
        assert(answers.push(x).drop_first() =~= answers.drop_first().push(x));
        assert(answers.push(x)[0] == answers[0]);
        assert(spec_answer_items(answers.push(x)) == "<li>"@ + answers[0] + "</li>"@
            + spec_answer_items(answers.drop_first().push(x)));
        assert(spec_answer_items(answers.push(x)) =~= spec_answer_items(answers) + ("<li>"@ + x
            + "</li>"@));
    }
}

/// Renders the debate page for the submitted text and the answers.
pub fn debate_html(query: &str, answers: &Vec<String>) -> (r: String)
    ensures
        r@ == spec_debate_page(query@, answers.deep_view()),
{
    let mut r = String::from_str(
        "<!DOCTYPE html>\n<html lang=\"fr\">\n<head><meta charset=\"utf-8\"><title>Le grand d\u{e9}bat</title><link rel=\"stylesheet\" href=\"/static/style.css\"></head>\n<body>\n<h1>",
    );
    r.append(query);
    r.append("</h1>\n<ul>");
    let mut i: usize = 0;
    while i < answers.len()
        invariant
            i <= answers@.len(),
            r@ == spec_debate_prefix() + query@ + spec_debate_mid() + spec_answer_items(
                answers.deep_view().take(i as int),
            ),
        decreases answers@.len() - i,
    {
        proof {
            assert(spec_answer_items(Seq::<Seq<char>>::empty()) =~= Seq::<char>::empty());
        }
        r.append("<li>");
        r.append(answers[i].as_str());
        r.append("</li>");
        proof {
            lemma_answer_items_snoc(answers.deep_view().take(i as int), answers@[i as int]@);
            assert(answers.deep_view()[i as int] == answers@[i as int]@);
            assert(answers.deep_view().take(i as int).push(answers.deep_view()[i as int])
                =~= answers.deep_view().take(i + 1 as int));
            assert(r@ =~= spec_debate_prefix() + query@ + spec_debate_mid() + spec_answer_items(
                answers.deep_view().take(i + 1 as int),
            ));
        }
        i = i + 1;
    }
    r.append("</ul>\n</body>\n</html>\n");
    proof {
        assert(answers.deep_view().take(answers@.len() as int) =~= answers.deep_view());
        assert(r@ =~= spec_debate_page(query@, answers.deep_view()));
    }
    r
}

/// What stands before the title on the error page.
pub open spec fn spec_error_prefix() -> Seq<char> {
    "<!DOCTYPE html>\n<html lang=\"fr\">\n<head><meta charset=\"utf-8\"><title>Le grand d\u{e9}bat</title><link rel=\"stylesheet\" href=\"/static/style.css\"></head>\n<body>\n<h1>"@
}

/// What stands between the title and the message.
pub open spec fn spec_error_mid() -> Seq<char> {
    "</h1>\n<p>"@
}

/// What closes the error page.
pub open spec fn spec_error_suffix() -> Seq<char> {
    "</p>\n</body>\n</html>\n"@
}

/// The generic error page: a title and an explanatory message.
pub open spec fn spec_error_page(title: Seq<char>, message: Seq<char>) -> Seq<char> {
    spec_error_prefix() + title + spec_error_mid() + message + spec_error_suffix()
}

/// Renders the generic error page.
pub fn error_html(title: &str, message: &str) -> (r: String)
    ensures
        r@ == spec_error_page(title@, message@),
{
    let mut r = String::from_str(
        "<!DOCTYPE html>\n<html lang=\"fr\">\n<head><meta charset=\"utf-8\"><title>Le grand d\u{e9}bat</title><link rel=\"stylesheet\" href=\"/static/style.css\"></head>\n<body>\n<h1>",
    );
    r.append(title);
    r.append("</h1>\n<p>");
    r.append(message);
    r.append("</p>\n</body>\n</html>\n");
    proof {
        assert(r@ =~= spec_error_page(title@, message@));
    }
    r
}

/// The literal body that stands in for a failed render.
pub open spec fn spec_render_fallback() -> Seq<char> {
    "Render failed"@
}

/// The fail-soft policy for rendering: a successful render keeps its body,
/// a failed one degrades to a fixed literal and never propagates further.
pub fn rendered_body(outcome: Result<String, ()>) -> (r: String)
    ensures
        match outcome {
            Result::Ok(s) => r@ == s@,
            Result::Err(_) => r@ == spec_render_fallback(),
        },
{
    match outcome {
        Result::Ok(s) => s,
        Result::Err(_) => String::from_str("Render failed"),
    }
}

} // verus!
