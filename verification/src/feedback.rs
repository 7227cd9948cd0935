//! HTML fragments that report the outcome of a settings action.
use vstd::prelude::*;

use crate::text::owned;
use crate::types::ValidationErrors;

verus! {

/// The items joined with `sep` between neighbours.
pub open spec fn join_text(items: Seq<Seq<char>>, sep: Seq<char>) -> Seq<char>
    decreases items.len(),
{
    if items.len() == 0 {
        Seq::empty()
    } else if items.len() == 1 {
        items[0]
    } else {
        join_text(items.drop_last(), sep) + sep + items.last()
    }
}

pub open spec fn texts(v: Seq<String>) -> Seq<Seq<char>> {
    v.map_values(|s: String| s@)
}

/// Appends the strings of `items` to `out`, with `sep` between neighbours.
pub fn push_joined(out: &mut String, items: &Vec<String>, sep: &str)
    ensures
        final(out)@ == old(out)@ + join_text(texts(items@), sep@),
{
    let n = items.len();
    let mut i: usize = 0;
    while i < n
        invariant
            n == items@.len(),
            0 <= i <= n,
            out@ == old(out)@ + join_text(texts(items@.subrange(0, i as int)), sep@),
        decreases n - i,
    {
        let ghost before = out@;
        if i > 0 {
            out.append(sep);
        }
        out.append(items[i].as_str());
        proof {
            let p = texts(items@.subrange(0, i as int));
            let q = texts(items@.subrange(0, i + 1));
            assert(q.drop_last() =~= p);
            assert(q.last() == items@[i as int]@);
            if i == 0 {
                assert(p =~= Seq::<Seq<char>>::empty());
                assert(out@ =~= old(out)@ + join_text(q, sep@));
            } else {
                assert(out@ =~= old(out)@ + join_text(q, sep@));
            }
        }
        i = i + 1;
    }
    assert(items@.subrange(0, n as int) =~= items@);
}

/// The details block of a success message: the details joined by line
/// breaks, or nothing when there are none.
pub open spec fn details_block(details: Option<Seq<Seq<char>>>) -> Seq<char> {
    match details {
        Some(d) => if d.len() > 0 {
            "<div class=\"feedback-details\">"@ + join_text(d, "<br>"@) + "</div>"@
        } else {
            Seq::empty()
        },
        None => Seq::empty(),
    }
}

pub open spec fn success_html(
    title: Seq<char>,
    message: Seq<char>,
    details: Option<Seq<Seq<char>>>,
) -> Seq<char> {
    "<div class=\"feedback success\">\n            <div class=\"feedback-icon\">✅</div>\n            <div class=\"feedback-content\">\n                <h4>"@
        + title + "</h4>\n                <p>"@ + message + "</p>\n                "@
        + details_block(details) + "\n            </div>\n        </div>"@
}

/// The success message with a title, a text and optional details.
pub fn render_feedback_success(title: &str, message: &str, details: Option<Vec<String>>) -> (s:
    String)
    ensures
        s@ == success_html(
            title@,
            message@,
            match details {
                Some(d) => Some(texts(d@)),
                None => None,
            },
        ),
{
    let mut block = String::new();
    match &details {
        Some(list) => {
            if list.len() > 0 {
                block.append("<div class=\"feedback-details\">");
                push_joined(&mut block, list, "<br>");
                block.append("</div>");
            }
        },
        None => {},
    }
    let mut s = owned(
        "<div class=\"feedback success\">\n            <div class=\"feedback-icon\">✅</div>\n            <div class=\"feedback-content\">\n                <h4>",
    );
    s.append(title);
    s.append("</h4>\n                <p>");
    s.append(message);
    s.append("</p>\n                ");
    s.append(block.as_str());
    s.append("\n            </div>\n        </div>");
    s
}

/// One field's line: the field name and its messages separated by commas.
pub open spec fn field_error_line(e: (String, Vec<String>)) -> Seq<char> {
    "<div class=\"field-error\"><strong>"@ + e.0@ + ":</strong> "@ + join_text(texts(e.1@), ", "@)
        + "</div>"@
}

pub open spec fn field_error_lines(entries: Seq<(String, Vec<String>)>) -> Seq<char>
    decreases entries.len(),
{
    if entries.len() == 0 {
        Seq::empty()
    } else {
        field_error_lines(entries.drop_last()) + field_error_line(entries.last())
    }
}

pub open spec fn general_error_lines(errors: Seq<String>) -> Seq<char>
    decreases errors.len(),
{
    if errors.len() == 0 {
        Seq::empty()
    } else {
        general_error_lines(errors.drop_last()) + "<div>"@ + errors.last()@ + "</div>"@
    }
}

/// The blocks that list validation errors: one for field errors and one for
/// general errors, each only when it has entries.
pub open spec fn errors_block(e: ValidationErrors) -> Seq<char> {
    (if e.field_errors@.len() > 0 {
        "<div class=\"field-errors\">"@ + field_error_lines(e.field_errors@) + "</div>"@
    } else {
        Seq::empty()
    }) + (if e.general_errors@.len() > 0 {
        "<div class=\"feedback-details\">"@ + general_error_lines(e.general_errors@) + "</div>"@
    } else {
        Seq::empty()
    })
}

pub open spec fn error_html(title: Seq<char>, message: Seq<char>, errors: Option<ValidationErrors>) -> Seq<
    char,
> {
    "<div class=\"feedback error\">\n            <div class=\"feedback-icon\">❌</div>\n            <div class=\"feedback-content\">\n                <h4>"@
        + title + "</h4>\n                <p>"@ + message + "</p>"@ + (match errors {
        Some(e) => errors_block(e),
        None => Seq::empty(),
    }) + "</div></div>"@
}

fn push_errors_block(out: &mut String, e: &ValidationErrors)
    ensures
        final(out)@ == old(out)@ + errors_block(*e),
{
    let ghost start = out@;
    if e.field_errors.len() > 0 {
        out.append("<div class=\"field-errors\">");
        let ghost mid = out@;
        let n = e.field_errors.len();
        let mut i: usize = 0;
        while i < n
            invariant
                n == e.field_errors@.len(),
                0 <= i <= n,
                out@ == mid + field_error_lines(e.field_errors@.subrange(0, i as int)),
            decreases n - i,
        {
            out.append("<div class=\"field-error\"><strong>");
            out.append(e.field_errors[i].0.as_str());
            out.append(":</strong> ");
            push_joined(out, &e.field_errors[i].1, ", ");
            out.append("</div>");
            proof {
                let q = e.field_errors@.subrange(0, i + 1);
                assert(q.drop_last() =~= e.field_errors@.subrange(0, i as int));
                assert(q.last() == e.field_errors@[i as int]);
                assert(out@ =~= mid + field_error_lines(q));
            }
            i = i + 1;
        }
        out.append("</div>");
        assert(e.field_errors@.subrange(0, n as int) =~= e.field_errors@);
    }
    let ghost after_fields = out@;
    if e.general_errors.len() > 0 {
        out.append("<div class=\"feedback-details\">");
        let ghost mid = out@;
        let n = e.general_errors.len();
        let mut i: usize = 0;
        while i < n
            invariant
                n == e.general_errors@.len(),
                0 <= i <= n,
                out@ == mid + general_error_lines(e.general_errors@.subrange(0, i as int)),
            decreases n - i,
        {
            out.append("<div>");
            out.append(e.general_errors[i].as_str());
            out.append("</div>");
            proof {
                let q = e.general_errors@.subrange(0, i + 1);
                assert(q.drop_last() =~= e.general_errors@.subrange(0, i as int));
                assert(out@ =~= mid + general_error_lines(q));
            }
            i = i + 1;
        }
        out.append("</div>");
        assert(e.general_errors@.subrange(0, n as int) =~= e.general_errors@);
    }
    assert(out@ =~= start + errors_block(*e));
}

/// The error message with a title, a text and optional validation errors.
pub fn render_feedback_error(title: &str, message: &str, errors: Option<ValidationErrors>) -> (s:
    String)
    ensures
        s@ == error_html(title@, message@, errors),
{
    let mut s = owned(
        "<div class=\"feedback error\">\n            <div class=\"feedback-icon\">❌</div>\n            <div class=\"feedback-content\">\n                <h4>",
    );
    s.append(title);
    s.append("</h4>\n                <p>");
    s.append(message);
    s.append("</p>");
    match &errors {
        Some(e) => push_errors_block(&mut s, e),
        None => {},
    }
    s.append("</div></div>");
    s
}

} // verus!
