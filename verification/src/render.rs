//! The template renderer: a registry of fixed template bodies with named
//! insertion points for title, author and date.  Rendering substitutes the
//! three strings literally; an unknown template identifier falls back to
//! the `"default"` body and signals the fallback.

use vstd::prelude::*;
use vstd::string::*;

verus! {

/// The template text before the title insertion point.
pub open spec fn seg_head() -> Seq<char> {
    r#"\documentclass[11pt,a4paper]{article}
\usepackage[utf8]{inputenc}
\usepackage[T1]{fontenc}
\usepackage[danish]{babel}
\usepackage{amsmath, amssymb, amsfonts}
\usepackage{geometry}
\geometry{ top=2.5cm, bottom=2.5cm, left=3cm, right=3cm }
\usepackage{fancyhdr}
\usepackage{lastpage}
\pagestyle{fancy}
\fancyhf{}
\fancyhead[L]{\textbf{Matematik A - Opgave}}
\fancyhead[R]{\thepage\ af \pageref{LastPage}}
\usepackage{graphicx}
\graphicspath{{figure/}}
\usepackage{enumitem}
\usepackage{hyperref}

\title{\textbf{"#@
}

/// The template text between the title and the author insertion points.
pub open spec fn seg_mid_author() -> Seq<char> {
    r#"}}
\author{Navn: "#@
}

/// The template text between the author and the date insertion points.
pub open spec fn seg_mid_date() -> Seq<char> {
    r#"}
\date{Dato: "#@
}

/// The template text after the date insertion point.
pub open spec fn seg_tail() -> Seq<char> {
    r#"}

\begin{document}

\maketitle
\thispagestyle{fancy}

\section*{Opgave 1}
\subsection*{(a)} Tekst og udregninger her.

\subsection*{(b)} Eksempel på graf:
\begin{figure}[h]
    \centering
    \includegraphics[width=0.8\textwidth]{sample-graph.pdf}
    \caption{Graf over funktion $f(x)$.}
\end{figure}

\end{document}
"#@
}

/// The default template body with the three strings substituted at their
/// insertion points.
pub open spec fn default_template_text(title: Seq<char>, author: Seq<char>, date: Seq<char>) -> Seq<char> {
    seg_head() + title + seg_mid_author() + author + seg_mid_date() + date + seg_tail()
}

/// Whether a template identifier is in the registry.  The registry holds a
/// single entry, `"default"`.
pub open spec fn is_known_template(id: Seq<char>) -> bool {
    id == "default"@
}

/// Whether rendering with this identifier falls back to the default body.
pub open spec fn uses_fallback(id: Seq<char>) -> bool {
    !is_known_template(id)
}

/// The text that rendering produces.  An unknown identifier selects the
/// default body, so the text is the default body for every identifier.
pub open spec fn render_text(id: Seq<char>, title: Seq<char>, author: Seq<char>, date: Seq<char>) -> Seq<char> {
    default_template_text(title, author, date)
}

/// One rendering request: the four values that determine the rendered
/// document.
pub struct RenderRequest {
    pub title: String,
    pub date: String,
    pub author: String,
    pub template_id: String,
}

/// The default title for a given date.
pub open spec fn default_title_text(date: Seq<char>) -> Seq<char> {
    "Opgave "@ + date
}

/// Assemble a request from the optional command-line values, filling each
/// omitted value from its documented default: the title from today's
/// date, the date from today, the author from the invoking user's name,
/// and the template identifier from `"default"`.  Today's date and the
/// user's name are injected by the caller.
pub fn resolve_request(
    arg_title: Option<String>,
    arg_date: Option<String>,
    arg_author: Option<String>,
    arg_template: Option<String>,
    today: &str,
    user_name: &str,
) -> (r: RenderRequest)
    ensures
        r.title@ == if arg_title is Some {
            arg_title->0@
        } else {
            default_title_text(today@)
        },
        r.date@ == if arg_date is Some {
            arg_date->0@
        } else {
            today@
        },
        r.author@ == if arg_author is Some {
            arg_author->0@
        } else {
            user_name@
        },
        r.template_id@ == if arg_template is Some {
            arg_template->0@
        } else {
            "default"@
        },
{
    let title = match arg_title {
        Some(t) => t,
        None => {
            let mut t = String::from_str("Opgave ");
            t.append(today);
            t
        },
    };
    let date = match arg_date {
        Some(d) => d,
        None => String::from_str(today),
    };
    let author = match arg_author {
        Some(a) => a,
        None => String::from_str(user_name),
    };
    let template_id = match arg_template {
        Some(t) => t,
        None => String::from_str("default"),
    };
    RenderRequest { title, date, author, template_id }
}

/// Compare two strings character by character.
pub fn str_eq(a: &str, b: &str) -> (r: bool)
    ensures
        r == (a@ == b@),
{
    let na = a.unicode_len();
    let nb = b.unicode_len();
    if na != nb {
        proof {
            if a@ == b@ {
                assert(a@.len() == b@.len());
            }
        }
        return false;
    }
    let mut i: usize = 0;
    while i < na
        invariant
            na == a@.len(),
            na == b@.len(),
            i <= na,
            forall|j: int| 0 <= j < i ==> a@[j] == b@[j],
        decreases na - i,
    {
        if a.get_char(i) != b.get_char(i) {
            proof {
                if a@ == b@ {
                    assert(a@[i as int] == b@[i as int]);
                }
            }
            return false;
        }
        i = i + 1;
    }
    proof {
        assert(a@ =~= b@);
    }
    true
}

/// Render the template selected by `template_id` with `title`, `author`
/// and `date` substituted literally at their insertion points.  The second
/// component is true exactly when `template_id` was not in the registry
/// and the default body was used instead.
pub fn render(template_id: &str, title: &str, author: &str, date: &str) -> (r: (String, bool))
    ensures
        r.0@ == render_text(template_id@, title@, author@, date@),
        r.1 == uses_fallback(template_id@),
{
    let fallback = !str_eq(template_id, "default");
    let mut out = String::from_str(
        r#"\documentclass[11pt,a4paper]{article}
\usepackage[utf8]{inputenc}
\usepackage[T1]{fontenc}
\usepackage[danish]{babel}
\usepackage{amsmath, amssymb, amsfonts}
\usepackage{geometry}
\geometry{ top=2.5cm, bottom=2.5cm, left=3cm, right=3cm }
\usepackage{fancyhdr}
\usepackage{lastpage}
\pagestyle{fancy}
\fancyhf{}
\fancyhead[L]{\textbf{Matematik A - Opgave}}
\fancyhead[R]{\thepage\ af \pageref{LastPage}}
\usepackage{graphicx}
\graphicspath{{figure/}}
\usepackage{enumitem}
\usepackage{hyperref}

\title{\textbf{"#,
    );
    out.append(title);
    out.append(
        r#"}}
\author{Navn: "#,
    );
    out.append(author);
    out.append(
        r#"}
\date{Dato: "#,
    );
    out.append(date);
    out.append(
        r#"}

\begin{document}

\maketitle
\thispagestyle{fancy}

\section*{Opgave 1}
\subsection*{(a)} Tekst og udregninger her.

\subsection*{(b)} Eksempel på graf:
\begin{figure}[h]
    \centering
    \includegraphics[width=0.8\textwidth]{sample-graph.pdf}
    \caption{Graf over funktion $f(x)$.}
\end{figure}

\end{document}
"#,
    );
    (out, fallback)
}

/// Rendering is deterministic: two results that both satisfy the render
/// contract for the same inputs are identical, text and fallback signal.
pub proof fn lemma_render_deterministic(
    id: Seq<char>,
    title: Seq<char>,
    author: Seq<char>,
    date: Seq<char>,
    r1: (Seq<char>, bool),
    r2: (Seq<char>, bool),
)
    requires
        r1.0 == render_text(id, title, author, date),
        r1.1 == uses_fallback(id),
        r2.0 == render_text(id, title, author, date),
        r2.1 == uses_fallback(id),
    ensures
        r1.0 == r2.0,
        r1.1 == r2.1,
{
}

/// Substitution correctness: in the rendered text the title, the author
/// and the date appear verbatim at their designated insertion points, and
/// the four fixed template segments around them are unaltered.
pub proof fn lemma_substitution_correctness(title: Seq<char>, author: Seq<char>, date: Seq<char>)
    ensures
        ({
            let r = default_template_text(title, author, date);
            let p1 = seg_head().len() as int;
            let p2 = p1 + title.len();
            let p3 = p2 + seg_mid_author().len();
            let p4 = p3 + author.len();
            let p5 = p4 + seg_mid_date().len();
            let p6 = p5 + date.len();
            &&& r.len() == p6 + seg_tail().len()
            &&& r.subrange(0, p1) == seg_head()
            &&& r.subrange(p1, p2) == title
            &&& r.subrange(p2, p3) == seg_mid_author()
            &&& r.subrange(p3, p4) == author
            &&& r.subrange(p4, p5) == seg_mid_date()
            &&& r.subrange(p5, p6) == date
            &&& r.subrange(p6, r.len() as int) == seg_tail()
        }),
{
    let r = default_template_text(title, author, date);
    let p1 = seg_head().len() as int;
    let p2 = p1 + title.len();
    let p3 = p2 + seg_mid_author().len();
    let p4 = p3 + author.len();
    let p5 = p4 + seg_mid_date().len();
    let p6 = p5 + date.len();
    assert(r.subrange(0, p1) =~= seg_head());
    assert(r.subrange(p1, p2) =~= title);
    assert(r.subrange(p2, p3) =~= seg_mid_author());
    assert(r.subrange(p3, p4) =~= author);
    assert(r.subrange(p4, p5) =~= seg_mid_date());
    assert(r.subrange(p5, p6) =~= date);
    assert(r.subrange(p6, r.len() as int) =~= seg_tail());
}

/// Fallback totality: for an identifier outside the registry the rendered
/// text equals the text rendered for `"default"`, and the fallback is
/// signalled.
pub proof fn lemma_fallback_totality(
    id: Seq<char>,
    title: Seq<char>,
    author: Seq<char>,
    date: Seq<char>,
)
    requires
        !is_known_template(id),
    ensures
        render_text(id, title, author, date) == render_text("default"@, title, author, date),
        uses_fallback(id),
{
}

} // verus!
