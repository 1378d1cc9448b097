use texcli::render::{render, resolve_request};

const HEAD: &str = r#"\documentclass[11pt,a4paper]{article}
\usepackage[utf8]{inputenc}
\usepackage[T1]{fontenc}
\usepackage[danish]{babel}
\usepackage{amsmath, amssymb, amsfonts}
\usepackage{geometry}
\geometry{ top=2.5cm, bottom=2.5cm, left=3cm, right=3cm }
\usepackage{fancyhdr}
\usepackage{lastpage}
\pagestyle{fancy}
\fancyhf{}
\fancyhead[L]{\textbf{Matematik A - Opgave}}
\fancyhead[R]{\thepage\ af \pageref{LastPage}}
\usepackage{graphicx}
\graphicspath{{figure/}}
\usepackage{enumitem}
\usepackage{hyperref}

\title{\textbf{"#;

const MID_AUTHOR: &str = r#"}}
\author{Navn: "#;

const MID_DATE: &str = r#"}
\date{Dato: "#;

const TAIL: &str = r#"}

\begin{document}

\maketitle
\thispagestyle{fancy}

\section*{Opgave 1}
\subsection*{(a)} Tekst og udregninger her.

\subsection*{(b)} Eksempel på graf:
\begin{figure}[h]
    \centering
    \includegraphics[width=0.8\textwidth]{sample-graph.pdf}
    \caption{Graf over funktion $f(x)$.}
\end{figure}

\end{document}
"#;

#[test]
fn render_exact_text() {
    let (text, fallback) = render("default", "Test Opgave", "Anna", "2025-01-01");
    let expected = format!(
        "{}{}{}{}{}{}{}",
        HEAD, "Test Opgave", MID_AUTHOR, "Anna", MID_DATE, "2025-01-01", TAIL
    );
    assert_eq!(text, expected);
    assert!(!fallback);
}

#[test]
fn render_deterministic() {
    let r1 = render("default", "Opgave 1", "Johan", "2025-08-03");
    let r2 = render("default", "Opgave 1", "Johan", "2025-08-03");
    assert_eq!(r1.0, r2.0);
    assert_eq!(r1.1, r2.1);
}

#[test]
fn render_unknown_template_falls_back() {
    let (unknown_text, fallback) = render("fancy", "T", "A", "D");
    let (default_text, no_fallback) = render("default", "T", "A", "D");
    assert_eq!(unknown_text, default_text);
    assert!(fallback);
    assert!(!no_fallback);
}

#[test]
fn render_empty_strings() {
    let (text, fallback) = render("", "", "", "");
    let expected = format!("{}{}{}{}", HEAD, MID_AUTHOR, MID_DATE, TAIL);
    assert_eq!(text, expected);
    assert!(fallback);
}

#[test]
fn render_substitutes_verbatim() {
    let (text, _) = render("default", "Differentialregning opgave", "Johan", "2025-08-03");
    assert!(text.contains("Differentialregning opgave"));
    assert!(text.contains("Navn: Johan"));
    assert!(text.contains("Dato: 2025-08-03"));
    assert!(text.starts_with(HEAD));
    assert!(text.ends_with(TAIL));
}

#[test]
fn resolve_request_defaults() {
    let r = resolve_request(None, None, None, None, "2025-01-01", "Anna");
    assert_eq!(r.title, "Opgave 2025-01-01");
    assert_eq!(r.date, "2025-01-01");
    assert_eq!(r.author, "Anna");
    assert_eq!(r.template_id, "default");
}

#[test]
fn resolve_request_keeps_given_values() {
    let r = resolve_request(
        Some("My Title".to_string()),
        Some("2024-12-31".to_string()),
        Some("Johan".to_string()),
        Some("fancy".to_string()),
        "2025-01-01",
        "Anna",
    );
    assert_eq!(r.title, "My Title");
    assert_eq!(r.date, "2024-12-31");
    assert_eq!(r.author, "Johan");
    assert_eq!(r.template_id, "fancy");
}
