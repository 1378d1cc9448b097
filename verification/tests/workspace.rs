use texcli::materialize::{materialize, notebook_placeholder, sample_asset, DiskState, MaterializeError};
use texcli::paths::{compute_layout, sanitize_title, LayoutKind};
use texcli::render::render;

#[test]
fn sanitize_replaces_spaces() {
    assert_eq!(sanitize_title("Calculus Homework One"), "Calculus_Homework_One");
}

#[test]
fn sanitize_no_residual_spaces() {
    let s = sanitize_title("a  b c ");
    assert_eq!(s, "a__b_c_");
    assert!(!s.contains(' '));
}

#[test]
fn sanitize_leaves_other_characters() {
    assert_eq!(sanitize_title(""), "");
    assert_eq!(sanitize_title("Opgave-1.2"), "Opgave-1.2");
}

#[test]
fn flat_layout_paths() {
    let l = compute_layout(LayoutKind::Flat, "/root/dir", "Test Opgave");
    assert_eq!(l.kind, LayoutKind::Flat);
    assert_eq!(l.dirs, vec!["/root/dir".to_string()]);
    assert_eq!(l.primary, "/root/dir/Test_Opgave.tex");
    assert!(l.aux_asset.is_none());
    assert!(l.aux_notebook.is_none());
}

#[test]
fn project_layout_paths() {
    let l = compute_layout(LayoutKind::Project, "/docs/texcli", "Test Opgave");
    assert_eq!(l.kind, LayoutKind::Project);
    assert_eq!(
        l.dirs,
        vec![
            "/docs/texcli/Test_Opgave".to_string(),
            "/docs/texcli/Test_Opgave/latex".to_string(),
            "/docs/texcli/Test_Opgave/latex/figure".to_string(),
            "/docs/texcli/Test_Opgave/notebook".to_string(),
        ]
    );
    assert_eq!(l.primary, "/docs/texcli/Test_Opgave/latex/main.tex");
    assert_eq!(
        l.aux_asset.as_deref(),
        Some("/docs/texcli/Test_Opgave/latex/figure/sample-graph.pdf")
    );
    assert_eq!(
        l.aux_notebook.as_deref(),
        Some("/docs/texcli/Test_Opgave/notebook/work.ipynb")
    );
}

fn empty_disk() -> DiskState {
    DiskState { primary_exists: false, asset_exists: false, notebook_exists: false }
}

#[test]
fn existence_guard_aborts() {
    let l = compute_layout(LayoutKind::Project, "/docs", "Busy Title");
    let disk = DiskState { primary_exists: true, asset_exists: false, notebook_exists: false };
    let r = materialize(&l, &disk, "document text");
    match r {
        Err(MaterializeError::AlreadyExists(p)) => {
            assert_eq!(p, "/docs/Busy_Title/latex/main.tex");
        },
        _ => panic!("expected AlreadyExists"),
    }
}

#[test]
fn materialize_flat_plan() {
    let l = compute_layout(LayoutKind::Flat, "/docs", "My Note");
    let plan = materialize(&l, &empty_disk(), "hello").unwrap();
    assert_eq!(plan.primary.path, "/docs/My_Note.tex");
    assert_eq!(plan.primary.content, "hello");
    assert!(plan.asset.is_none());
    assert!(plan.notebook.is_none());
    assert!(plan.skipped.is_empty());
}

#[test]
fn materialize_project_plan() {
    let l = compute_layout(LayoutKind::Project, "/docs", "My Note");
    let plan = materialize(&l, &empty_disk(), "hello").unwrap();
    assert_eq!(plan.primary.path, "/docs/My_Note/latex/main.tex");
    assert_eq!(plan.primary.content, "hello");
    let asset = plan.asset.unwrap();
    assert_eq!(asset.path, "/docs/My_Note/latex/figure/sample-graph.pdf");
    assert_eq!(asset.content, sample_asset());
    let notebook = plan.notebook.unwrap();
    assert_eq!(notebook.path, "/docs/My_Note/notebook/work.ipynb");
    assert_eq!(notebook.content, notebook_placeholder());
    assert!(plan.skipped.is_empty());
}

#[test]
fn materialize_skips_existing_aux_files() {
    let l = compute_layout(LayoutKind::Project, "/docs", "My Note");
    let disk = DiskState { primary_exists: false, asset_exists: true, notebook_exists: true };
    let plan = materialize(&l, &disk, "hello").unwrap();
    assert!(plan.asset.is_none());
    assert!(plan.notebook.is_none());
    assert_eq!(
        plan.skipped,
        vec![
            "/docs/My_Note/latex/figure/sample-graph.pdf".to_string(),
            "/docs/My_Note/notebook/work.ipynb".to_string(),
        ]
    );
}

#[test]
fn two_titles_make_independent_trees() {
    let l1 = compute_layout(LayoutKind::Project, "/docs", "Alpha One");
    let l2 = compute_layout(LayoutKind::Project, "/docs", "Beta Two");
    let mut paths1 = l1.dirs.clone();
    paths1.push(l1.primary.clone());
    paths1.push(l1.aux_asset.clone().unwrap());
    paths1.push(l1.aux_notebook.clone().unwrap());
    let mut paths2 = l2.dirs.clone();
    paths2.push(l2.primary.clone());
    paths2.push(l2.aux_asset.clone().unwrap());
    paths2.push(l2.aux_notebook.clone().unwrap());
    for p1 in &paths1 {
        for p2 in &paths2 {
            assert_ne!(p1, p2);
        }
    }
    let first = materialize(&l1, &empty_disk(), "one").unwrap();
    let second = materialize(&l2, &empty_disk(), "two").unwrap();
    assert_ne!(first.primary.path, second.primary.path);
}

#[test]
fn notebook_placeholder_content() {
    assert_eq!(
        notebook_placeholder(),
        "{\n \"cells\": [],\n \"metadata\": {},\n \"nbformat\": 4,\n \"nbformat_minor\": 5\n}"
    );
}

#[test]
fn sample_asset_bytes_fixed() {
    let bytes = sample_asset();
    assert_eq!(bytes, b"%PDF-1.4\n%%EOF\n".to_vec());
    let again = sample_asset();
    assert_eq!(bytes, again);
}

#[test]
fn end_to_end_scenario() {
    let (text, fallback) = render("default", "Test Opgave", "Anna", "2025-01-01");
    assert!(!fallback);
    assert!(text.contains("Test Opgave"));
    assert!(text.contains("Anna"));
    assert!(text.contains("2025-01-01"));
    let l = compute_layout(LayoutKind::Flat, "/root/dir", "Test Opgave");
    let plan = materialize(&l, &empty_disk(), text.as_str()).unwrap();
    assert_eq!(plan.primary.path, "/root/dir/Test_Opgave.tex");
    assert_eq!(plan.primary.content, text);
}
