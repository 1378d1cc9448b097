//! Title sanitization and workspace layout: a title becomes a
//! filesystem-safe path segment by replacing every space with an
//! underscore, and the segment determines where the rendered document and
//! its auxiliary files live under a root directory.

use vstd::prelude::*;
use vstd::string::*;

verus! {

/// The sanitized form of a title: every space replaced by an underscore,
/// all other characters unchanged.
pub open spec fn sanitize(s: Seq<char>) -> Seq<char> {
    s.map_values(|c: char| if c == ' ' { '_' } else { c })
}

/// Replace every space in `title` with an underscore, so the title can be
/// used as a file or directory name.
pub fn sanitize_title(title: &str) -> (r: String)
    ensures
        r@ == sanitize(title@),
{
    let n = title.unicode_len();
    let mut out = String::new();
    let mut i: usize = 0;
    while i < n
        invariant
            n == title@.len(),
            i <= n,
            out@ == sanitize(title@.subrange(0, i as int)),
        decreases n - i,
    {
        let c = title.get_char(i);
        if c == ' ' {
            out.append("_");
            proof {
                reveal_strlit("_");
            }
        } else {
            let piece = title.substring_char(i, i + 1);
            out.append(piece);
        }
        proof {
            assert(sanitize(title@.subrange(0, i + 1 as int)) =~= out@);
        }
        i = i + 1;
    }
    proof {
        assert(title@.subrange(0, n as int) =~= title@);
    }
    out
}

/// Sanitization removes every space: the result has the same length, no
/// space characters, spaces become underscores and every other character
/// is unchanged.
pub proof fn lemma_sanitize_no_spaces(s: Seq<char>)
    ensures
        sanitize(s).len() == s.len(),
        forall|i: int| 0 <= i < s.len() ==> sanitize(s)[i] != ' ',
        forall|i: int| 0 <= i < s.len() && s[i] == ' ' ==> sanitize(s)[i] == '_',
        forall|i: int| 0 <= i < s.len() && s[i] != ' ' ==> sanitize(s)[i] == s[i],
{
}

/// The path separator.
pub open spec fn sep() -> Seq<char> {
    "/"@
}

/// Join a directory path and a child name with the path separator.
pub fn path_join(base: &str, child: &str) -> (r: String)
    ensures
        r@ == base@ + sep() + child@,
{
    let mut out = String::from_str(base);
    out.append("/");
    out.append(child);
    out
}

/// The primary file path of the flat layout: the sanitized title with the
/// document extension, directly under the root.
pub open spec fn flat_primary_path(root: Seq<char>, title: Seq<char>) -> Seq<char> {
    root + sep() + sanitize(title) + ".tex"@
}

/// The project directory of the project layout: the sanitized title as a
/// directory under the root.
pub open spec fn project_dir_path(root: Seq<char>, title: Seq<char>) -> Seq<char> {
    root + sep() + sanitize(title)
}

/// The document directory of the project layout.
pub open spec fn latex_dir_path(root: Seq<char>, title: Seq<char>) -> Seq<char> {
    project_dir_path(root, title) + sep() + "latex"@
}

/// The figure directory of the project layout.
pub open spec fn figure_dir_path(root: Seq<char>, title: Seq<char>) -> Seq<char> {
    latex_dir_path(root, title) + sep() + "figure"@
}

/// The notebook directory of the project layout.
pub open spec fn notebook_dir_path(root: Seq<char>, title: Seq<char>) -> Seq<char> {
    project_dir_path(root, title) + sep() + "notebook"@
}

/// The primary file path of the project layout.
pub open spec fn project_primary_path(root: Seq<char>, title: Seq<char>) -> Seq<char> {
    latex_dir_path(root, title) + sep() + "main.tex"@
}

/// The bundled sample asset's path in the project layout.
pub open spec fn asset_file_path(root: Seq<char>, title: Seq<char>) -> Seq<char> {
    figure_dir_path(root, title) + sep() + "sample-graph.pdf"@
}

/// The placeholder notebook's path in the project layout.
pub open spec fn notebook_file_path(root: Seq<char>, title: Seq<char>) -> Seq<char> {
    notebook_dir_path(root, title) + sep() + "work.ipynb"@
}

/// Whether a sequence of characters contains no path separator.
pub open spec fn slash_free(s: Seq<char>) -> bool {
    forall|i: int| 0 <= i < s.len() ==> s[i] != '/'
}

/// Sanitization introduces no path separator: a slash-free title has a
/// slash-free sanitized form.
pub proof fn lemma_sanitize_slash_free(t: Seq<char>)
    requires
        slash_free(t),
    ensures
        slash_free(sanitize(t)),
{
    assert forall|i: int| 0 <= i < sanitize(t).len() implies sanitize(t)[i] != '/' by {
        assert(sanitize(t)[i] == (if t[i] == ' ' {
            '_'
        } else {
            t[i]
        }));
    }
}

/// Two project trees under the same root whose sanitized titles differ
/// share no path: any path at or under the one project directory differs
/// from any path at or under the other.  `a` and `b` are the paths'
/// suffixes below the project directories, each empty or starting with
/// the separator.
pub proof fn lemma_tree_paths_differ(
    root: Seq<char>,
    t1: Seq<char>,
    t2: Seq<char>,
    a: Seq<char>,
    b: Seq<char>,
)
    requires
        sanitize(t1) != sanitize(t2),
        slash_free(t1),
        slash_free(t2),
        a.len() == 0 || a[0] == '/',
        b.len() == 0 || b[0] == '/',
    ensures
        project_dir_path(root, t1) + a != project_dir_path(root, t2) + b,
{
    let s1 = sanitize(t1);
    let s2 = sanitize(t2);
    let p1 = project_dir_path(root, t1) + a;
    let p2 = project_dir_path(root, t2) + b;
    reveal_strlit("/");
    lemma_sanitize_slash_free(t1);
    lemma_sanitize_slash_free(t2);
    let prelen: int = root.len() as int + 1;
    if p1 == p2 {
        assert(p1.len() == p2.len());
        if s1.len() == s2.len() {
            assert forall|i: int| 0 <= i < s1.len() implies s1[i] == s2[i] by {
                assert(p1[prelen + i] == s1[i]);
                assert(p2[prelen + i] == s2[i]);
                assert(p1[prelen + i] == p2[prelen + i]);
            }
            assert(s1 =~= s2);
        } else if s1.len() < s2.len() {
            let k: int = prelen + s1.len();
            if a.len() == 0 {
                assert(p1.len() == k);
                assert(p2.len() >= prelen + s2.len());
            } else {
                assert(p1[k] == a[0]);
                assert(p2[k] == s2[s1.len() as int]);
                assert(s2[s1.len() as int] != '/');
            }
        } else {
            let k: int = prelen + s2.len();
            if b.len() == 0 {
                assert(p2.len() == k);
                assert(p1.len() >= prelen + s1.len());
            } else {
                assert(p2[k] == b[0]);
                assert(p1[k] == s1[s2.len() as int]);
                assert(s1[s2.len() as int] != '/');
            }
        }
        assert(false);
    }
}

/// Independent trees: materializations of two titles with different
/// sanitized forms, slash-free, against the same root touch disjoint
/// paths — each file or directory of the one layout differs from every
/// file or directory of the other, in both the flat and the project
/// layout.
pub proof fn lemma_independent_trees(root: Seq<char>, t1: Seq<char>, t2: Seq<char>)
    requires
        sanitize(t1) != sanitize(t2),
        slash_free(t1),
        slash_free(t2),
    ensures
        flat_primary_path(root, t1) != flat_primary_path(root, t2),
        project_dir_path(root, t1) != project_dir_path(root, t2),
        project_primary_path(root, t1) != project_primary_path(root, t2),
        project_primary_path(root, t1) != asset_file_path(root, t2),
        project_primary_path(root, t1) != notebook_file_path(root, t2),
        asset_file_path(root, t1) != project_primary_path(root, t2),
        asset_file_path(root, t1) != asset_file_path(root, t2),
        asset_file_path(root, t1) != notebook_file_path(root, t2),
        notebook_file_path(root, t1) != project_primary_path(root, t2),
        notebook_file_path(root, t1) != asset_file_path(root, t2),
        notebook_file_path(root, t1) != notebook_file_path(root, t2),
{
    let s1 = sanitize(t1);
    let s2 = sanitize(t2);
    reveal_strlit("/");
    // The flat primaries differ: equal paths would force the sanitized
    // titles to coincide character by character.
    let f1 = flat_primary_path(root, t1);
    let f2 = flat_primary_path(root, t2);
    if f1 == f2 {
        assert(f1.len() == f2.len());
        assert(s1.len() == s2.len());
        let prelen: int = root.len() as int + 1;
        assert forall|i: int| 0 <= i < s1.len() implies s1[i] == s2[i] by {
            assert(f1[prelen + i] == s1[i]);
            assert(f2[prelen + i] == s2[i]);
        }
        assert(s1 =~= s2);
        assert(false);
    }
    // Every project-layout path is the project directory followed by an
    // empty or separator-headed suffix, so the general lemma applies.
    let empty = Seq::<char>::empty();
    let sfx_primary = sep() + "latex"@ + sep() + "main.tex"@;
    let sfx_asset = sep() + "latex"@ + sep() + "figure"@ + sep() + "sample-graph.pdf"@;
    let sfx_notebook = sep() + "notebook"@ + sep() + "work.ipynb"@;
    assert(project_dir_path(root, t1) + empty =~= project_dir_path(root, t1));
    assert(project_dir_path(root, t2) + empty =~= project_dir_path(root, t2));
    assert(project_primary_path(root, t1) =~= project_dir_path(root, t1) + sfx_primary);
    assert(project_primary_path(root, t2) =~= project_dir_path(root, t2) + sfx_primary);
    assert(asset_file_path(root, t1) =~= project_dir_path(root, t1) + sfx_asset);
    assert(asset_file_path(root, t2) =~= project_dir_path(root, t2) + sfx_asset);
    assert(notebook_file_path(root, t1) =~= project_dir_path(root, t1) + sfx_notebook);
    assert(notebook_file_path(root, t2) =~= project_dir_path(root, t2) + sfx_notebook);
    assert(sfx_primary[0] == '/');
    assert(sfx_asset[0] == '/');
    assert(sfx_notebook[0] == '/');
    lemma_tree_paths_differ(root, t1, t2, empty, empty);
    lemma_tree_paths_differ(root, t1, t2, sfx_primary, sfx_primary);
    lemma_tree_paths_differ(root, t1, t2, sfx_primary, sfx_asset);
    lemma_tree_paths_differ(root, t1, t2, sfx_primary, sfx_notebook);
    lemma_tree_paths_differ(root, t1, t2, sfx_asset, sfx_primary);
    lemma_tree_paths_differ(root, t1, t2, sfx_asset, sfx_asset);
    lemma_tree_paths_differ(root, t1, t2, sfx_asset, sfx_notebook);
    lemma_tree_paths_differ(root, t1, t2, sfx_notebook, sfx_primary);
    lemma_tree_paths_differ(root, t1, t2, sfx_notebook, sfx_asset);
    lemma_tree_paths_differ(root, t1, t2, sfx_notebook, sfx_notebook);
}

/// Which directory layout a materialization uses.
#[derive(Clone, Copy, PartialEq, Eq, Structural, Debug)]
pub enum LayoutKind {
    /// One file directly under the root, no subdirectories.
    Flat,
    /// A project directory with a document folder, a figure folder seeded
    /// with the sample asset, and a notebook folder with a placeholder.
    Project,
}

/// The filesystem paths computed for one materialization: the directories
/// to create (parents before children), the primary document path, and
/// the auxiliary file paths of the project layout.
pub struct WorkspaceLayout {
    pub kind: LayoutKind,
    pub dirs: Vec<String>,
    pub primary: String,
    pub aux_asset: Option<String>,
    pub aux_notebook: Option<String>,
}

impl WorkspaceLayout {
    /// The layout is exactly what `compute_layout` builds for this kind,
    /// root and title.
    pub open spec fn wf_for(&self, kind: LayoutKind, root: Seq<char>, title: Seq<char>) -> bool {
        &&& self.kind == kind
        &&& match kind {
            LayoutKind::Flat => {
                &&& self.dirs@.len() == 1
                &&& self.dirs@[0]@ == root
                &&& self.primary@ == flat_primary_path(root, title)
                &&& self.aux_asset is None
                &&& self.aux_notebook is None
            },
            LayoutKind::Project => {
                &&& self.dirs@.len() == 4
                &&& self.dirs@[0]@ == project_dir_path(root, title)
                &&& self.dirs@[1]@ == latex_dir_path(root, title)
                &&& self.dirs@[2]@ == figure_dir_path(root, title)
                &&& self.dirs@[3]@ == notebook_dir_path(root, title)
                &&& self.primary@ == project_primary_path(root, title)
                &&& self.aux_asset is Some
                &&& self.aux_asset->0@ == asset_file_path(root, title)
                &&& self.aux_notebook is Some
                &&& self.aux_notebook->0@ == notebook_file_path(root, title)
            },
        }
    }
}

/// Compute the workspace layout for a root directory, a title and a
/// layout kind.
pub fn compute_layout(kind: LayoutKind, root: &str, title: &str) -> (l: WorkspaceLayout)
    ensures
        l.wf_for(kind, root@, title@),
{
    let safe = sanitize_title(title);
    match kind {
        LayoutKind::Flat => {
            let mut primary = String::from_str(root);
            primary.append("/");
            primary.append(safe.as_str());
            primary.append(".tex");
            let mut dirs: Vec<String> = Vec::new();
            dirs.push(String::from_str(root));
            WorkspaceLayout {
                kind,
                dirs,
                primary,
                aux_asset: None,
                aux_notebook: None,
            }
        },
        LayoutKind::Project => {
            let project_dir = path_join(root, safe.as_str());
            let latex_dir = path_join(project_dir.as_str(), "latex");
            let figure_dir = path_join(latex_dir.as_str(), "figure");
            let notebook_dir = path_join(project_dir.as_str(), "notebook");
            let primary = path_join(latex_dir.as_str(), "main.tex");
            let asset = path_join(figure_dir.as_str(), "sample-graph.pdf");
            let notebook_file = path_join(notebook_dir.as_str(), "work.ipynb");
            let mut dirs: Vec<String> = Vec::new();
            dirs.push(project_dir);
            dirs.push(latex_dir);
            dirs.push(figure_dir);
            dirs.push(notebook_dir);
            WorkspaceLayout {
                kind,
                dirs,
                primary,
                aux_asset: Some(asset),
                aux_notebook: Some(notebook_file),
            }
        },
    }
}

} // verus!
