//! The workspace materializer's decision logic.  Given the computed
//! layout, what already exists on disk, and the rendered document, it
//! decides exactly which files are written with which content, refusing
//! to overwrite an existing primary document and silently skipping
//! auxiliary files that are already present.  The caller performs the
//! filesystem operations the plan lists.

use crate::paths::WorkspaceLayout;
use vstd::prelude::*;
use vstd::string::*;

verus! {

/// What the caller found on disk at the layout's paths before
/// materializing.
#[derive(Clone, Copy)]
pub struct DiskState {
    /// Whether a file already exists at the primary document path.
    pub primary_exists: bool,
    /// Whether the sample asset already exists at its path.
    pub asset_exists: bool,
    /// Whether the placeholder notebook already exists at its path.
    pub notebook_exists: bool,
}

/// Why a materialization failed.
#[derive(Debug)]
pub enum MaterializeError {
    /// A file already exists at the primary document path; nothing may be
    /// written over it.  Carries the conflicting path.
    AlreadyExists(String),
    /// A required directory could not be resolved or created.  Carries
    /// the caller's description of the failure.
    DirectoryUnavailable(String),
    /// A file write failed.  Carries the caller's description of the
    /// failure.
    WriteFailure(String),
}

/// One planned text file write.
pub struct TextWrite {
    pub path: String,
    pub content: String,
}

/// One planned binary file write.
pub struct ByteWrite {
    pub path: String,
    pub content: Vec<u8>,
}

/// The writes a successful materialization performs: the primary
/// document, the auxiliary files that were absent, and the auxiliary
/// paths skipped because a file was already there.
pub struct MaterializePlan {
    pub primary: TextWrite,
    pub asset: Option<ByteWrite>,
    pub notebook: Option<TextWrite>,
    pub skipped: Vec<String>,
}

/// The bytes of the bundled sample asset seeded into the figure folder.
pub open spec fn sample_asset_bytes() -> Seq<u8> {
    seq![
        0x25u8,
        0x50u8,
        0x44u8,
        0x46u8,
        0x2du8,
        0x31u8,
        0x2eu8,
        0x34u8,
        0x0au8,
        0x25u8,
        0x25u8,
        0x45u8,
        0x4fu8,
        0x46u8,
        0x0au8,
    ]
}

/// The bundled sample asset, returned as its raw bytes.
pub fn sample_asset() -> (r: Vec<u8>)
    ensures
        r@ == sample_asset_bytes(),
{
    let v: Vec<u8> = vec![
        0x25u8, 0x50u8, 0x44u8, 0x46u8, 0x2du8, 0x31u8, 0x2eu8, 0x34u8, 0x0au8, 0x25u8, 0x25u8,
        0x45u8, 0x4fu8, 0x46u8, 0x0au8,
    ];
    proof {
        assert(v@ =~= sample_asset_bytes());
    }
    v
}

/// The text of the placeholder notebook: a minimal valid notebook with an
/// empty cell list and fixed format-version fields.
pub open spec fn notebook_placeholder_text() -> Seq<char> {
    r#"{
 "cells": [],
 "metadata": {},
 "nbformat": 4,
 "nbformat_minor": 5
}"#@
}

/// The placeholder notebook's content.
pub fn notebook_placeholder() -> (r: String)
    ensures
        r@ == notebook_placeholder_text(),
{
    String::from_str(
        r#"{
 "cells": [],
 "metadata": {},
 "nbformat": 4,
 "nbformat_minor": 5
}"#,
    )
}

/// Whether the plan is the one the contract of `materialize` promises for
/// this layout, disk state and document.
pub open spec fn plan_matches(
    p: MaterializePlan,
    layout: WorkspaceLayout,
    disk: DiskState,
    document: Seq<char>,
) -> bool {
    let skip_asset = layout.aux_asset is Some && disk.asset_exists;
    let skip_notebook = layout.aux_notebook is Some && disk.notebook_exists;
    &&& p.primary.path@ == layout.primary@
    &&& p.primary.content@ == document
    &&& if layout.aux_asset is Some && !disk.asset_exists {
        &&& p.asset is Some
        &&& p.asset->0.path@ == layout.aux_asset->0@
        &&& p.asset->0.content@ == sample_asset_bytes()
    } else {
        p.asset is None
    }
    &&& if layout.aux_notebook is Some && !disk.notebook_exists {
        &&& p.notebook is Some
        &&& p.notebook->0.path@ == layout.aux_notebook->0@
        &&& p.notebook->0.content@ == notebook_placeholder_text()
    } else {
        p.notebook is None
    }
    &&& if skip_asset && skip_notebook {
        &&& p.skipped@.len() == 2
        &&& p.skipped@[0]@ == layout.aux_asset->0@
        &&& p.skipped@[1]@ == layout.aux_notebook->0@
    } else if skip_asset {
        &&& p.skipped@.len() == 1
        &&& p.skipped@[0]@ == layout.aux_asset->0@
    } else if skip_notebook {
        &&& p.skipped@.len() == 1
        &&& p.skipped@[0]@ == layout.aux_notebook->0@
    } else {
        p.skipped@.len() == 0
    }
}

/// Decide the writes for one materialization.
///
/// The primary document is never overwritten: if a file already exists at
/// its path the whole operation is refused with `AlreadyExists` and no
/// write is planned.  Otherwise the plan writes the document at the
/// primary path, writes each auxiliary file whose path is vacant, and
/// skips each auxiliary file that is already present.
pub fn materialize(layout: &WorkspaceLayout, disk: &DiskState, document: &str) -> (r: Result<
    MaterializePlan,
    MaterializeError,
>)
    ensures
        r is Err <==> disk.primary_exists,
        r is Err ==> (r->Err_0 matches MaterializeError::AlreadyExists(p) && p@
            == layout.primary@),
        r is Ok ==> plan_matches(r->Ok_0, *layout, *disk, document@),
{
    if disk.primary_exists {
        return Err(MaterializeError::AlreadyExists(layout.primary.clone()));
    }
    let primary = TextWrite { path: layout.primary.clone(), content: String::from_str(document) };
    let mut skipped: Vec<String> = Vec::new();
    let asset: Option<ByteWrite> = match &layout.aux_asset {
        Some(path) => {
            if disk.asset_exists {
                skipped.push(path.clone());
                None
            } else {
                Some(ByteWrite { path: path.clone(), content: sample_asset() })
            }
        },
        None => None,
    };
    let notebook: Option<TextWrite> = match &layout.aux_notebook {
        Some(path) => {
            if disk.notebook_exists {
                skipped.push(path.clone());
                None
            } else {
                Some(TextWrite { path: path.clone(), content: notebook_placeholder() })
            }
        },
        None => None,
    };
    Ok(MaterializePlan { primary, asset, notebook, skipped })
}

} // verus!
