//! Zip archives as delivered by a remote site: decoding, and the steps that
//! write their contents into a directory.

use vstd::prelude::*;
use crate::text::ends_with;

verus! {

/// One member of an archive: its stored name, its bytes and, when the
/// archive records one, its unix mode.
pub struct ArchiveEntry {
    pub name: String,
    pub data: Vec<u8>,
    pub unix_mode: Option<u32>,
}

/// An entry as plain values.
pub type EntryView = (Seq<char>, Seq<u8>, Option<u32>);

pub open spec fn entries_view(v: Seq<ArchiveEntry>) -> Seq<EntryView> {
    v.map_values(|e: ArchiveEntry| (e.name@, e.data@, e.unix_mode))
}

/// What the `zip` crate reads out of an archive: its members in order, or
/// `None` where it refuses the bytes.
pub uninterp spec fn zip_entries_of(bytes: Seq<u8>) -> Option<Seq<EntryView>>;

/// Relies on `zip::ZipArchive::new` over the bytes, then `by_index`, `name`,
/// `unix_mode` and reading each member in turn: the members depend on the
/// bytes alone. On failure, the error's text.
#[verifier::external_body]
fn unzip(bytes: &[u8]) -> (r: Result<Vec<ArchiveEntry>, String>)
    ensures
        match r {
            Ok(v) => zip_entries_of(bytes@) == Some(entries_view(v@)),
            Err(_) => zip_entries_of(bytes@) is None,
        },
{
    let mut archive = zip::ZipArchive::new(std::io::Cursor::new(bytes)).map_err(|e| e.to_string())?;
    (0..archive.len()).map(|i| {
        let mut file = archive.by_index(i).map_err(|e| e.to_string())?;
        let mut data = Vec::new();
        std::io::Read::read_to_end(&mut file, &mut data).map_err(|e| e.to_string())?;
        Ok(ArchiveEntry { name: file.name().to_string(), data, unix_mode: file.unix_mode() })
    }).collect()
}

/// One step of writing an archive out, with paths relative to the target
/// directory.
#[derive(Debug, Clone, PartialEq, Eq)]
pub enum ExtractStep {
    /// Create this directory and its parents.
    CreateDir(String),
    /// Create the parents of this file, then write the file whole.
    WriteFile(String, Vec<u8>),
    /// Give this path these unix permission bits.
    SetMode(String, u32),
}

/// A step as plain values.
pub enum StepView {
    CreateDir(Seq<char>),
    WriteFile(Seq<char>, Seq<u8>),
    SetMode(Seq<char>, u32),
}

pub open spec fn step_view(s: ExtractStep) -> StepView {
    match s {
        ExtractStep::CreateDir(p) => StepView::CreateDir(p@),
        ExtractStep::WriteFile(p, d) => StepView::WriteFile(p@, d@),
        ExtractStep::SetMode(p, m) => StepView::SetMode(p@, m),
    }
}

pub open spec fn steps_view(v: Seq<ExtractStep>) -> Seq<StepView> {
    v.map_values(|s: ExtractStep| step_view(s))
}

/// The steps for one entry: a name ending in `/` is a directory, anything
/// else a file; then its mode, where it has one and modes are kept.
pub open spec fn entry_steps(e: EntryView, keep_modes: bool) -> Seq<StepView> {
    let first = if crate::text::has_suffix(e.0, "/"@) {
        StepView::CreateDir(e.0)
    } else {
        StepView::WriteFile(e.0, e.1)
    };
    match e.2 {
        Some(m) if keep_modes => seq![first, StepView::SetMode(e.0, m)],
        _ => seq![first],
    }
}

/// The steps for all entries, in archive order.
pub open spec fn plan_of(entries: Seq<EntryView>, keep_modes: bool) -> Seq<StepView>
    decreases entries.len(),
{
    if entries.len() == 0 {
        Seq::empty()
    } else {
        entry_steps(entries[0], keep_modes) + plan_of(entries.drop_first(), keep_modes)
    }
}

/// The steps that write `entries` out, in order; with `keep_modes`, each
/// recorded unix mode is applied after its entry is written.
pub fn extraction_plan(entries: Vec<ArchiveEntry>, keep_modes: bool) -> (r: Vec<ExtractStep>)
    ensures
        steps_view(r@) == plan_of(entries_view(entries@), keep_modes),
{
    let ghost all = entries_view(entries@);
    let mut rest = entries;
    let mut out: Vec<ExtractStep> = Vec::new();
    assert(steps_view(out@) =~= Seq::<StepView>::empty());
    assert(Seq::<StepView>::empty() + plan_of(entries_view(rest@), keep_modes) =~= plan_of(all, keep_modes));
    while rest.len() > 0
        invariant
            steps_view(out@) + plan_of(entries_view(rest@), keep_modes) == plan_of(all, keep_modes),
        decreases rest@.len(),
    {
        let ghost before_rest = entries_view(rest@);
        let ghost before_out = steps_view(out@);
        let entry = rest.remove(0);
        assert(entries_view(rest@) =~= before_rest.drop_first());
        assert(before_rest[0] == (entry.name@, entry.data@, entry.unix_mode));
        let ghost steps = entry_steps(before_rest[0], keep_modes);
        let is_dir = ends_with(entry.name.as_str(), "/");
        let name = entry.name;
        if is_dir {
            out.push(ExtractStep::CreateDir(name.clone()));
        } else {
            out.push(ExtractStep::WriteFile(name.clone(), entry.data));
        }
        match entry.unix_mode {
            Some(m) => {
                if keep_modes {
                    out.push(ExtractStep::SetMode(name, m));
                }
            },
            None => {},
        }
        assert(steps_view(out@) =~= before_out + steps);
        assert(before_out + steps + plan_of(entries_view(rest@), keep_modes) =~= before_out + (steps
            + plan_of(before_rest.drop_first(), keep_modes)));
    }
    assert(steps_view(out@) + plan_of(entries_view(rest@), keep_modes) =~= steps_view(out@));
    out
}

/// Decodes a zip archive into the steps that write it out; an archive that
/// does not decode is an error carrying the decoder's text.
pub fn plan_archive(bytes: &[u8], keep_modes: bool) -> (r: Result<Vec<ExtractStep>, String>)
    ensures
        match zip_entries_of(bytes@) {
            Some(entries) => r matches Ok(steps) && steps_view(steps@) == plan_of(entries, keep_modes),
            None => r is Err,
        },
{
    match unzip(bytes) {
        Ok(entries) => Ok(extraction_plan(entries, keep_modes)),
        Err(e) => Err(e),
    }
}

} // verus!
