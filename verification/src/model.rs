//! The cleaner's data: junk items, start-up entries, large files and the
//! window's mode.

use vstd::prelude::*;

verus! {

/// What a junk item is: a file or directory on disk, or a value in the registry.
/// Paths are held as text.
#[derive(Clone, Debug, PartialEq)]
pub enum JunkType {
    FileOrDir(String),
    RegistryValue { hkey: isize, subkey: String, value_name: String },
}

/// A piece of junk with the number of bytes it occupies (0 for directories
/// and registry values).
#[derive(Clone, Debug)]
pub struct JunkItem {
    pub junk_type: JunkType,
    pub size: u64,
}

/// A program started at logon through a `Run` key of the registry.
#[derive(Clone, Debug)]
pub struct StartupItem {
    pub name: String,
    pub command: String,
    pub hkey: isize,
    pub subkey: String,
}

/// A file found by the large-file finder.
#[derive(Clone, Debug)]
pub struct LargeFile {
    pub path: String,
    pub size: u64,
}

/// The abstract value of a [`JunkType`]: its text as character sequences.
pub enum JunkTypeView {
    FileOrDir(Seq<char>),
    RegistryValue { hkey: isize, subkey: Seq<char>, value_name: Seq<char> },
}

/// The abstract value of a [`JunkItem`].
pub struct JunkItemView {
    pub junk_type: JunkTypeView,
    pub size: u64,
}

/// The abstract value of a [`StartupItem`].
pub struct StartupItemView {
    pub name: Seq<char>,
    pub command: Seq<char>,
    pub hkey: isize,
    pub subkey: Seq<char>,
}

/// The abstract value of a [`LargeFile`].
pub struct LargeFileView {
    pub path: Seq<char>,
    pub size: u64,
}

impl View for JunkType {
    type V = JunkTypeView;

    open spec fn view(&self) -> JunkTypeView {
        match self {
            JunkType::FileOrDir(p) => JunkTypeView::FileOrDir(p@),
            JunkType::RegistryValue { hkey, subkey, value_name } => JunkTypeView::RegistryValue {
                hkey: *hkey,
                subkey: subkey@,
                value_name: value_name@,
            },
        }
    }
}

impl View for JunkItem {
    type V = JunkItemView;

    open spec fn view(&self) -> JunkItemView {
        JunkItemView { junk_type: self.junk_type@, size: self.size }
    }
}

impl View for StartupItem {
    type V = StartupItemView;

    open spec fn view(&self) -> StartupItemView {
        StartupItemView {
            name: self.name@,
            command: self.command@,
            hkey: self.hkey,
            subkey: self.subkey@,
        }
    }
}

impl View for LargeFile {
    type V = LargeFileView;

    open spec fn view(&self) -> LargeFileView {
        LargeFileView { path: self.path@, size: self.size }
    }
}

/// The views of a sequence of junk items.
pub open spec fn junk_views(s: Seq<JunkItem>) -> Seq<JunkItemView> {
    s.map_values(|x: JunkItem| x@)
}

/// The views of a sequence of start-up items.
pub open spec fn startup_views(s: Seq<StartupItem>) -> Seq<StartupItemView> {
    s.map_values(|x: StartupItem| x@)
}

/// The views of a sequence of strings.
pub open spec fn text_views(s: Seq<String>) -> Seq<Seq<char>> {
    s.map_values(|x: String| x@)
}

/// Sum of the sizes of a sequence of junk items.
pub open spec fn junk_size_sum(s: Seq<JunkItem>) -> nat
    decreases s.len(),
{
    if s.len() == 0 {
        0
    } else {
        junk_size_sum(s.drop_last()) + s.last().size as nat
    }
}

/// Sum of the sizes of a sequence of large files.
pub open spec fn large_size_sum(s: Seq<LargeFile>) -> nat
    decreases s.len(),
{
    if s.len() == 0 {
        0
    } else {
        large_size_sum(s.drop_last()) + s.last().size as nat
    }
}

/// Which page the cleaner's window shows.
#[derive(Clone, Copy, Debug, PartialEq, Eq, Structural)]
pub enum AppMode {
    Junk,
    Startup,
    LargeFiles,
}

impl Default for AppMode {
    fn default() -> (m: AppMode)
        ensures
            m == AppMode::Junk,
    {
        AppMode::Junk
    }
}

} // verus!
