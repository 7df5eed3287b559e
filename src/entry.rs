//! The product descriptor record, the capabilities every product offers over
//! it, and the rules by which the build step fills in its paths.
use vstd::prelude::*;

use crate::text::{join, join_path};

verus! {

/// One IDE product's metadata and, once built, where its launcher and icon are.
pub struct Entry {
    pub name: String,
    pub comment: String,
    pub icon: String,
    pub exec_path: String,
    pub short_name: String,
    pub hex_color: u64,
}

/// The fields of an `Entry` as sequences of characters.
pub struct EntryView {
    pub name: Seq<char>,
    pub comment: Seq<char>,
    pub icon: Seq<char>,
    pub exec_path: Seq<char>,
    pub short_name: Seq<char>,
    pub hex_color: u64,
}

impl View for Entry {
    type V = EntryView;

    open spec fn view(&self) -> EntryView {
        EntryView {
            name: self.name@,
            comment: self.comment@,
            icon: self.icon@,
            exec_path: self.exec_path@,
            short_name: self.short_name@,
            hex_color: self.hex_color,
        }
    }
}

/// The directory holding a product's launcher and icon:
/// `root / archive / bin`.
pub open spec fn bin_dir(root: Seq<char>, archive: Seq<char>) -> Seq<char> {
    join_path(join_path(root, archive), "bin"@)
}

/// The launcher: `root / archive / bin / <short>.sh`
pub open spec fn exec_path_for(root: Seq<char>, archive: Seq<char>, short: Seq<char>) -> Seq<char> {
    join_path(bin_dir(root, archive), short + ".sh"@)
}

/// The icon: `root / archive / bin / <short>.png`
pub open spec fn icon_path_for(root: Seq<char>, archive: Seq<char>, short: Seq<char>) -> Seq<char> {
    join_path(bin_dir(root, archive), short + ".png"@)
}

/// The descriptor `e` after the build step for the extracted directory
/// `archive` under the install root `root`: both paths set, all else kept.
pub open spec fn built(e: EntryView, archive: Seq<char>, root: Seq<char>) -> EntryView {
    EntryView {
        icon: icon_path_for(root, archive, e.short_name),
        exec_path: exec_path_for(root, archive, e.short_name),
        ..e
    }
}

/// Neither path has been set yet.
pub open spec fn paths_unset(e: EntryView) -> bool {
    e.icon.len() == 0 && e.exec_path.len() == 0
}

/// The two paths are unset, or both were set together by one build step.
pub open spec fn paths_consistent(e: EntryView) -> bool {
    paths_unset(e) || exists|archive: Seq<char>, root: Seq<char>|
        e.icon == icon_path_for(root, archive, e.short_name) && e.exec_path == exec_path_for(
            root,
            archive,
            e.short_name,
        )
}

/// Building twice with the same arguments gives the paths of the first build.
pub proof fn lemma_build_idempotent(e: EntryView, archive: Seq<char>, root: Seq<char>)
    ensures
        built(built(e, archive, root), archive, root) == built(e, archive, root),
{
}

/// A built descriptor has both paths set together, from one archive and root.
pub proof fn lemma_built_paths_consistent(e: EntryView, archive: Seq<char>, root: Seq<char>)
    ensures
        paths_consistent(built(e, archive, root)),
{
    let b = built(e, archive, root);
    assert(b.icon == icon_path_for(root, archive, b.short_name) && b.exec_path == exec_path_for(
        root,
        archive,
        b.short_name,
    ));
}

/// The icon and launcher paths of product `short_name` extracted to
/// `archive_name` under `main_dir_path`.
pub fn install_paths(main_dir_path: &str, archive_name: &str, short_name: &str) -> (r: (
    String,
    String,
))
    ensures
        r.0@ == icon_path_for(main_dir_path@, archive_name@, short_name@),
        r.1@ == exec_path_for(main_dir_path@, archive_name@, short_name@),
{
    let archive_dir = join(main_dir_path, archive_name);
    let bin = join(archive_dir.as_str(), "bin");
    let icon_file = String::from_str(short_name).concat(".png");
    let exec_file = String::from_str(short_name).concat(".sh");
    (join(bin.as_str(), icon_file.as_str()), join(bin.as_str(), exec_file.as_str()))
}

/// Read access to a product's descriptor.
pub trait Readable {
    /// The descriptor this product carries.
    spec fn entry_view(&self) -> EntryView;

    fn get_name(&self) -> (r: &String)
        ensures
            r@ == self.entry_view().name,
    ;

    fn get_comment(&self) -> (r: &String)
        ensures
            r@ == self.entry_view().comment,
    ;

    fn get_short_name(&self) -> (r: &String)
        ensures
            r@ == self.entry_view().short_name,
    ;

    fn get_exec(&self) -> (r: &String)
        ensures
            r@ == self.entry_view().exec_path,
    ;

    fn get_icon(&self) -> (r: &String)
        ensures
            r@ == self.entry_view().icon,
    ;

    fn get_entries(&self) -> (r: &Entry)
        ensures
            r@ == self.entry_view(),
    ;

    fn get_color(&self) -> (r: u64)
        ensures
            r == self.entry_view().hex_color,
    ;
}

/// Write access to the two install-time paths of a product's descriptor.
pub trait Writable: Readable {
    fn set_icon(&mut self, icon_path: String)
        ensures
            final(self).entry_view() == (EntryView { icon: icon_path@, ..old(self).entry_view() }),
    ;

    fn set_exec(&mut self, exec_path: String)
        ensures
            final(self).entry_view() == (EntryView { exec_path: exec_path@, ..old(self).entry_view() }),
    ;
}

/// The build step: fills in the icon and launcher paths of an extracted product.
pub trait Buildable: Writable + Readable {
    /// Sets the icon to `root / archive / bin / <short>.png` and the launcher to
    /// `root / archive / bin / <short>.sh`, touches nothing else, and never fails.
    fn build(&mut self, archive_name: &String, main_dir_path: &str) -> (r: Result<(), &'static str>)
        ensures
            r is Ok,
            final(self).entry_view() == built(old(self).entry_view(), archive_name@, main_dir_path@),
    {
        let (icon, exec) = install_paths(
            main_dir_path,
            archive_name.as_str(),
            self.get_short_name().as_str(),
        );
        self.set_icon(icon);
        self.set_exec(exec);
        Ok(())
    }
}

/// Everything the installer needs of a product.
pub trait IDE: Buildable + Readable + Writable {

}

} // verus!
