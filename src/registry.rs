//! Resolution of an archive name to a product, and the desktop entry that
//! integrates a built product with the desktop.
use vstd::prelude::*;

use crate::entry::{Buildable, Entry, EntryView, IDE, Readable, Writable};
use crate::products::{catalog_entry, marker, Goland, Idea, Pycharm, RubyMine, RustRover};
use crate::text::{contains_str, occurs_in, lower_of, to_lower};

verus! {

/// One product of the catalog, whichever it is.
pub enum Product {
    Goland(Goland),
    Pycharm(Pycharm),
    RustRover(RustRover),
    Idea(Idea),
    RubyMine(RubyMine),
}

impl Product {
    /// The catalog number of this product (see `marker`).
    pub open spec fn kind(&self) -> int {
        match self {
            Product::Goland(_) => 0,
            Product::Pycharm(_) => 1,
            Product::RustRover(_) => 2,
            Product::Idea(_) => 3,
            Product::RubyMine(_) => 4,
        }
    }
}

impl Readable for Product {
    open spec fn entry_view(&self) -> EntryView {
        match self {
            Product::Goland(p) => p.entry_view(),
            Product::Pycharm(p) => p.entry_view(),
            Product::RustRover(p) => p.entry_view(),
            Product::Idea(p) => p.entry_view(),
            Product::RubyMine(p) => p.entry_view(),
        }
    }

    fn get_name(&self) -> (r: &String) {
        match self {
            Product::Goland(p) => p.get_name(),
            Product::Pycharm(p) => p.get_name(),
            Product::RustRover(p) => p.get_name(),
            Product::Idea(p) => p.get_name(),
            Product::RubyMine(p) => p.get_name(),
        }
    }

    fn get_comment(&self) -> (r: &String) {
        match self {
            Product::Goland(p) => p.get_comment(),
            Product::Pycharm(p) => p.get_comment(),
            Product::RustRover(p) => p.get_comment(),
            Product::Idea(p) => p.get_comment(),
            Product::RubyMine(p) => p.get_comment(),
        }
    }

    fn get_short_name(&self) -> (r: &String) {
        match self {
            Product::Goland(p) => p.get_short_name(),
            Product::Pycharm(p) => p.get_short_name(),
            Product::RustRover(p) => p.get_short_name(),
            Product::Idea(p) => p.get_short_name(),
            Product::RubyMine(p) => p.get_short_name(),
        }
    }

    fn get_exec(&self) -> (r: &String) {
        match self {
            Product::Goland(p) => p.get_exec(),
            Product::Pycharm(p) => p.get_exec(),
            Product::RustRover(p) => p.get_exec(),
            Product::Idea(p) => p.get_exec(),
            Product::RubyMine(p) => p.get_exec(),
        }
    }

    fn get_icon(&self) -> (r: &String) {
        match self {
            Product::Goland(p) => p.get_icon(),
            Product::Pycharm(p) => p.get_icon(),
            Product::RustRover(p) => p.get_icon(),
            Product::Idea(p) => p.get_icon(),
            Product::RubyMine(p) => p.get_icon(),
        }
    }

    fn get_entries(&self) -> (r: &Entry) {
        match self {
            Product::Goland(p) => p.get_entries(),
            Product::Pycharm(p) => p.get_entries(),
            Product::RustRover(p) => p.get_entries(),
            Product::Idea(p) => p.get_entries(),
            Product::RubyMine(p) => p.get_entries(),
        }
    }

    fn get_color(&self) -> (r: u64) {
        match self {
            Product::Goland(p) => p.get_color(),
            Product::Pycharm(p) => p.get_color(),
            Product::RustRover(p) => p.get_color(),
            Product::Idea(p) => p.get_color(),
            Product::RubyMine(p) => p.get_color(),
        }
    }
}

impl Writable for Product {
    fn set_icon(&mut self, icon_path: String) {
        match self {
            Product::Goland(p) => p.set_icon(icon_path),
            Product::Pycharm(p) => p.set_icon(icon_path),
            Product::RustRover(p) => p.set_icon(icon_path),
            Product::Idea(p) => p.set_icon(icon_path),
            Product::RubyMine(p) => p.set_icon(icon_path),
        }
    }

    fn set_exec(&mut self, exec_path: String) {
        match self {
            Product::Goland(p) => p.set_exec(exec_path),
            Product::Pycharm(p) => p.set_exec(exec_path),
            Product::RustRover(p) => p.set_exec(exec_path),
            Product::Idea(p) => p.set_exec(exec_path),
            Product::RubyMine(p) => p.set_exec(exec_path),
        }
    }

}

impl Buildable for Product {

}

impl IDE for Product {

}

/// The error of an archive name that matches no product of the catalog.
pub const UNSUPPORTED: &'static str = "> IDE not supported, symbolic link and desktop entry NOT created";

/// The first product, in catalog order, whose marker occurs in the
/// case-folded archive name `folded`; `None` when no marker occurs.
pub open spec fn first_match(folded: Seq<char>) -> Option<int> {
    if occurs_in(folded, marker(0)) {
        Some(0)
    } else if occurs_in(folded, marker(1)) {
        Some(1)
    } else if occurs_in(folded, marker(2)) {
        Some(2)
    } else if occurs_in(folded, marker(3)) {
        Some(3)
    } else if occurs_in(folded, marker(4)) {
        Some(4)
    } else {
        None
    }
}

/// Resolves an archive name that is already lowercase: the product of the
/// first marker it holds, freshly made; an error when it holds none.
pub fn detect_ide_lowercase(lowercase_name: &str) -> (r: Result<Product, &'static str>)
    ensures
        match first_match(lowercase_name@) {
            Some(k) => r matches Ok(p) && p.kind() == k && p.entry_view() == catalog_entry(k),
            None => r matches Err(e) && e@ == UNSUPPORTED@,
        },
{
    if contains_str(lowercase_name, "go") {
        Ok(Product::Goland(Goland::new()))
    } else if contains_str(lowercase_name, "py") {
        Ok(Product::Pycharm(Pycharm::new()))
    } else if contains_str(lowercase_name, "rust") {
        Ok(Product::RustRover(RustRover::new()))
    } else if contains_str(lowercase_name, "idea") {
        Ok(Product::Idea(Idea::new()))
    } else if contains_str(lowercase_name, "ruby") {
        Ok(Product::RubyMine(RubyMine::new()))
    } else {
        Err(UNSUPPORTED)
    }
}

/// Resolves an archive name, case-insensitively, to the product of the first
/// marker its lowercase form holds; an error when it holds none.
pub fn detect_ide(archive_name: &String) -> (r: Result<Product, &'static str>)
    ensures
        match first_match(lower_of(archive_name@)) {
            Some(k) => r matches Ok(p) && p.kind() == k && p.entry_view() == catalog_entry(k),
            None => r matches Err(e) && e@ == UNSUPPORTED@,
        },
{
    let lowered = to_lower(archive_name.as_str());
    detect_ide_lowercase(lowered.as_str())
}

/// The desktop entry text for descriptor `e`, fields in fixed order.
pub open spec fn desktop_entry(e: EntryView) -> Seq<char> {
    "[Desktop Entry]\nType=Application\nName="@ + e.name + "\nIcon="@ + e.icon + "\nExec="@
        + e.exec_path + "\nComment="@ + e.comment
        + "\nCategories=Development;IDE;\nTerminal=false\nStartupWMClass=jetbrains-"@
        + e.short_name
}

/// Renders the desktop entry of a descriptor.
pub fn generate_entry(entries: &Entry) -> (r: String)
    ensures
        r@ == desktop_entry(entries@),
{
    let mut r = String::from_str("[Desktop Entry]\nType=Application\nName=");
    r.append(entries.name.as_str());
    r.append("\nIcon=");
    r.append(entries.icon.as_str());
    r.append("\nExec=");
    r.append(entries.exec_path.as_str());
    r.append("\nComment=");
    r.append(entries.comment.as_str());
    r.append("\nCategories=Development;IDE;\nTerminal=false\nStartupWMClass=jetbrains-");
    r.append(entries.short_name.as_str());
    r
}

/// An archive name whose lowercase form holds the marker of exactly one
/// product resolves to that product.
pub proof fn lemma_lone_marker_resolves(archive_name: Seq<char>, k: int)
    requires
        0 <= k < 5,
        occurs_in(lower_of(archive_name), marker(k)),
        forall|j: int| 0 <= j < 5 && j != k ==> !occurs_in(lower_of(archive_name), #[trigger] marker(j)),
    ensures
        first_match(lower_of(archive_name)) == Some(k),
{
    let folded = lower_of(archive_name);
    if k != 0 {
        assert(!occurs_in(folded, marker(0)));
    }
    if k != 1 {
        assert(!occurs_in(folded, marker(1)));
    }
    if k != 2 {
        assert(!occurs_in(folded, marker(2)));
    }
    if k != 3 {
        assert(!occurs_in(folded, marker(3)));
    }
}

/// An archive name whose lowercase form holds no marker is not resolved:
/// `detect_ide` answers it with the `UNSUPPORTED` error.
pub proof fn lemma_no_marker_unsupported(archive_name: Seq<char>)
    requires
        forall|j: int| 0 <= j < 5 ==> !occurs_in(lower_of(archive_name), #[trigger] marker(j)),
    ensures
        first_match(lower_of(archive_name)) is None,
{
    let folded = lower_of(archive_name);
    assert(!occurs_in(folded, marker(0)));
    assert(!occurs_in(folded, marker(1)));
    assert(!occurs_in(folded, marker(2)));
    assert(!occurs_in(folded, marker(3)));
    assert(!occurs_in(folded, marker(4)));
}

} // verus!
