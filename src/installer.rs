//! The installation record: which product an archive holds, its version,
//! the metadata read from the product's entry file, and its install paths.
use vstd::prelude::*;

use crate::entry::{exec_path_for, icon_path_for, install_paths, EntryView};
use crate::products::catalog_entry;
use crate::registry::{desktop_entry, detect_ide_lowercase, first_match, UNSUPPORTED};
use crate::entry::Readable;
use crate::text::{lower_of, to_lower, version_of, version_suffix};

verus! {

/// What the installer knows of the product it is installing.
pub struct Ide {
    pub name: String,
    pub comment: String,
    pub icon: String,
    pub exec_path: String,
    pub version: String,
    pub short_name: String,
}

/// The descriptor fields of an installation record; it carries no accent color.
pub open spec fn record_entry(ide: Ide) -> EntryView {
    EntryView {
        name: ide.name@,
        comment: ide.comment@,
        icon: ide.icon@,
        exec_path: ide.exec_path@,
        short_name: ide.short_name@,
        hex_color: 0,
    }
}

impl Ide {
    /// An empty record.
    pub fn new() -> (r: Ide)
        ensures
            r.name@.len() == 0,
            r.comment@.len() == 0,
            r.icon@.len() == 0,
            r.exec_path@.len() == 0,
            r.version@.len() == 0,
            r.short_name@.len() == 0,
    {
        Ide {
            name: String::new(),
            comment: String::new(),
            icon: String::new(),
            exec_path: String::new(),
            version: String::new(),
            short_name: String::new(),
        }
    }

    pub fn get_name(&self) -> (r: &String)
        ensures
            r@ == self.name@,
    {
        &self.name
    }

    /// The short name of the product an archive holds, found case-insensitively
    /// as `detect_ide` finds it, and the archive's version suffix.
    pub fn detect_ide(archive_name: &str) -> (r: Result<(String, String), &'static str>)
        ensures
            match first_match(lower_of(archive_name@)) {
                Some(k) => r matches Ok(d) && d.0@ == catalog_entry(k).short_name && d.1@
                    == version_of(archive_name@),
                None => r matches Err(e) && e@ == UNSUPPORTED@,
            },
    {
        let lowered = to_lower(archive_name);
        match detect_ide_lowercase(lowered.as_str()) {
            Ok(product) => Ok((product.get_short_name().clone(), version_suffix(archive_name))),
            Err(e) => Err(e),
        }
    }

    /// Fills the record for the archive extracted to `archive_name` under
    /// `main_dir_path`: product short name and version from the archive name,
    /// display name and comment from `parsed` (the product's entry file), and
    /// the icon and launcher paths. Fails, changing nothing, when the archive
    /// name matches no product.
    pub fn build(&mut self, archive_name: &str, main_dir_path: &str, parsed: Ide) -> (r: Result<
        (),
        &'static str,
    >)
        ensures
            match first_match(lower_of(archive_name@)) {
                Some(k) => {
                    let short = catalog_entry(k).short_name;
                    &&& r is Ok
                    &&& final(self).short_name@ == short
                    &&& final(self).version@ == version_of(archive_name@)
                    &&& final(self).name@ == parsed.name@
                    &&& final(self).comment@ == parsed.comment@
                    &&& final(self).icon@ == icon_path_for(main_dir_path@, archive_name@, short)
                    &&& final(self).exec_path@ == exec_path_for(
                        main_dir_path@,
                        archive_name@,
                        short,
                    )
                },
                None => r matches Err(e) && e@ == UNSUPPORTED@ && *final(self) == *old(self),
            },
    {
        let (short_name, version) = match Ide::detect_ide(archive_name) {
            Ok(d) => d,
            Err(e) => return Err(e),
        };
        let (icon, exec) = install_paths(main_dir_path, archive_name, short_name.as_str());
        self.short_name = short_name;
        self.version = version;
        self.name = parsed.name;
        self.comment = parsed.comment;
        self.icon = icon;
        self.exec_path = exec;
        Ok(())
    }

    /// The desktop entry text of this record.
    pub fn entry_text(&self) -> (r: String)
        ensures
            r@ == desktop_entry(record_entry(*self)),
    {
        let mut r = String::from_str("[Desktop Entry]\nType=Application\nName=");
        r.append(self.name.as_str());
        r.append("\nIcon=");
        r.append(self.icon.as_str());
        r.append("\nExec=");
        r.append(self.exec_path.as_str());
        r.append("\nComment=");
        r.append(self.comment.as_str());
        r.append("\nCategories=Development;IDE;\nTerminal=false\nStartupWMClass=jetbrains-");
        r.append(self.short_name.as_str());
        r
    }
}

} // verus!
