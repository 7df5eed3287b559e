//! The catalog of known products, one type per product.
use vstd::prelude::*;

use crate::entry::{Buildable, Entry, EntryView, IDE, Readable, Writable};

verus! {

/// The marker whose presence in a case-folded archive name identifies
/// product `k`; products are numbered in the order in which their markers
/// are tried.
pub open spec fn marker(k: int) -> Seq<char> {
    if k == 0 {
        "go"@
    } else if k == 1 {
        "py"@
    } else if k == 2 {
        "rust"@
    } else if k == 3 {
        "idea"@
    } else {
        "ruby"@
    }
}

/// A descriptor as the catalog makes it: no paths yet.
pub open spec fn fresh_entry(
    name: Seq<char>,
    comment: Seq<char>,
    short_name: Seq<char>,
    hex_color: u64,
) -> EntryView {
    EntryView {
        name,
        comment,
        icon: Seq::empty(),
        exec_path: Seq::empty(),
        short_name,
        hex_color,
    }
}

/// The fresh descriptor of product `k` (see `marker` for the numbering).
pub open spec fn catalog_entry(k: int) -> EntryView {
    if k == 0 {
        fresh_entry("GoLand"@, "The complete IDE crafted for Gophers"@, "goland"@, 0x7147f8)
    } else if k == 1 {
        fresh_entry("PyCharm"@, "The Python IDE for Professional Developers"@, "pycharm"@, 0x1dd2a2)
    } else if k == 2 {
        fresh_entry("RustRover"@, "Focus on what matters"@, "rustrover"@, 0xff5c00)
    } else if k == 3 {
        fresh_entry("IntelliJ IDEA"@, "The Leading Java and Kotlin IDE"@, "idea"@, 0x573dc5)
    } else {
        fresh_entry("RubyMine"@, "Empowering Ruby Developers"@, "rubymine"@, 0xdb0ee2)
    }
}

/// GoLand: The complete IDE crafted for Gophers.
pub struct Goland {
    entries: Entry,
}

impl Goland {
    pub fn new() -> (r: Self)
        ensures
            r.entry_view() == catalog_entry(0),
    {
        Goland {
            entries: Entry {
                name: String::from_str("GoLand"),
                comment: String::from_str("The complete IDE crafted for Gophers"),
                icon: String::new(),
                exec_path: String::new(),
                short_name: String::from_str("goland"),
                hex_color: 0x7147f8,
            },
        }
    }
}

impl Readable for Goland {
    closed spec fn entry_view(&self) -> EntryView {
        self.entries@
    }

    fn get_name(&self) -> (r: &String) {
        &self.entries.name
    }

    fn get_comment(&self) -> (r: &String) {
        &self.entries.comment
    }

    fn get_short_name(&self) -> (r: &String) {
        &self.entries.short_name
    }

    fn get_exec(&self) -> (r: &String) {
        &self.entries.exec_path
    }

    fn get_icon(&self) -> (r: &String) {
        &self.entries.icon
    }

    fn get_entries(&self) -> (r: &Entry) {
        &self.entries
    }

    fn get_color(&self) -> (r: u64) {
        self.entries.hex_color
    }
}

impl Writable for Goland {
    fn set_icon(&mut self, icon_path: String) {
        self.entries.icon = icon_path;
    }

    fn set_exec(&mut self, exec_path: String) {
        self.entries.exec_path = exec_path;
    }
}

impl Buildable for Goland {

}

impl IDE for Goland {

}

/// PyCharm: The Python IDE for Professional Developers.
pub struct Pycharm {
    entries: Entry,
}

impl Pycharm {
    pub fn new() -> (r: Self)
        ensures
            r.entry_view() == catalog_entry(1),
    {
        Pycharm {
            entries: Entry {
                name: String::from_str("PyCharm"),
                comment: String::from_str("The Python IDE for Professional Developers"),
                icon: String::new(),
                exec_path: String::new(),
                short_name: String::from_str("pycharm"),
                hex_color: 0x1dd2a2,
            },
        }
    }
}

impl Readable for Pycharm {
    closed spec fn entry_view(&self) -> EntryView {
        self.entries@
    }

    fn get_name(&self) -> (r: &String) {
        &self.entries.name
    }

    fn get_comment(&self) -> (r: &String) {
        &self.entries.comment
    }

    fn get_short_name(&self) -> (r: &String) {
        &self.entries.short_name
    }

    fn get_exec(&self) -> (r: &String) {
        &self.entries.exec_path
    }

    fn get_icon(&self) -> (r: &String) {
        &self.entries.icon
    }

    fn get_entries(&self) -> (r: &Entry) {
        &self.entries
    }

    fn get_color(&self) -> (r: u64) {
        self.entries.hex_color
    }
}

impl Writable for Pycharm {
    fn set_icon(&mut self, icon_path: String) {
        self.entries.icon = icon_path;
    }

    fn set_exec(&mut self, exec_path: String) {
        self.entries.exec_path = exec_path;
    }
}

impl Buildable for Pycharm {

}

impl IDE for Pycharm {

}

/// RustRover: Focus on what matters.
pub struct RustRover {
    entries: Entry,
}

impl RustRover {
    pub fn new() -> (r: Self)
        ensures
            r.entry_view() == catalog_entry(2),
    {
        RustRover {
            entries: Entry {
                name: String::from_str("RustRover"),
                comment: String::from_str("Focus on what matters"),
                icon: String::new(),
                exec_path: String::new(),
                short_name: String::from_str("rustrover"),
                hex_color: 0xff5c00,
            },
        }
    }
}

impl Readable for RustRover {
    closed spec fn entry_view(&self) -> EntryView {
        self.entries@
    }

    fn get_name(&self) -> (r: &String) {
        &self.entries.name
    }

    fn get_comment(&self) -> (r: &String) {
        &self.entries.comment
    }

    fn get_short_name(&self) -> (r: &String) {
        &self.entries.short_name
    }

    fn get_exec(&self) -> (r: &String) {
        &self.entries.exec_path
    }

    fn get_icon(&self) -> (r: &String) {
        &self.entries.icon
    }

    fn get_entries(&self) -> (r: &Entry) {
        &self.entries
    }

    fn get_color(&self) -> (r: u64) {
        self.entries.hex_color
    }
}

impl Writable for RustRover {
    fn set_icon(&mut self, icon_path: String) {
        self.entries.icon = icon_path;
    }

    fn set_exec(&mut self, exec_path: String) {
        self.entries.exec_path = exec_path;
    }
}

impl Buildable for RustRover {

}

impl IDE for RustRover {

}

/// IntelliJ IDEA: The Leading Java and Kotlin IDE.
pub struct Idea {
    entries: Entry,
}

impl Idea {
    pub fn new() -> (r: Self)
        ensures
            r.entry_view() == catalog_entry(3),
    {
        Idea {
            entries: Entry {
                name: String::from_str("IntelliJ IDEA"),
                comment: String::from_str("The Leading Java and Kotlin IDE"),
                icon: String::new(),
                exec_path: String::new(),
                short_name: String::from_str("idea"),
                hex_color: 0x573dc5,
            },
        }
    }
}

impl Readable for Idea {
    closed spec fn entry_view(&self) -> EntryView {
        self.entries@
    }

    fn get_name(&self) -> (r: &String) {
        &self.entries.name
    }

    fn get_comment(&self) -> (r: &String) {
        &self.entries.comment
    }

    fn get_short_name(&self) -> (r: &String) {
        &self.entries.short_name
    }

    fn get_exec(&self) -> (r: &String) {
        &self.entries.exec_path
    }

    fn get_icon(&self) -> (r: &String) {
        &self.entries.icon
    }

    fn get_entries(&self) -> (r: &Entry) {
        &self.entries
    }

    fn get_color(&self) -> (r: u64) {
        self.entries.hex_color
    }
}

impl Writable for Idea {
    fn set_icon(&mut self, icon_path: String) {
        self.entries.icon = icon_path;
    }

    fn set_exec(&mut self, exec_path: String) {
        self.entries.exec_path = exec_path;
    }
}

impl Buildable for Idea {

}

impl IDE for Idea {

}

/// RubyMine: Empowering Ruby Developers.
pub struct RubyMine {
    entries: Entry,
}

impl RubyMine {
    pub fn new() -> (r: Self)
        ensures
            r.entry_view() == catalog_entry(4),
    {
        RubyMine {
            entries: Entry {
                name: String::from_str("RubyMine"),
                comment: String::from_str("Empowering Ruby Developers"),
                icon: String::new(),
                exec_path: String::new(),
                short_name: String::from_str("rubymine"),
                hex_color: 0xdb0ee2,
            },
        }
    }
}

impl Readable for RubyMine {
    closed spec fn entry_view(&self) -> EntryView {
        self.entries@
    }

    fn get_name(&self) -> (r: &String) {
        &self.entries.name
    }

    fn get_comment(&self) -> (r: &String) {
        &self.entries.comment
    }

    fn get_short_name(&self) -> (r: &String) {
        &self.entries.short_name
    }

    fn get_exec(&self) -> (r: &String) {
        &self.entries.exec_path
    }

    fn get_icon(&self) -> (r: &String) {
        &self.entries.icon
    }

    fn get_entries(&self) -> (r: &Entry) {
        &self.entries
    }

    fn get_color(&self) -> (r: u64) {
        self.entries.hex_color
    }
}

impl Writable for RubyMine {
    fn set_icon(&mut self, icon_path: String) {
        self.entries.icon = icon_path;
    }

    fn set_exec(&mut self, exec_path: String) {
        self.entries.exec_path = exec_path;
    }
}

impl Buildable for RubyMine {

}

impl IDE for RubyMine {

}

} // verus!
