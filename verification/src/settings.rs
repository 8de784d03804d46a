//! The tool settings the conversion stages read: where the two command-line
//! tools live, and which reference document styles the Docx stage.
//!
//! Loading and saving the configuration file is the surrounding program's
//! business; the verified stages only read these plain values.

use vstd::prelude::*;

verus! {

/// Settings of the template-to-Markdown tool.
#[derive(Debug)]
pub struct Gotmpl {
    /// The tool's binary; its bare name is used when unset.
    pub binary: Option<String>,
}

/// Settings of the Markdown-to-Docx tool.
#[derive(Debug)]
pub struct Pandoc {
    /// The tool's binary; its bare name is used when unset.
    pub binary: Option<String>,
    /// The reference document whose styles the output copies; a bundled
    /// default is used when unset.
    pub reference_doc: Option<String>,
}

/// All tool settings.
#[derive(Debug)]
pub struct Settings {
    pub gotmpl: Gotmpl,
    pub pandoc: Pandoc,
}

/// The mathematical value of [`Gotmpl`].
pub struct GotmplV {
    pub binary: Option<Seq<char>>,
}

/// The mathematical value of [`Pandoc`].
pub struct PandocV {
    pub binary: Option<Seq<char>>,
    pub reference_doc: Option<Seq<char>>,
}

/// The mathematical value of [`Settings`].
pub struct SettingsV {
    pub gotmpl: GotmplV,
    pub pandoc: PandocV,
}

/// The mathematical value of an optional string.
pub open spec fn opt_str_v(o: Option<String>) -> Option<Seq<char>> {
    match o {
        Some(s) => Some(s@),
        None => None,
    }
}

impl View for Gotmpl {
    type V = GotmplV;

    open spec fn view(&self) -> GotmplV {
        GotmplV { binary: opt_str_v(self.binary) }
    }
}

impl View for Pandoc {
    type V = PandocV;

    open spec fn view(&self) -> PandocV {
        PandocV {
            binary: opt_str_v(self.binary),
            reference_doc: opt_str_v(self.reference_doc),
        }
    }
}

impl View for Settings {
    type V = SettingsV;

    open spec fn view(&self) -> SettingsV {
        SettingsV { gotmpl: self.gotmpl@, pandoc: self.pandoc@ }
    }
}

} // verus!
