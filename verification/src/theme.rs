//! The color table of the interface: a base16 palette whose slots are named
//! by their conventional role, with the Catppuccin Macchiato scheme as the
//! built-in default. Colors are hex codes as strings; turning them into
//! terminal colors is the display layer's business.

use vstd::prelude::*;
use vstd::string::StringExecFns;

verus! {

/// The sixteen slots of a base16 color scheme.
#[allow(non_camel_case_types)]
#[derive(Debug, Clone, Copy, PartialEq, Eq, Structural)]
pub enum Base16 {
    Base00,
    Base01,
    Base02,
    Base03,
    Base04,
    Base05,
    Base06,
    Base07,
    Base08,
    Base09,
    Base0A,
    Base0B,
    Base0C,
    Base0D,
    Base0E,
    Base0F,
}

/// A base16 color scheme: its name, its author, and one hex color code per
/// slot.
#[allow(non_snake_case)]
#[derive(Debug, Clone)]
pub struct Theme {
    pub scheme: String,
    pub author: String,
    pub base00: String,
    pub base01: String,
    pub base02: String,
    pub base03: String,
    pub base04: String,
    pub base05: String,
    pub base06: String,
    pub base07: String,
    pub base08: String,
    pub base09: String,
    pub base0A: String,
    pub base0B: String,
    pub base0C: String,
    pub base0D: String,
    pub base0E: String,
    pub base0F: String,
}

impl Theme {
    /// The hex code stored in a slot.
    pub open spec fn color_of(self, code: Base16) -> Seq<char> {
        match code {
            Base16::Base00 => self.base00@,
            Base16::Base01 => self.base01@,
            Base16::Base02 => self.base02@,
            Base16::Base03 => self.base03@,
            Base16::Base04 => self.base04@,
            Base16::Base05 => self.base05@,
            Base16::Base06 => self.base06@,
            Base16::Base07 => self.base07@,
            Base16::Base08 => self.base08@,
            Base16::Base09 => self.base09@,
            Base16::Base0A => self.base0A@,
            Base16::Base0B => self.base0B@,
            Base16::Base0C => self.base0C@,
            Base16::Base0D => self.base0D@,
            Base16::Base0E => self.base0E@,
            Base16::Base0F => self.base0F@,
        }
    }

    pub fn get_color(&self, code: Base16) -> (c: &str)
        ensures
            c@ == self.color_of(code),
    {
        match code {
            Base16::Base00 => self.base00.as_str(),
            Base16::Base01 => self.base01.as_str(),
            Base16::Base02 => self.base02.as_str(),
            Base16::Base03 => self.base03.as_str(),
            Base16::Base04 => self.base04.as_str(),
            Base16::Base05 => self.base05.as_str(),
            Base16::Base06 => self.base06.as_str(),
            Base16::Base07 => self.base07.as_str(),
            Base16::Base08 => self.base08.as_str(),
            Base16::Base09 => self.base09.as_str(),
            Base16::Base0A => self.base0A.as_str(),
            Base16::Base0B => self.base0B.as_str(),
            Base16::Base0C => self.base0C.as_str(),
            Base16::Base0D => self.base0D.as_str(),
            Base16::Base0E => self.base0E.as_str(),
            Base16::Base0F => self.base0F.as_str(),
        }
    }
}

impl Default for Theme {
    /// The built-in scheme, Catppuccin Macchiato.
    fn default() -> (t: Self)
        ensures
            t.scheme@ == "Catppuccin Macchiato"@,
            t.author@ == "https://github.com/catppuccin/catppuccin"@,
            t.base00@ == "#24273a"@,
            t.base01@ == "#1e2030"@,
            t.base02@ == "#363a4f"@,
            t.base03@ == "#494d64"@,
            t.base04@ == "#5b6078"@,
            t.base05@ == "#cad3f5"@,
            t.base06@ == "#f4dbd6"@,
            t.base07@ == "#b7bdf8"@,
            t.base08@ == "#ed8796"@,
            t.base09@ == "#f5a97f"@,
            t.base0A@ == "#eed49f"@,
            t.base0B@ == "#a6da95"@,
            t.base0C@ == "#8bd5ca"@,
            t.base0D@ == "#8aadf4"@,
            t.base0E@ == "#c6a0f6"@,
            t.base0F@ == "#f0c6c6"@,
    {
        Self {
            scheme: String::from_str("Catppuccin Macchiato"),
            author: String::from_str("https://github.com/catppuccin/catppuccin"),
            base00: String::from_str("#24273a"),
            base01: String::from_str("#1e2030"),
            base02: String::from_str("#363a4f"),
            base03: String::from_str("#494d64"),
            base04: String::from_str("#5b6078"),
            base05: String::from_str("#cad3f5"),
            base06: String::from_str("#f4dbd6"),
            base07: String::from_str("#b7bdf8"),
            base08: String::from_str("#ed8796"),
            base09: String::from_str("#f5a97f"),
            base0A: String::from_str("#eed49f"),
            base0B: String::from_str("#a6da95"),
            base0C: String::from_str("#8bd5ca"),
            base0D: String::from_str("#8aadf4"),
            base0E: String::from_str("#c6a0f6"),
            base0F: String::from_str("#f0c6c6"),
        }
    }
}

} // verus!
