//! The choices a command line offers per language.

use vstd::prelude::*;

verus! {

/// The type of C# language server to use.
#[derive(Debug, Copy, Clone, PartialEq, Eq, PartialOrd, Ord, Structural)]
pub enum CsharpLspOption {
    /// The C# language server provided by the C# extension for the editor.
    CsharpLsp,
    /// The C# language server of the OmniSharp project.
    OmniSharp,
}

/// The type of Cargo package template to use.
#[derive(Debug, Copy, Clone, PartialEq, Eq, PartialOrd, Ord, Structural)]
pub enum CargoPackageTemplateOption {
    /// A binary.
    Binary,
    /// A library.
    Library,
}

impl CsharpLspOption {
    /// The name by which the command line selects this server.
    pub open spec fn spec_name(self) -> Seq<char> {
        match self {
            CsharpLspOption::CsharpLsp => "CsharpLsp"@,
            CsharpLspOption::OmniSharp => "OmniSharp"@,
        }
    }

    /// The name by which the command line selects this server.
    pub fn name(&self) -> (name: &'static str)
        ensures
            name@ == self.spec_name(),
    {
        match self {
            CsharpLspOption::CsharpLsp => "CsharpLsp",
            CsharpLspOption::OmniSharp => "OmniSharp",
        }
    }

    /// Whether the editor is told to use OmniSharp.
    pub open spec fn spec_uses_omnisharp(self) -> bool {
        self == CsharpLspOption::OmniSharp
    }

    /// Whether the editor is told to use OmniSharp.
    pub fn uses_omnisharp(&self) -> (flag: bool)
        ensures
            flag == self.spec_uses_omnisharp(),
    {
        match self {
            CsharpLspOption::CsharpLsp => false,
            CsharpLspOption::OmniSharp => true,
        }
    }

    /// The server path written to the settings: empty for the built-in
    /// server, `latest` for OmniSharp.
    pub open spec fn spec_server_path(self) -> Seq<char> {
        match self {
            CsharpLspOption::CsharpLsp => ""@,
            CsharpLspOption::OmniSharp => "latest"@,
        }
    }

    /// The server path written to the settings.
    pub fn server_path(&self) -> (path: &'static str)
        ensures
            path@ == self.spec_server_path(),
    {
        match self {
            CsharpLspOption::CsharpLsp => "",
            CsharpLspOption::OmniSharp => "latest",
        }
    }
}

impl CargoPackageTemplateOption {
    /// The name by which the command line selects this template.
    pub open spec fn spec_name(self) -> Seq<char> {
        match self {
            CargoPackageTemplateOption::Binary => "Binary"@,
            CargoPackageTemplateOption::Library => "Library"@,
        }
    }

    /// The name by which the command line selects this template.
    pub fn name(&self) -> (name: &'static str)
        ensures
            name@ == self.spec_name(),
    {
        match self {
            CargoPackageTemplateOption::Binary => "Binary",
            CargoPackageTemplateOption::Library => "Library",
        }
    }

    /// The flag that asks the package manager for this template.
    pub open spec fn spec_cargo_flag(self) -> Seq<char> {
        match self {
            CargoPackageTemplateOption::Binary => "--bin"@,
            CargoPackageTemplateOption::Library => "--lib"@,
        }
    }

    /// The flag that asks the package manager for this template.
    pub fn cargo_flag(&self) -> (flag: &'static str)
        ensures
            flag@ == self.spec_cargo_flag(),
    {
        match self {
            CargoPackageTemplateOption::Binary => "--bin",
            CargoPackageTemplateOption::Library => "--lib",
        }
    }
}

} // verus!
