//! Output settings: where the schema files go, how they are laid out and
//! how the SQL in them is formatted.
use vstd::prelude::*;

verus! {

/// Layout of the output files when saving the schema.
#[derive(Debug, Clone, Copy, PartialEq, Eq, Structural)]
pub enum Layout {
    /// Each schema has its own directory, with one file per type of objects.
    Normal,
    /// All objects are in a single file.
    Flat,
    /// Each type has its own directory under the schema directory.
    Nested,
}

impl Default for Layout {
    fn default() -> (r: Layout)
        ensures
            r == Layout::Normal,
    {
        Layout::Normal
    }
}

/// How the SQL of the saved schema is formatted.
#[derive(Debug, Clone, Copy, PartialEq, Eq, Structural)]
pub struct RenovateFormatConfig {
    /// Number of spaces of indentation.
    pub indent: u8,
    /// Whether reserved keywords are written in capitals.
    pub uppercase: bool,
    /// Number of line breaks after a query.
    pub lines_between_queries: u8,
}

impl Default for RenovateFormatConfig {
    fn default() -> (r: RenovateFormatConfig)
        ensures
            r == (RenovateFormatConfig { indent: 4, uppercase: true, lines_between_queries: 2 }),
    {
        RenovateFormatConfig {
            indent: default_indent(),
            uppercase: default_uppercase(),
            lines_between_queries: default_lines(),
        }
    }
}

/// Where and how the schema is saved.
#[derive(Debug, Clone, PartialEq, Eq)]
pub struct RenovateOutputConfig {
    pub layout: Layout,
    /// Directory of the output files.
    pub path: String,
    /// Formatting of the SQL; none leaves the rendered SQL as it is.
    pub format: Option<RenovateFormatConfig>,
}

impl Default for RenovateOutputConfig {
    fn default() -> (r: RenovateOutputConfig)
        ensures
            r.layout == Layout::Normal,
            r.path@ == "."@,
            r.format == Some(
                RenovateFormatConfig { indent: 4, uppercase: true, lines_between_queries: 2 },
            ),
    {
        RenovateOutputConfig {
            layout: Layout::default(),
            path: default_path(),
            format: default_format(),
        }
    }
}

/// The whole configuration.
#[derive(Debug, Clone, PartialEq, Eq)]
pub struct RenovateConfig {
    pub output: RenovateOutputConfig,
}

impl Default for RenovateConfig {
    fn default() -> (r: RenovateConfig)
        ensures
            r.output.layout == Layout::Normal,
            r.output.path@ == "."@,
            r.output.format == Some(
                RenovateFormatConfig { indent: 4, uppercase: true, lines_between_queries: 2 },
            ),
    {
        RenovateConfig { output: RenovateOutputConfig::default() }
    }
}

/// Formatting is on by default, with the default settings.
pub fn default_format() -> (r: Option<RenovateFormatConfig>)
    ensures
        r == Some(RenovateFormatConfig { indent: 4, uppercase: true, lines_between_queries: 2 }),
{
    Some(RenovateFormatConfig::default())
}

/// The output goes to the current directory by default.
pub fn default_path() -> (r: String)
    ensures
        r@ == "."@,
{
    ".".to_owned()
}

pub fn default_indent() -> (r: u8)
    ensures
        r == 4,
{
    4
}

pub fn default_uppercase() -> (r: bool)
    ensures
        r,
{
    true
}

pub fn default_lines() -> (r: u8)
    ensures
        r == 2,
{
    2
}

} // verus!
