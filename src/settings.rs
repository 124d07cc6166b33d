use vstd::prelude::*;

verus! {

/// How one document is to be printed.
pub struct PrintSettings {
    /// Paper size, as the print system names it (`A4`, `Letter`).
    pub paper: String,
    /// Sides, as the print system names it (`simplex`, `duplex`).
    pub method: String,
    /// Scaling, in percent.
    pub scale: String,
    /// Orientation code, as the print system names it.
    pub orientation: String,
    /// Number of copies.
    pub repeat: u8,
}

/// One print request: a job title, the file to print and its settings.
pub struct PrintOptions {
    pub id: String,
    pub path: String,
    pub print_setting: PrintSettings,
}

} // verus!
