use vstd::prelude::*;

verus! {

/// Output format options for displaying arbitrage data.
#[derive(Debug, Clone, Copy, PartialEq, Eq, Structural)]
pub enum OutputFormat {
    /// Human-readable table format.
    Table,
    /// JSON format for machine processing.
    Json,
    /// Compact single-line format.
    Compact,
}

impl OutputFormat {
    /// The format's name, as it appears on the command line.
    pub fn as_str(&self) -> (r: &'static str)
        ensures
            self is Table ==> r@ == "table"@,
            self is Json ==> r@ == "json"@,
            self is Compact ==> r@ == "compact"@,
    {
        match self {
            OutputFormat::Table => "table",
            OutputFormat::Json => "json",
            OutputFormat::Compact => "compact",
        }
    }
}

impl Default for OutputFormat {
    /// The default presentation is the human-readable table.
    fn default() -> (r: Self)
        ensures
            r is Table,
    {
        OutputFormat::Table
    }
}

/// Presentation settings for arbitrage opportunities and price pairs.
/// The rendering itself is the output collaborator's job.
#[derive(Debug, Clone, Copy, PartialEq, Eq, Structural)]
pub struct OutputFormatter {
    format: OutputFormat,
    show_timestamps: bool,
    precision: usize,
}

impl OutputFormatter {
    pub closed spec fn spec_format(&self) -> OutputFormat {
        self.format
    }

    pub closed spec fn spec_show_timestamps(&self) -> bool {
        self.show_timestamps
    }

    pub closed spec fn spec_precision(&self) -> usize {
        self.precision
    }

    /// Create a new formatter with the specified format and the default
    /// settings: timestamps on, four decimal places.
    pub fn new(format: OutputFormat) -> (r: Self)
        ensures
            r.spec_format() == format,
            r.spec_show_timestamps(),
            r.spec_precision() == 4,
    {
        OutputFormatter { format, show_timestamps: true, precision: 4 }
    }

    /// Create a formatter with custom settings.
    pub fn with_settings(format: OutputFormat, show_timestamps: bool, precision: usize) -> (r:
        Self)
        ensures
            r.spec_format() == format,
            r.spec_show_timestamps() == show_timestamps,
            r.spec_precision() == precision,
    {
        OutputFormatter { format, show_timestamps, precision }
    }

    /// Get the configured format.
    pub fn format(&self) -> (r: OutputFormat)
        ensures
            r == self.spec_format(),
    {
        self.format
    }

    /// Whether timestamps are shown.
    pub fn show_timestamps(&self) -> (r: bool)
        ensures
            r == self.spec_show_timestamps(),
    {
        self.show_timestamps
    }

    /// The number of decimal places to render prices with.
    pub fn precision(&self) -> (r: usize)
        ensures
            r == self.spec_precision(),
    {
        self.precision
    }
}

} // verus!
