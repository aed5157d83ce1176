use vstd::prelude::*;

verus! {

/// What a container writes, and whether it ends on its own.
#[derive(Debug, Clone, Copy, PartialEq, Eq, Structural)]
pub enum OutputFormat {
    /// No output of the unit is expected.
    Silent,
    /// Client results are expected in the capture file.
    Client,
    /// The capture file is read as a literal string.
    Passthrough,
    /// A router, which does not end on its own.
    Router,
    /// A router that writes a log into its capture file.
    RouterLogging,
}

impl Default for OutputFormat {
    fn default() -> (r: OutputFormat)
        ensures
            r == OutputFormat::Silent,
    {
        OutputFormat::Silent
    }
}

/// The description of one container.
#[derive(Debug, Clone, Copy, PartialEq, Eq, Structural)]
pub struct Container {
    pub output_type: OutputFormat,
}

/// A router is not expected to terminate on its own.
pub open spec fn is_router_format(f: OutputFormat) -> bool {
    f == OutputFormat::Router || f == OutputFormat::RouterLogging
}

/// These formats produce output that the driver reads back.
pub open spec fn has_file_format(f: OutputFormat) -> bool {
    f == OutputFormat::Client || f == OutputFormat::Passthrough || f == OutputFormat::RouterLogging
}

impl Container {
    pub fn new(output_type: OutputFormat) -> (r: Container)
        ensures
            r.output_type == output_type,
    {
        Container { output_type }
    }

    pub fn is_router(&self) -> (r: bool)
        ensures
            r == is_router_format(self.output_type),
    {
        match self.output_type {
            OutputFormat::Router | OutputFormat::RouterLogging => true,
            _ => false,
        }
    }

    pub fn has_file(&self) -> (r: bool)
        ensures
            r == has_file_format(self.output_type),
    {
        match self.output_type {
            OutputFormat::Client | OutputFormat::Passthrough | OutputFormat::RouterLogging => true,
            _ => false,
        }
    }
}

} // verus!
