//! Rendering of driver diagnostics as one line of text.

use vstd::prelude::*;
use vstd::string::StringExecFns;

verus! {

/// Severity flags of a driver diagnostic. Several may be set at once; the
/// most serious one names the message.
#[derive(Clone, Copy, Debug, PartialEq, Eq, Structural)]
pub struct Severity {
    pub error: bool,
    pub warning: bool,
    pub information: bool,
    pub verbose: bool,
}

/// Category flags of a driver diagnostic.
#[derive(Clone, Copy, Debug, PartialEq, Eq, Structural)]
pub struct MessageKind {
    pub general: bool,
    pub validation: bool,
    pub performance: bool,
}

impl Severity {
    /// At least one flag is set.
    pub open spec fn any(self) -> bool {
        self.error || self.warning || self.information || self.verbose
    }

    /// The label of the most serious flag that is set.
    pub open spec fn label(self) -> Seq<char> {
        if self.error {
            "ERROR!"@
        } else if self.warning {
            "warning"@
        } else if self.information {
            "information"@
        } else {
            "verbose"@
        }
    }

    /// Tells whether any severity flag is set.
    pub fn is_set(&self) -> (r: bool)
        ensures
            r == self.any(),
    {
        self.error || self.warning || self.information || self.verbose
    }

    /// The word a message of this severity is printed with.
    pub fn label_text(&self) -> (text: &'static str)
        requires
            self.any(),
        ensures
            text@ == self.label(),
    {
        if self.error {
            "ERROR!"
        } else if self.warning {
            "warning"
        } else if self.information {
            "information"
        } else {
            "verbose"
        }
    }
}

impl MessageKind {
    /// At least one flag is set.
    pub open spec fn any(self) -> bool {
        self.general || self.validation || self.performance
    }

    /// The label of the first flag that is set, in the order general,
    /// validation, performance.
    pub open spec fn label(self) -> Seq<char> {
        if self.general {
            "GENERAL"@
        } else if self.validation {
            "VALIDATION"@
        } else {
            "PERFORMANCE"@
        }
    }

    /// Tells whether any category flag is set.
    pub fn is_set(&self) -> (r: bool)
        ensures
            r == self.any(),
    {
        self.general || self.validation || self.performance
    }

    /// The word a message of this category is printed with.
    pub fn label_text(&self) -> (text: &'static str)
        requires
            self.any(),
        ensures
            text@ == self.label(),
    {
        if self.general {
            "GENERAL"
        } else if self.validation {
            "VALIDATION"
        } else {
            "PERFORMANCE"
        }
    }
}

/// The name a message is attributed to: the reporting layer's prefix, or
/// `unknown` where the driver gave none.
pub open spec fn origin_of(prefix: Option<&str>) -> Seq<char> {
    match prefix {
        Some(p) => p@,
        None => "unknown"@,
    }
}

/// The text of one diagnostic: `origin: [KIND] severity - description`.
pub open spec fn message_line(
    origin: Seq<char>,
    kind: Seq<char>,
    severity: Seq<char>,
    description: Seq<char>,
) -> Seq<char> {
    origin + ": ["@ + kind + "] "@ + severity + " - "@ + description
}

/// Renders a driver diagnostic as the line that is printed for it.
pub fn describe(
    prefix: Option<&str>,
    kind: &MessageKind,
    severity: &Severity,
    description: &str,
) -> (line: String)
    requires
        kind.any(),
        severity.any(),
    ensures
        line@ == message_line(origin_of(prefix), kind.label(), severity.label(), description@),
{
    let origin: &str = match prefix {
        Some(p) => p,
        None => "unknown",
    };
    let mut line = String::from_str(origin);
    line.append(": [");
    line.append(kind.label_text());
    line.append("] ");
    line.append(severity.label_text());
    line.append(" - ");
    line.append(description);
    line
}

} // verus!
