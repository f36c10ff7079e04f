use vstd::prelude::*;

verus! {

/// The format in which the API writes and reads date-times.
#[derive(Clone, Copy, PartialEq, Eq, Structural, Debug)]
pub enum AcceptDatetimeFormat {
    Unix,
    Rfc3339,
}

/// The header value that selects a date-time format.
pub open spec fn format_name(f: AcceptDatetimeFormat) -> Seq<char> {
    match f {
        AcceptDatetimeFormat::Unix => "UNIX"@,
        AcceptDatetimeFormat::Rfc3339 => "RFC3339"@,
    }
}

impl AcceptDatetimeFormat {
    /// The header value that selects this format.
    pub fn as_str(&self) -> (r: &'static str)
        ensures
            r@ == format_name(*self),
    {
        match self {
            AcceptDatetimeFormat::Unix => "UNIX",
            AcceptDatetimeFormat::Rfc3339 => "RFC3339",
        }
    }
}

} // verus!
