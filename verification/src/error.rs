use vstd::prelude::*;
use vstd::string::StringExecFns;
use crate::text::text_of;

verus! {

/// Why a declaration cannot be turned into a double.
#[derive(Clone, Copy, Debug, PartialEq, Eq, Structural)]
pub enum ErrorKind {
    /// The directive on an associated type does not read as a type.
    InvalidAssociatedType,
    /// The value of a `key = value` directive is not a string literal.
    InvalidValue,
    /// The string of a `key = value` directive does not read as what its key
    /// calls for.
    UnparsableValue,
    /// A parameter of a generic type whose bounds lack `'static`.
    UnboundedGeneric,
    /// A type that no field can name.
    UnsupportedShape,
}

/// A failure, with the member and the parameter at which it arose.
#[derive(Debug, PartialEq, Eq)]
pub struct GenerationError {
    pub kind: ErrorKind,
    /// The name of the member.
    pub member: String,
    /// The parameter as written, where the failure lies in one.
    pub parameter: Option<String>,
}

/// What a failure stands for in contracts.
pub ghost struct ErrorView {
    pub kind: ErrorKind,
    pub member: Seq<char>,
    pub parameter: Option<Seq<char>>,
}

impl View for GenerationError {
    type V = ErrorView;

    open spec fn view(&self) -> ErrorView {
        ErrorView {
            kind: self.kind,
            member: self.member@,
            parameter: match self.parameter {
                Some(text) => Some(text@),
                None => None,
            },
        }
    }
}

/// What went wrong, in words.
pub open spec fn spec_kind_text(kind: ErrorKind) -> Seq<char> {
    match kind {
        ErrorKind::InvalidAssociatedType => "invalid associated type"@,
        ErrorKind::InvalidValue => "invalid autospy value"@,
        ErrorKind::UnparsableValue => "could not parse autospy value"@,
        ErrorKind::UnboundedGeneric => "generic type is not 'static"@,
        ErrorKind::UnsupportedShape => "unsupported type"@,
    }
}

/// What went wrong and where: the member, and the parameter where the
/// failure lies in one.
pub open spec fn spec_message(error: ErrorView) -> Seq<char> {
    spec_kind_text(error.kind) + " in `"@ + error.member + "`"@ + (match error.parameter {
        Some(text) => ", at `"@ + text + "`"@,
        None => Seq::empty(),
    })
}

impl GenerationError {
    /// The failure in words, with the member and the parameter it lies in.
    pub fn message(&self) -> (out: String)
        ensures
            out@ == spec_message(self@),
    {
        let mut out = match self.kind {
            ErrorKind::InvalidAssociatedType => text_of("invalid associated type"),
            ErrorKind::InvalidValue => text_of("invalid autospy value"),
            ErrorKind::UnparsableValue => text_of("could not parse autospy value"),
            ErrorKind::UnboundedGeneric => text_of("generic type is not 'static"),
            ErrorKind::UnsupportedShape => text_of("unsupported type"),
        };
        out.append(" in `");
        out.append(self.member.as_str());
        out.append("`");
        match &self.parameter {
            Some(text) => {
                let mut place = text_of(", at `");
                place.append(text.as_str());
                place.append("`");
                out.append(place.as_str());
            },
            None => {
                proof {
                    assert(out@ + Seq::<char>::empty() =~= out@);
                }
            },
        }
        out
    }
}

} // verus!
