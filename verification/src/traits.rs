//! The two rendering traits, and the model of what a render does.

use vstd::prelude::*;
use crate::errors::{ErrorKind, GerberResult};

verus! {

/// What a render does to its sink: the text it appends, and the kind of failure that ended
/// it, if one did. A render that fails keeps what it had appended before: `text` is then the
/// part that was written up to the failure.
pub struct Rendering {
    pub text: Seq<char>,
    pub failure: Option<ErrorKind>,
}

impl Rendering {
    /// A render that appends `text` and succeeds.
    pub open spec fn ok(text: Seq<char>) -> Rendering {
        Rendering { text, failure: None }
    }

    /// A render that fails before it has appended anything.
    pub open spec fn fail(kind: ErrorKind) -> Rendering {
        Rendering { text: Seq::empty(), failure: Some(kind) }
    }

    /// This render followed by `next`. Where this one fails, `next` does not happen.
    pub open spec fn and_then(self, next: Rendering) -> Rendering {
        if self.failure is Some {
            self
        } else {
            Rendering { text: self.text + next.text, failure: next.failure }
        }
    }

    /// Whether `result` reports this render: success where it succeeds, and an error of the
    /// kind of its failure where it fails.
    pub open spec fn reported_by(self, result: GerberResult<()>) -> bool {
        match result {
            Ok(_) => self.failure is None,
            Err(e) => self.failure == Some(e.kind()),
        }
    }
}

/// Types whose values render as a complete line of Gerber code, newline included.
pub trait GerberCode {
    /// Whether this crate defines code for the value and for all that it holds. It does for
    /// all but a few attribute variants. A value without code renders as a failure.
    spec fn supported(&self) -> bool;

    /// The render of the value as a line.
    spec fn code(&self) -> Rendering;

    /// Tells whether this crate defines code for the value. The render of a value for which
    /// it does not is a failure.
    fn is_supported(&self) -> (supported: bool)
        ensures
            supported == self.supported(),
            !supported ==> self.code().failure is Some,
    ;

    /// Appends the line to `writer`. On failure `writer` keeps what was appended before the
    /// failure.
    fn serialize(&self, writer: &mut String) -> (result: GerberResult<()>)
        ensures
            final(writer)@ =~= old(writer)@ + self.code().text,
            self.code().reported_by(result),
    ;
}

/// Types whose values render as a part of a line.
pub trait PartialGerberCode {
    /// Whether this crate defines code for the value and for all that it holds. It does for
    /// all but a few attribute variants. A value without code renders as a failure.
    spec fn partial_supported(&self) -> bool;

    /// The render of the value as a part of a line.
    spec fn partial_code(&self) -> Rendering;

    /// Tells whether this crate defines code for the value. The render of a value for which
    /// it does not is a failure.
    fn is_partial_supported(&self) -> (supported: bool)
        ensures
            supported == self.partial_supported(),
            !supported ==> self.partial_code().failure is Some,
    ;

    /// Appends the code to `writer`, without a line terminator. On failure `writer` keeps
    /// what was appended before the failure.
    fn serialize_partial(&self, writer: &mut String) -> (result: GerberResult<()>)
        ensures
            final(writer)@ =~= old(writer)@ + self.partial_code().text,
            self.partial_code().reported_by(result),
    ;
}

} // verus!
