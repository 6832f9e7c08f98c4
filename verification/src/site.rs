//! The data a call site carries into the rule: its source location, the
//! invoked operation's name, and the receiver's resolved type.

use vstd::prelude::*;

verus! {

/// A source location, as a half-open range of positions in the file under
/// analysis.
#[derive(Clone, Copy, Debug, PartialEq, Eq, Structural)]
pub struct Span {
    pub lo: usize,
    pub hi: usize,
}

/// Host-resolved type information for an expression. The host's type
/// resolution is an external collaborator, so a descriptor is exposed to
/// the rule only as renderable text (e.g. a canonical type name); the rule
/// never parses it beyond testing substring membership.
#[derive(Debug)]
pub struct TypeDescriptor {
    text: String,
}

impl View for TypeDescriptor {
    type V = Seq<char>;

    closed spec fn view(&self) -> Seq<char> {
        self.text@
    }
}

impl TypeDescriptor {
    /// Wrap the rendered text of a resolved type, as the host supplies it.
    pub fn new(text: String) -> (descriptor: Self)
        ensures
            descriptor@ == text@,
    {
        TypeDescriptor { text }
    }

    /// The rendered text form of the type.
    pub fn as_text(&self) -> (text: &str)
        ensures
            text@ == self@,
    {
        self.text.as_str()
    }
}

/// One call expression under examination: where it stands, the invoked
/// operation's simple name, and the receiver's resolved type. `None` for
/// the receiver type records that the host could not resolve it; such a
/// call is never reported. A call site lives only for its own
/// classification.
pub struct CallSite {
    pub span: Span,
    pub operation: String,
    pub receiver_type: Option<TypeDescriptor>,
}

/// The mathematical image of a [`CallSite`]: its texts as character
/// sequences.
pub struct CallSiteView {
    pub span: Span,
    pub operation: Seq<char>,
    pub receiver_type: Option<Seq<char>>,
}

impl View for CallSite {
    type V = CallSiteView;

    open spec fn view(&self) -> CallSiteView {
        CallSiteView {
            span: self.span,
            operation: self.operation@,
            receiver_type: match self.receiver_type {
                Some(descriptor) => Some(descriptor@),
                None => None,
            },
        }
    }
}

} // verus!
