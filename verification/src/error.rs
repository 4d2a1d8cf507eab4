use vstd::prelude::*;
use vstd::string::StringExecFns;

verus! {

/// The errors of this crate, with their payload text taken by its view.
pub enum IrodzukiErrorView {
    InvalidColor(Seq<char>),
    Parse(Seq<char>),
    MissingSlot(Seq<char>),
}

/// Errors raised while reading colours and schemes.
#[derive(Debug)]
pub enum IrodzukiError {
    /// A colour literal could not be read; the payload says why or repeats it.
    InvalidColor(String),
    /// A scheme could not be read.
    Parse(String),
    /// A base16 slot was missing.
    MissingSlot(String),
}

impl View for IrodzukiError {
    type V = IrodzukiErrorView;

    open spec fn view(&self) -> IrodzukiErrorView {
        match self {
            IrodzukiError::InvalidColor(s) => IrodzukiErrorView::InvalidColor(s@),
            IrodzukiError::Parse(s) => IrodzukiErrorView::Parse(s@),
            IrodzukiError::MissingSlot(s) => IrodzukiErrorView::MissingSlot(s@),
        }
    }
}

/// The human-readable message of an error: a fixed prefix per kind, then the payload.
pub open spec fn error_message(e: IrodzukiErrorView) -> Seq<char> {
    match e {
        IrodzukiErrorView::InvalidColor(p) => "invalid color: "@ + p,
        IrodzukiErrorView::Parse(p) => "scheme parsing failed: "@ + p,
        IrodzukiErrorView::MissingSlot(p) => "missing base16 slot: "@ + p,
    }
}

/// A result of this crate, with its error taken by its view.
pub open spec fn view_result<T>(r: std::result::Result<T, IrodzukiError>) -> std::result::Result<
    T,
    IrodzukiErrorView,
> {
    match r {
        Ok(v) => Ok(v),
        Err(e) => Err(e@),
    }
}

impl IrodzukiError {
    /// The message of this error (what its `Display` form reads).
    pub fn to_string(&self) -> (s: String)
        ensures
            s@ == error_message(self@),
    {
        match self {
            IrodzukiError::InvalidColor(p) => {
                let mut s = String::from_str("invalid color: ");
                s.append(p.as_str());
                s
            },
            IrodzukiError::Parse(p) => {
                let mut s = String::from_str("scheme parsing failed: ");
                s.append(p.as_str());
                s
            },
            IrodzukiError::MissingSlot(p) => {
                let mut s = String::from_str("missing base16 slot: ");
                s.append(p.as_str());
                s
            },
        }
    }
}

/// The result type of this crate.
pub type Result<T> = std::result::Result<T, IrodzukiError>;

} // verus!
