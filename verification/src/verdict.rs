use vstd::prelude::*;

verus! {

/// Outcome of one conformance check.
#[derive(Debug, Clone, PartialEq, Eq)]
pub enum Verdict {
    Success,
    Fail(String),
}

/// Mathematical value of a [`Verdict`]: the reason as a sequence of characters.
pub enum VerdictView {
    Success,
    Fail(Seq<char>),
}

impl View for Verdict {
    type V = VerdictView;

    open spec fn view(&self) -> VerdictView {
        match self {
            Verdict::Success => VerdictView::Success,
            Verdict::Fail(reason) => VerdictView::Fail(reason@),
        }
    }
}

impl Verdict {
    /// A failing verdict carrying `reason`.
    pub fn fail(reason: &str) -> (v: Verdict)
        ensures
            v@ == VerdictView::Fail(reason@),
    {
        Verdict::Fail(reason.to_owned())
    }

    /// Whether the check passed.
    pub fn is_success(&self) -> (b: bool)
        ensures
            b == (self@ == VerdictView::Success),
    {
        match self {
            Verdict::Success => true,
            Verdict::Fail(_) => false,
        }
    }

    /// The reason of a failing verdict, `None` for a passing one.
    pub fn reason(&self) -> (r: Option<String>)
        ensures
            match self@ {
                VerdictView::Success => r.is_none(),
                VerdictView::Fail(text) => r.is_some() && r.unwrap()@ == text,
            },
    {
        match self {
            Verdict::Success => None,
            Verdict::Fail(reason) => Some(reason.clone()),
        }
    }

    /// A copy with the same value.
    pub fn duplicate(&self) -> (v: Verdict)
        ensures
            v@ == self@,
    {
        match self {
            Verdict::Success => Verdict::Success,
            Verdict::Fail(reason) => Verdict::Fail(reason.clone()),
        }
    }
}

} // verus!
