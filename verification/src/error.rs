//! Failures that keep their causes.

use vstd::prelude::*;
use vstd::string::*;

verus! {

/// A failure and what led to it: the message of the failure itself, then the
/// message of its cause, of the cause of that, and so on down to the root.
#[derive(Debug)]
pub struct ErrorChain {
    pub message: String,
    pub causes: Vec<String>,
}

/// An [`ErrorChain`] as a mathematical value.
pub struct ErrorChainView {
    pub message: Seq<char>,
    pub causes: Seq<Seq<char>>,
}

impl ErrorChainView {
    /// The failure `message`, caused by this one. Nothing of this chain is
    /// lost: its message becomes the first cause, ahead of its own causes.
    pub open spec fn context(self, message: Seq<char>) -> ErrorChainView {
        ErrorChainView { message, causes: seq![self.message] + self.causes }
    }

    /// A failure without a known cause.
    pub open spec fn root(message: Seq<char>) -> ErrorChainView {
        ErrorChainView { message, causes: Seq::empty() }
    }
}

impl View for ErrorChain {
    type V = ErrorChainView;

    open spec fn view(&self) -> ErrorChainView {
        ErrorChainView {
            message: self.message@,
            causes: Seq::new(self.causes@.len(), |i: int| self.causes@[i]@),
        }
    }
}

/// One cause as a report shows it.
pub open spec fn rendered_cause(cause: Seq<char>) -> Seq<char> {
    "Caused by:\n\t"@ + cause + "\n"@
}

/// The causes as a report shows them, one after the other.
pub open spec fn rendered_causes(causes: Seq<Seq<char>>) -> Seq<char>
    decreases causes.len(),
{
    if causes.len() == 0 {
        Seq::empty()
    } else {
        rendered_causes(causes.drop_last()) + rendered_cause(causes.last())
    }
}

/// The report of a failure: its message, an empty line, then every cause
/// from the nearest to the root.
pub open spec fn rendered_chain(e: ErrorChainView) -> Seq<char> {
    e.message + "\n\n"@ + rendered_causes(e.causes)
}

impl ErrorChain {
    /// A failure without a known cause.
    pub fn new(message: &str) -> (e: ErrorChain)
        ensures
            e@ == ErrorChainView::root(message@),
    {
        let e = ErrorChain { message: String::from_str(message), causes: Vec::new() };
        assert(e@.causes =~= Seq::empty());
        e
    }

    /// This failure as the cause of the failure `message`.
    pub fn context(self, message: &str) -> (e: ErrorChain)
        ensures
            e@ == self@.context(message@),
    {
        let ghost before = self@;
        let mut causes: Vec<String> = Vec::new();
        causes.push(self.message);
        let mut rest = self.causes;
        let ghost tail = rest@;
        causes.append(&mut rest);
        let e = ErrorChain { message: String::from_str(message), causes };
        assert(e@.causes =~= seq![before.message] + before.causes);
        e
    }

    /// A copy of this failure.
    pub fn clone(&self) -> (copy: ErrorChain)
        ensures
            copy@ == self@,
    {
        let mut causes: Vec<String> = Vec::new();
        let mut i: usize = 0;
        while i < self.causes.len()
            invariant
                i <= self.causes.len(),
                causes.len() == i,
                forall|j: int| 0 <= j < i ==> (#[trigger] causes[j])@ == self.causes[j]@,
            decreases self.causes.len() - i,
        {
            causes.push(self.causes[i].clone());
            i = i + 1;
        }
        let copy = ErrorChain { message: self.message.clone(), causes };
        assert(copy@.causes =~= self@.causes);
        copy
    }
}

/// Renders a failure with its whole chain of causes, for diagnostics.
pub fn error_chain_fmt(e: &ErrorChain) -> (report: String)
    ensures
        report@ == rendered_chain(e@),
{
    let mut report = e.message.clone();
    report.append("\n\n");
    let ghost causes = e@.causes;
    let mut i: usize = 0;
    assert(causes.take(0) =~= Seq::<Seq<char>>::empty());
    while i < e.causes.len()
        invariant
            i <= e.causes.len(),
            causes == e@.causes,
            report@ == e@.message + "\n\n"@ + rendered_causes(causes.take(i as int)),
        decreases e.causes.len() - i,
    {
        proof {
            assert(causes.take(i + 1).drop_last() =~= causes.take(i as int));
            assert(causes.take(i + 1).last() == e.causes[i as int]@);
        }
        let ghost before = report@;
        report.append("Caused by:\n\t");
        report.append(e.causes[i].as_str());
        report.append("\n");
        assert(report@ =~= before + rendered_cause(e.causes[i as int]@));
        assert(report@ =~= e@.message + "\n\n"@ + rendered_causes(causes.take(i + 1)));
        i = i + 1;
    }
    assert(causes.take(i as int) =~= causes);
    report
}

/// All that is told to the outside of a failure that was not the caller's
/// fault.
pub open spec fn internal_error_message() -> Seq<char> {
    "Something went wrong on our side."@
}

/// The message for a failure whose details stay inside.
pub fn internal_error() -> (message: String)
    ensures
        message@ == internal_error_message(),
{
    String::from_str("Something went wrong on our side.")
}

/// How a piece of outside work went.
#[derive(Debug)]
pub enum Outcome {
    Succeeded,
    /// It failed, for the reason given.
    Failed(ErrorChain),
}

/// An [`Outcome`] as a mathematical value.
pub enum OutcomeView {
    Succeeded,
    Failed(ErrorChainView),
}

impl View for Outcome {
    type V = OutcomeView;

    open spec fn view(&self) -> OutcomeView {
        match *self {
            Outcome::Succeeded => OutcomeView::Succeeded,
            Outcome::Failed(cause) => OutcomeView::Failed(cause@),
        }
    }
}

} // verus!
