use vstd::prelude::*;

verus! {

/// The abstract state of an event stream.
pub struct StreamModel {
    /// Whether an exchange is held in the in-flight slot.
    pub active: bool,
    /// How many exchanges the stream has issued so far.
    pub issued: nat,
    /// How many outcomes the stream has handed to its consumer so far.
    pub yielded: nat,
}

/// The state of a stream before its first pull.
pub open spec fn initial_model() -> StreamModel {
    StreamModel { active: false, issued: 0, yielded: 0 }
}

/// The first half of a pull: an idle stream issues an exchange and becomes active.
pub open spec fn begin_spec(m: StreamModel) -> StreamModel {
    if m.active {
        m
    } else {
        StreamModel { active: true, issued: m.issued + 1, yielded: m.yielded }
    }
}

/// The second half of a pull, given what polling the held exchange gave
/// (`None` while it is unresolved): a resolved exchange is replaced by a new
/// one before its outcome is yielded.
pub open spec fn complete_spec<O>(m: StreamModel, polled: Option<O>) -> (StreamModel, Option<O>) {
    match polled {
        None => (m, None),
        Some(o) => (
            StreamModel { active: true, issued: m.issued + 1, yielded: m.yielded + 1 },
            Some(o),
        ),
    }
}

/// One whole pull of the stream.
pub open spec fn pull_spec<O>(m: StreamModel, polled: Option<O>) -> (StreamModel, Option<O>) {
    complete_spec(begin_spec(m), polled)
}

/// The slot holds an exchange exactly when one was issued, and every issued
/// exchange but the held one has been yielded.
pub open spec fn model_wf(m: StreamModel) -> bool {
    if m.active {
        m.issued == m.yielded + 1
    } else {
        m.issued == 0 && m.yielded == 0
    }
}

/// The state reached and the outcomes yielded, in order, by pulling a stream
/// once for each entry of `polls`, where each entry is what polling the held
/// exchange gave during that pull.
pub open spec fn run<O>(m: StreamModel, polls: Seq<Option<O>>) -> (StreamModel, Seq<O>)
    decreases polls.len(),
{
    if polls.len() == 0 {
        (m, Seq::empty())
    } else {
        let (before, out) = run(m, polls.drop_last());
        let (after, y) = pull_spec(before, polls.last());
        match y {
            None => (after, out),
            Some(o) => (after, out.push(o)),
        }
    }
}

/// The outcomes among `polls`, in the order in which the exchanges resolved.
pub open spec fn resolutions<O>(polls: Seq<Option<O>>) -> Seq<O>
    decreases polls.len(),
{
    if polls.len() == 0 {
        Seq::empty()
    } else {
        match polls.last() {
            None => resolutions(polls.drop_last()),
            Some(o) => resolutions(polls.drop_last()).push(o),
        }
    }
}

/// How many of `polls` resolved an exchange.
pub open spec fn count_resolved<O>(polls: Seq<Option<O>>) -> nat
    decreases polls.len(),
{
    if polls.len() == 0 {
        0
    } else {
        count_resolved(polls.drop_last()) + if polls.last() is Some { 1nat } else { 0nat }
    }
}

/// A pull keeps the stream well formed.
pub proof fn lemma_pull_wf<O>(m: StreamModel, polled: Option<O>)
    requires
        model_wf(m),
    ensures
        model_wf(pull_spec(m, polled).0),
        pull_spec(m, polled).0.active,
{
}

/// Whatever the exchanges resolve to, the stream yields every outcome once,
/// in exactly the order in which the exchanges resolved.
pub proof fn lemma_order_preserved<O>(polls: Seq<Option<O>>)
    ensures
        run(initial_model(), polls).1 == resolutions(polls),
    decreases polls.len(),
{
    if polls.len() > 0 {
        lemma_order_preserved(polls.drop_last());
    }
}

/// Prefetch: once the stream has yielded its first outcome, it has always
/// issued exactly one exchange more than it has yielded; the yielded count is
/// the number of exchanges that resolved. Before any pull nothing is issued.
pub proof fn lemma_prefetch<O>(polls: Seq<Option<O>>)
    ensures
        model_wf(run(initial_model(), polls).0),
        run(initial_model(), polls).0.yielded == count_resolved(polls),
        run(initial_model(), polls).0.yielded > 0 ==> run(initial_model(), polls).0.issued
            == run(initial_model(), polls).0.yielded + 1,
        polls.len() > 0 ==> run(initial_model(), polls).0.active,
    decreases polls.len(),
{
    if polls.len() > 0 {
        lemma_prefetch(polls.drop_last());
        lemma_pull_wf(run(initial_model(), polls.drop_last()).0, polls.last());
    }
}

/// An error outcome does not end the sequence: it is yielded as an item, the
/// next exchange is issued before it is handed out, and the following pull
/// can still yield a success.
pub proof fn lemma_error_transparent<T, E>(m: StreamModel, e: E, v: T)
    requires
        model_wf(m),
    ensures
        pull_spec(m, Some(Err::<T, E>(e))).1 == Some(Err::<T, E>(e)),
        pull_spec(m, Some(Err::<T, E>(e))).0.active,
        pull_spec(m, Some(Err::<T, E>(e))).0.issued == begin_spec(m).issued + 1,
        pull_spec(pull_spec(m, Some(Err::<T, E>(e))).0, Some(Ok::<T, E>(v))).1 == Some(
            Ok::<T, E>(v),
        ),
        pull_spec(pull_spec(m, Some(Err::<T, E>(e))).0, Some(Ok::<T, E>(v))).0.issued
            == pull_spec(m, Some(Err::<T, E>(e))).0.issued + 1,
{
}

/// What the driver of a stream must do once the held exchange was polled.
pub enum Action<O> {
    /// The exchange is unresolved: report "not ready" and keep it held.
    Wait,
    /// The exchange resolved: issue the next exchange into the slot, then
    /// yield this outcome.
    IssueThenYield(O),
}

impl<O> Action<O> {
    /// The outcome that this action yields, if any.
    pub open spec fn yielded(self) -> Option<O> {
        match self {
            Action::Wait => None,
            Action::IssueThenYield(o) => Some(o),
        }
    }
}

/// The decisions of an event stream. The caller owns the in-flight exchange
/// itself; this object says when to issue one and what to report.
pub struct EventStream {
    active: bool,
    issued: Ghost<nat>,
    yielded: Ghost<nat>,
}

impl View for EventStream {
    type V = StreamModel;

    closed spec fn view(&self) -> StreamModel {
        StreamModel { active: self.active, issued: self.issued@, yielded: self.yielded@ }
    }
}

impl EventStream {
    /// A stream that has not been pulled yet: its slot is empty.
    pub fn new() -> (r: EventStream)
        ensures
            r@ == initial_model(),
            model_wf(r@),
    {
        EventStream { active: false, issued: Ghost(0), yielded: Ghost(0) }
    }

    /// Whether an exchange is held in the in-flight slot.
    pub fn is_active(&self) -> (r: bool)
        ensures
            r == self@.active,
    {
        self.active
    }

    /// Starts a pull. Returns `true` when the slot was empty: the caller must
    /// then issue a new exchange into it before polling, within this same pull.
    pub fn begin_pull(&mut self) -> (issue: bool)
        requires
            model_wf(old(self)@),
        ensures
            issue == !old(self)@.active,
            final(self)@ == begin_spec(old(self)@),
            final(self)@.active,
            model_wf(final(self)@),
    {
        if self.active {
            false
        } else {
            self.active = true;
            self.issued = Ghost(self.issued@ + 1);
            true
        }
    }

    /// Ends a pull with what polling the held exchange gave: `None` while it
    /// is unresolved, else its outcome, success or error alike.
    pub fn complete_pull<O>(&mut self, polled: Option<O>) -> (r: Action<O>)
        requires
            model_wf(old(self)@),
            old(self)@.active,
        ensures
            r.yielded() == polled,
            (final(self)@, r.yielded()) == complete_spec(old(self)@, polled),
            final(self)@.active,
            model_wf(final(self)@),
    {
        match polled {
            None => Action::Wait,
            Some(o) => {
                self.issued = Ghost(self.issued@ + 1);
                self.yielded = Ghost(self.yielded@ + 1);
                Action::IssueThenYield(o)
            },
        }
    }
}

} // verus!
