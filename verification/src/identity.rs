//! Identities of editor sessions and the counter that issues them.

use vstd::prelude::*;

verus! {

/// Identity of one editor session. Identities are ordered by their number and
/// serve to tell sessions apart in records; they carry no other meaning.
#[derive(Clone, Copy, Debug, PartialEq, Eq, Structural, PartialOrd, Ord, Hash)]
pub struct EditorId(pub usize);

/// Issues editor identities in increasing order, starting at zero.
///
/// The view of a source is the number of identities it has issued, which is
/// also the number of the identity it issues next.
#[derive(Debug)]
pub struct EditorIdSource {
    next: usize,
}

impl View for EditorIdSource {
    type V = nat;

    closed spec fn view(&self) -> nat {
        self.next as nat
    }
}

/// True when a source that has issued `issued` identities has none left: the
/// numbers below `usize::MAX` are the identities there are.
pub open spec fn exhausted(issued: nat) -> bool {
    issued >= usize::MAX
}

/// What a source that has issued `issued` identities hands out next.
pub open spec fn upcoming(issued: nat) -> Option<EditorId> {
    if exhausted(issued) {
        None
    } else {
        Some(EditorId(issued as usize))
    }
}

/// The number of identities issued once one more was asked for.
pub open spec fn after_issue(issued: nat) -> nat {
    if exhausted(issued) {
        issued
    } else {
        issued + 1
    }
}

impl EditorIdSource {
    /// A source that has issued nothing yet.
    pub fn new() -> (source: Self)
        ensures
            source@ == 0,
    {
        EditorIdSource { next: 0 }
    }

    /// A source that has issued `issued` identities already and goes on
    /// from there.
    pub fn having_issued(issued: usize) -> (source: Self)
        ensures
            source@ == issued,
    {
        EditorIdSource { next: issued }
    }

    /// Issues the next identity, or `None` once every identity has been
    /// issued; an exhausted source stays as it is.
    pub fn next_editor_id(&mut self) -> (id: Option<EditorId>)
        ensures
            id == upcoming(old(self)@),
            final(self)@ == after_issue(old(self)@),
    {
        if self.next == usize::MAX {
            None
        } else {
            let id = EditorId(self.next);
            self.next = self.next + 1;
            Some(id)
        }
    }

    /// The number of identities issued so far.
    pub fn issued(&self) -> (count: usize)
        ensures
            count == self@,
    {
        self.next
    }
}

/// The number of identities issued after `calls` requests in a row.
pub open spec fn after_issues(issued: nat, calls: nat) -> nat
    decreases calls,
{
    if calls == 0 {
        issued
    } else {
        after_issues(after_issue(issued), (calls - 1) as nat)
    }
}

/// The identity handed out by request number `call` (counted from zero) of a
/// run of requests on a source that had issued `issued` identities before.
pub open spec fn issued_at(issued: nat, call: nat) -> Option<EditorId> {
    upcoming(after_issues(issued, call))
}

/// A run of requests moves the count up by one per request until the source
/// is exhausted, and never past that.
pub proof fn after_issues_counts(issued: nat, calls: nat)
    requires
        issued <= usize::MAX,
    ensures
        after_issues(issued, calls) == if issued + calls <= usize::MAX {
            issued + calls
        } else {
            usize::MAX as nat
        },
    decreases calls,
{
    if calls > 0 {
        after_issues_counts(after_issue(issued), (calls - 1) as nat);
    }
}

/// Identities come out strictly increasing: of two requests in one run, the
/// later one, if it is served at all, gets a greater identity than the
/// earlier one, so no identity is issued twice.
pub proof fn identities_strictly_increase(issued: nat, earlier: nat, later: nat)
    requires
        issued <= usize::MAX,
        earlier < later,
        issued_at(issued, later) is Some,
    ensures
        issued + later < usize::MAX,
        issued_at(issued, earlier) == Some(EditorId((issued + earlier) as usize)),
        issued_at(issued, later) == Some(EditorId((issued + later) as usize)),
        issued_at(issued, earlier) matches Some(first) && issued_at(issued, later) matches Some(
            second,
        ) && first.0 < second.0,
{
    after_issues_counts(issued, earlier);
    after_issues_counts(issued, later);
}

/// Once a request goes unserved, every later request goes unserved too.
pub proof fn exhaustion_is_final(issued: nat, earlier: nat, later: nat)
    requires
        issued <= usize::MAX,
        earlier <= later,
        issued_at(issued, earlier) is None,
    ensures
        issued_at(issued, later) is None,
{
    after_issues_counts(issued, earlier);
    after_issues_counts(issued, later);
}

} // verus!
