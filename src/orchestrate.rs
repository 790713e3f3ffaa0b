use vstd::prelude::*;
use crate::account::StartupError;

verus! {

/// The connections that initial establishment produced, in account order.
pub open spec fn survivors<T>(s: Seq<Option<T>>) -> Seq<T>
    decreases s.len(),
{
    if s.len() == 0 {
        Seq::empty()
    } else {
        let rest = survivors(s.drop_last());
        match s.last() {
            Some(c) => rest.push(c),
            None => rest,
        }
    }
}

/// No account yields a connection exactly when none survives.
pub proof fn lemma_survivors_empty<T>(s: Seq<Option<T>>)
    ensures
        survivors(s).len() == 0 <==> forall|i: int| 0 <= i < s.len() ==> #[trigger] s[i] is None,
    decreases s.len(),
{
    if s.len() > 0 {
        lemma_survivors_empty(s.drop_last());
        if survivors(s).len() == 0 {
            assert forall|i: int| 0 <= i < s.len() implies #[trigger] s[i] is None by {
                if i < s.len() - 1 {
                    assert(s.drop_last()[i] == s[i]);
                }
            }
        } else if forall|i: int| 0 <= i < s.len() ==> #[trigger] s[i] is None {
            assert forall|i: int| 0 <= i < s.drop_last().len() implies #[trigger] s.drop_last()[i] is None by {
                assert(s[i] is None);
            }
            assert(s[s.len() - 1] is None);
        }
    }
}

/// Keeps the accounts whose initial establishment succeeded; when none did,
/// start-up fails for want of connections.
pub fn select_connected<T>(outcomes: Vec<Option<T>>) -> (r: Result<Vec<T>, StartupError>)
    ensures
        match r {
            Ok(v) => v@ == survivors(outcomes@) && v@.len() > 0,
            Err(e) => e == StartupError::NoConnections && survivors(outcomes@).len() == 0,
        },
        r is Err <==> forall|i: int| 0 <= i < outcomes@.len() ==> #[trigger] outcomes@[i] is None,
{
    let ghost all = outcomes@;
    let mut rest = outcomes;
    let mut kept: Vec<T> = Vec::new();
    while rest.len() > 0
        invariant
            all == all.subrange(0, all.len() - rest@.len()) + rest@,
            rest@.len() <= all.len(),
            kept@ == survivors(all.subrange(0, all.len() - rest@.len())),
        decreases rest@.len(),
    {
        let ghost done = all.subrange(0, all.len() - rest@.len());
        let o = rest.remove(0);
        let ghost next = all.subrange(0, all.len() - rest@.len());
        assert(next.drop_last() =~= done);
        assert(next.last() == o);
        match o {
            Some(c) => kept.push(c),
            None => {},
        }
    }
    assert(all.subrange(0, all.len() as int) =~= all);
    proof {
        lemma_survivors_empty(all);
    }
    if kept.len() == 0 {
        Err(StartupError::NoConnections)
    } else {
        Ok(kept)
    }
}

} // verus!
