//! The slot that holds the target URL.

use vstd::prelude::*;

verus! {

/// The URL that requests are relayed to, or nothing while none is configured.
///
/// A store is a plain value: whoever shares it between request handlers puts
/// it behind a readers-writer lock, so that `read` runs under shared access
/// and `replace` under exclusive access.
pub struct UrlStore {
    slot: Option<String>,
}

impl View for UrlStore {
    type V = Option<Seq<char>>;

    closed spec fn view(&self) -> Option<Seq<char>> {
        self.slot.deep_view()
    }
}

impl UrlStore {
    /// A store that starts with `initial`.
    pub fn new(initial: Option<String>) -> (store: UrlStore)
        ensures
            store@ == initial.deep_view(),
    {
        UrlStore { slot: initial }
    }

    /// A copy of the current value. The store is left as it is.
    pub fn read(&self) -> (current: Option<String>)
        ensures
            current.deep_view() == self@,
    {
        match &self.slot {
            Some(url) => Some(url.clone()),
            None => None,
        }
    }

    /// Overwrites the slot with `new_value`, whatever it held.
    pub fn replace(&mut self, new_value: String)
        ensures
            final(self)@ == Some(new_value@),
            final(self)@ == after_call(old(self)@, Call::Replace(new_value@)),
    {
        self.slot = Some(new_value);
    }
}

/// One call on a store, as a history of calls records it.
pub enum Call {
    Read,
    Replace(Seq<char>),
}

/// The value of a store that held `value`, after one call: a read leaves it,
/// a replace puts its argument in its place.
pub open spec fn after_call(value: Option<Seq<char>>, call: Call) -> Option<Seq<char>> {
    match call {
        Call::Read => value,
        Call::Replace(url) => Some(url),
    }
}

/// The value of a store that started with `initial`, after the calls of
/// `history`, each completed before the next began.
pub open spec fn after_calls(initial: Option<Seq<char>>, history: Seq<Call>) -> Option<Seq<char>>
    decreases history.len(),
{
    if history.len() == 0 {
        initial
    } else {
        after_call(after_calls(initial, history.drop_last()), history.last())
    }
}

/// What a read returns that is the call at position `i` of `history`: the
/// value that the calls before it have left.
pub open spec fn read_at(initial: Option<Seq<char>>, history: Seq<Call>, i: int) -> Option<Seq<char>> {
    after_calls(initial, history.take(i))
}

/// Whether a replace with the argument `url` is among the first `i` calls of
/// `history`.
pub open spec fn replaced_before(history: Seq<Call>, i: int, url: Seq<char>) -> bool {
    exists|j: int| 0 <= j < i && #[trigger] history[j] == Call::Replace(url)
}

/// Whether no replace is among the first `i` calls of `history`.
pub open spec fn only_reads_before(history: Seq<Call>, i: int) -> bool {
    forall|j: int| 0 <= j < i ==> #[trigger] history[j] is Read
}

/// In every history of reads and replaces, a read returns the argument of a
/// replace that completed before it, or the initial value if no replace did.
pub proof fn lemma_read_returns_written(initial: Option<Seq<char>>, history: Seq<Call>, i: int)
    requires
        0 <= i <= history.len(),
    ensures
        only_reads_before(history, i) ==> read_at(initial, history, i) == initial,
        !only_reads_before(history, i) ==> (read_at(initial, history, i) matches Some(url)
            && replaced_before(history, i, url)),
    decreases i,
{
    if i > 0 {
        assert(history.take(i).drop_last() =~= history.take(i - 1));
        assert(history.take(i).last() == history[i - 1]);
        lemma_read_returns_written(initial, history, i - 1);
        match history[i - 1] {
            Call::Read => {
                if !only_reads_before(history, i - 1) {
                    let url = read_at(initial, history, i)->0;
                    let j = choose|j: int| 0 <= j < i - 1 && #[trigger] history[j] == Call::Replace(url);
                    assert(0 <= j < i && history[j] == Call::Replace(url));
                }
            },
            Call::Replace(url) => {
                assert(history[i - 1] == Call::Replace(url));
            },
        }
    }
}

/// The last replace to complete is the one that later reads observe: after a
/// replace at position `j` and nothing but reads up to position `i`, the
/// store holds that replace's argument.
pub proof fn lemma_read_observes_latest_replace(
    initial: Option<Seq<char>>,
    history: Seq<Call>,
    j: int,
    i: int,
)
    requires
        0 <= j < i <= history.len(),
        history[j] is Replace,
        forall|k: int| j < k < i ==> #[trigger] history[k] is Read,
    ensures
        read_at(initial, history, i) == Some(history[j]->0),
    decreases i,
{
    assert(history.take(i).drop_last() =~= history.take(i - 1));
    assert(history.take(i).last() == history[i - 1]);
    if j < i - 1 {
        lemma_read_observes_latest_replace(initial, history, j, i - 1);
    }
}

} // verus!
