//! What holds of the session whatever its state: the cursor goes round the
//! list and stays inside it, and searching never touches the list.

use crate::app::{before_index, clamp_index, next_index, AppView, Pending, Status};
use crate::handler::{key_step, Key};
use crate::tcp::{AckView, TransportError};
use vstd::prelude::*;

verus! {

/// In a list of at least one item, the step forward from the last item
/// leads to the first, and the step back from the first leads to the last.
/// In an empty list neither step moves the cursor.
pub proof fn lemma_selection_wraps(selected: int, len: int)
    ensures
        len >= 1 ==> next_index(len - 1, len) == 0,
        len >= 1 ==> before_index(0, len) == len - 1,
        len == 0 ==> next_index(selected, len) == selected,
        len == 0 ==> before_index(selected, len) == selected,
{
    if len >= 1 {
        assert(len % len == 0) by (nonlinear_arith)
            requires
                len >= 1,
        ;
    }
}

/// A step forward or back from a position in the list leads to a position
/// in the list, and a step forward undoes a step back.
pub proof fn lemma_selection_stays(selected: int, len: int)
    requires
        0 <= selected < len,
    ensures
        0 <= next_index(selected, len) < len,
        0 <= before_index(selected, len) < len,
        next_index(before_index(selected, len), len) == selected,
        before_index(next_index(selected, len), len) == selected,
{
    assert(0 <= (selected + 1) % len < len) by (nonlinear_arith)
        requires
            0 <= selected < len,
    ;
    assert(selected + 1 < len ==> (selected + 1) % len == selected + 1) by (nonlinear_arith)
        requires
            0 <= selected < len,
    ;
    assert(selected + 1 == len ==> (selected + 1) % len == 0) by (nonlinear_arith)
        requires
            0 <= selected < len,
    ;
    assert(selected > 0 ==> (selected - 1) % len == selected - 1) by (nonlinear_arith)
        requires
            0 <= selected < len,
    ;
    assert(len % len == 0) by (nonlinear_arith)
        requires
            0 < len,
    ;
    assert(selected % len == selected) by (nonlinear_arith)
        requires
            0 <= selected < len,
    ;
}

/// The cursor that `clamp_index` gives points into the list whenever the
/// list has an item, and is left alone where it did so before.
pub proof fn lemma_clamp_index(selected: int, len: int)
    requires
        0 <= selected,
        0 <= len,
    ensures
        len > 0 ==> 0 <= clamp_index(selected, len) < len,
        selected < len ==> clamp_index(selected, len) == selected,
{
}

/// Entering and leaving the search changes neither the list nor the cursor
/// nor any text, and leaving the search after entering it from the list
/// gives back the state as it was.
pub proof fn lemma_search_keeps_list(v: AppView)
    ensures
        v.search().list == v.list,
        v.search().selected == v.selected,
        v.search().page == v.page,
        v.status == Status::List ==> v.search().status == Status::Search && v.search().search()
            == v,
        v.status == Status::Search ==> v.search().status == Status::List,
{
}

/// Typing into the search area changes what is shown, never the list.
pub proof fn lemma_search_input_keeps_list(v: AppView, text: Seq<char>)
    ensures
        v.search_input(text).list == v.list,
        v.search_input(text).selected == v.selected,
        v.search_input(text).status == v.status,
{
}

/// No key moves the cursor out of the list: a state whose cursor points at
/// an item whenever there is one is followed by such a state.
pub proof fn lemma_key_step_wf(v: AppView, key: Key)
    requires
        v.wf(),
    ensures
        key_step(v, key).0.wf(),
        key_step(v, key).0.list == v.list,
{
    if v.list.len() > 0 {
        lemma_selection_stays(v.selected, v.list.len() as int);
    }
}

/// No reply moves the cursor out of the list, and only an `Info` that was
/// waited for changes the list.
pub proof fn lemma_reply_wf(v: AppView, result: Result<AckView, TransportError>)
    requires
        v.wf(),
        0 <= v.selected,
    ensures
        v.reply(result).wf(),
        v.reply(result).list != v.list ==> v.pending == Pending::Listing && result
            == Ok::<AckView, TransportError>(AckView::Info { list: v.reply(result).list }),
{
}

} // verus!
