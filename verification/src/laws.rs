//! The algebra of the selection cursor and of the buffer commit, stated
//! over the mathematical model and proved once for every state.

use vstd::prelude::*;

use crate::state::AppModel;
use crate::state::Mode;

verus! {

/// `n` applications of the select-next rule.
pub open spec fn iterate_select_next(m: AppModel, n: nat) -> AppModel
    decreases n,
{
    if n == 0 {
        m
    } else {
        iterate_select_next(m, (n - 1) as nat).select_next()
    }
}

/// After `n <= len` steps forward, the cursor sits `n` places after where
/// it started, wrapped once past the end; nothing else changes.
proof fn lemma_iterate_select_next_shifts(m: AppModel, n: nat)
    requires
        m.wf(),
        m.items.len() > 0,
        n <= m.items.len(),
    ensures
        ({
            let len = m.items.len() as int;
            let s = m.selected->0;
            iterate_select_next(m, n) == AppModel {
                selected: Some(if s + n < len { s + n } else { s + n - len }),
                ..m
            }
        }),
    decreases n,
{
    let len = m.items.len() as int;
    let s = m.selected->0;
    if n == 0 {
        assert(iterate_select_next(m, 0) =~= AppModel { selected: Some(s), ..m });
    } else {
        lemma_iterate_select_next_shifts(m, (n - 1) as nat);
        let t = if s + n - 1 < len { s + n - 1 } else { s + n - 1 - len };
        assert(iterate_select_next(m, n) =~= AppModel {
            selected: Some(if t + 1 < len { t + 1 } else { 0 }),
            ..m
        });
        assert(iterate_select_next(m, n) =~= AppModel {
            selected: Some(if s + n < len { s + n } else { s + n - len }),
            ..m
        });
    }
}

/// Cyclic invariant of the cursor: on a non-empty list, advancing the
/// selection once per item returns the state exactly to where it started.
pub proof fn lemma_select_next_full_cycle(m: AppModel)
    requires
        m.wf(),
        m.items.len() > 0,
    ensures
        iterate_select_next(m, m.items.len()) == m,
{
    lemma_iterate_select_next_shifts(m, m.items.len());
    assert(iterate_select_next(m, m.items.len()) =~= m);
}

/// On a non-empty list, the select-previous rule is the exact inverse of
/// the select-next rule, in both orders.
pub proof fn lemma_select_previous_inverts_select_next(m: AppModel)
    requires
        m.wf(),
        m.items.len() > 0,
    ensures
        m.select_next().select_previous() == m,
        m.select_previous().select_next() == m,
{
    assert(m.select_next().select_previous() =~= m);
    assert(m.select_previous().select_next() =~= m);
}

/// Right after a commit the input buffer is empty, the mode is Normal,
/// and the item list is longer by exactly one.
pub proof fn lemma_commit_clears_and_appends(m: AppModel)
    ensures
        m.commit().input.len() == 0,
        m.commit().mode == Mode::Normal,
        m.commit().items.len() == m.items.len() + 1,
{
}

/// Deleting the selected item of a single-item list empties the list and
/// leaves the cursor absent.
pub proof fn lemma_delete_only_item(m: AppModel)
    requires
        m.wf(),
        m.items.len() == 1,
    ensures
        m.delete_selected().items.len() == 0,
        m.delete_selected().selected is None,
{
}

/// Deleting the last index of a multi-item list re-clamps the cursor to
/// the new last index, one before the old one.
pub proof fn lemma_delete_last_index_reclamps(m: AppModel)
    requires
        m.wf(),
        m.items.len() >= 2,
        m.selected == Some(m.items.len() as int - 1),
    ensures
        m.delete_selected().items.len() == m.items.len() - 1,
        m.delete_selected().selected == Some(m.items.len() as int - 2),
{
}

} // verus!
