//! Ticking and unticking audio devices in the settings: a device is added at
//! most once, and the last selected device of both lists cannot be unticked.

use vstd::prelude::*;
use crate::text::text_eq;

verus! {

/// `sel` without any entry equal to `d`, in order.
pub open spec fn without(sel: Seq<Seq<char>>, d: Seq<char>) -> Seq<Seq<char>>
    decreases sel.len(),
{
    if sel.len() == 0 {
        Seq::empty()
    } else {
        let rest = without(sel.drop_last(), d);
        if sel.last() == d {
            rest
        } else {
            rest.push(sel.last())
        }
    }
}

/// The selection after the tick box of `d` was set to `checked`.
pub open spec fn selection_after(sel: Seq<Seq<char>>, d: Seq<char>, checked: bool) -> Seq<Seq<char>> {
    if checked {
        if sel.contains(d) {
            sel
        } else {
            sel.push(d)
        }
    } else {
        without(sel, d)
    }
}

/// No device is listed twice.
pub open spec fn no_duplicates(sel: Seq<Seq<char>>) -> bool {
    forall|i: int, j: int| 0 <= i < j < sel.len() ==> sel[i] != sel[j]
}

/// Whether `device` is selected.
pub fn is_selected(selected: &Vec<String>, device: &str) -> (b: bool)
    ensures
        b == selected.deep_view().contains(device@),
{
    let mut i: usize = 0;
    while i < selected.len()
        invariant
            i <= selected@.len(),
            forall|k: int| 0 <= k < i ==> #[trigger] selected@[k]@ != device@,
        decreases selected@.len() - i,
    {
        if text_eq(selected[i].as_str(), device) {
            assert(selected.deep_view()[i as int] == device@);
            return true;
        }
        i = i + 1;
    }
    assert forall|k: int| 0 <= k < selected.deep_view().len() implies selected.deep_view()[k] != device@ by {
        assert(selected@[k]@ != device@);
    }
    false
}

/// Whether the tick box of `device` is locked: it is ticked and it is the only
/// selected device of this list and the other list (`other_selected_count`).
pub fn is_last_selected(selected: &Vec<String>, device: &str, other_selected_count: usize) -> (b: bool)
    ensures
        b == (selected.deep_view().contains(device@) && selected@.len() + other_selected_count <= 1),
{
    is_selected(selected, device) && selected.len() as u128 + other_selected_count as u128 <= 1
}

/// Sets the tick box of `device`: ticking adds it at the end unless it is
/// already there; unticking removes every entry equal to it.
pub fn set_selected(selected: &mut Vec<String>, device: &str, checked: bool)
    ensures
        final(selected).deep_view() == selection_after(old(selected).deep_view(), device@, checked),
{
    if checked {
        if !is_selected(selected, device) {
            let ghost before = selected.deep_view();
            selected.push(device.to_string());
            assert(selected.deep_view() =~= before.push(device@));
        }
        return;
    }
    let mut kept: Vec<String> = Vec::new();
    let mut i: usize = 0;
    while i < selected.len()
        invariant
            i <= selected@.len(),
            selected@ == old(selected)@,
            kept.deep_view() == without(selected.deep_view().subrange(0, i as int), device@),
        decreases selected@.len() - i,
    {
        let ghost pre = selected.deep_view().subrange(0, i as int);
        let ghost post = selected.deep_view().subrange(0, i + 1);
        assert(post.drop_last() =~= pre);
        assert(post.last() == selected@[i as int]@);
        if !text_eq(selected[i].as_str(), device) {
            let ghost before = kept.deep_view();
            let c = selected[i].clone();
            kept.push(c);
            assert(kept.deep_view() =~= before.push(selected@[i as int]@));
        }
        i = i + 1;
    }
    assert(selected.deep_view().subrange(0, selected@.len() as int) =~= selected.deep_view());
    *selected = kept;
}

proof fn lemma_without_absent(sel: Seq<Seq<char>>, d: Seq<char>)
    requires
        !sel.contains(d),
    ensures
        without(sel, d) == sel,
    decreases sel.len(),
{
    if sel.len() > 0 {
        assert(!sel.drop_last().contains(d)) by {
            if sel.drop_last().contains(d) {
                let k = choose|k: int| 0 <= k < sel.drop_last().len() && sel.drop_last()[k] == d;
                assert(sel[k] == d);
            }
        }
        lemma_without_absent(sel.drop_last(), d);
        assert(sel.last() != d) by {
            if sel.last() == d {
                assert(sel[sel.len() - 1] == d);
            }
        }
        assert(sel.drop_last().push(sel.last()) =~= sel);
    }
}

proof fn lemma_without_once(sel: Seq<Seq<char>>, d: Seq<char>)
    requires
        no_duplicates(sel),
        sel.contains(d),
    ensures
        without(sel, d).len() + 1 == sel.len(),
    decreases sel.len(),
{
    let init = sel.drop_last();
    if sel.last() == d {
        assert(!init.contains(d)) by {
            if init.contains(d) {
                let k = choose|k: int| 0 <= k < init.len() && init[k] == d;
                assert(sel[k] == sel[sel.len() - 1]);
            }
        }
        lemma_without_absent(init, d);
    } else {
        assert(init.contains(d)) by {
            let k = choose|k: int| 0 <= k < sel.len() && sel[k] == d;
            assert(k != sel.len() - 1);
            assert(init[k] == d);
        }
        assert(no_duplicates(init)) by {
            assert forall|i: int, j: int| 0 <= i < j < init.len() implies init[i] != init[j] by {
                assert(sel[i] != sel[j]);
            }
        }
        lemma_without_once(init, d);
    }
}

/// The selection never empties: starting from at least one selected device
/// over both lists, setting a tick box that is not locked leaves at least one,
/// when no device is listed twice.
pub proof fn law_selection_never_empties(sel: Seq<Seq<char>>, d: Seq<char>, checked: bool, other: nat)
    requires
        no_duplicates(sel),
        sel.len() + other >= 1,
        !(sel.contains(d) && sel.len() + other <= 1),
    ensures
        selection_after(sel, d, checked).len() + other >= 1,
{
    if !checked {
        if sel.contains(d) {
            lemma_without_once(sel, d);
        } else {
            lemma_without_absent(sel, d);
        }
    }
}

/// Ticking a device never lists it twice: the selection keeps having no
/// duplicates.
pub proof fn law_selection_keeps_no_duplicates(sel: Seq<Seq<char>>, d: Seq<char>, checked: bool)
    requires
        no_duplicates(sel),
    ensures
        no_duplicates(selection_after(sel, d, checked)),
{
    if !checked {
        lemma_without_sub(sel, d);
    } else if !sel.contains(d) {
        let s2 = sel.push(d);
        assert forall|i: int, j: int| 0 <= i < j < s2.len() implies s2[i] != s2[j] by {
            if j == sel.len() {
                assert(sel[i] != d) by {
                    if sel[i] == d {
                        assert(sel.contains(d));
                    }
                }
            } else {
                assert(sel[i] != sel[j]);
            }
        }
    }
}

proof fn lemma_without_sub(sel: Seq<Seq<char>>, d: Seq<char>)
    requires
        no_duplicates(sel),
    ensures
        no_duplicates(without(sel, d)),
        forall|x: Seq<char>| without(sel, d).contains(x) ==> sel.contains(x),
    decreases sel.len(),
{
    if sel.len() > 0 {
        let init = sel.drop_last();
        assert(no_duplicates(init)) by {
            assert forall|i: int, j: int| 0 <= i < j < init.len() implies init[i] != init[j] by {
                assert(sel[i] != sel[j]);
            }
        }
        lemma_without_sub(init, d);
        let r = without(init, d);
        assert forall|x: Seq<char>| without(sel, d).contains(x) implies sel.contains(x) by {
            if r.contains(x) {
                assert(init.contains(x));
                let k = choose|k: int| 0 <= k < init.len() && init[k] == x;
                assert(sel[k] == x);
            } else {
                assert(x == sel.last());
                assert(sel[sel.len() - 1] == x);
            }
        }
        if sel.last() != d {
            let s2 = r.push(sel.last());
            assert forall|i: int, j: int| 0 <= i < j < s2.len() implies s2[i] != s2[j] by {
                if j == r.len() {
                    if s2[i] == s2[j] {
                        assert(r.contains(sel.last()));
                        assert(init.contains(sel.last()));
                        let k = choose|k: int| 0 <= k < init.len() && init[k] == sel.last();
                        assert(sel[k] == sel[sel.len() - 1]);
                    }
                }
            }
        }
    }
}

} // verus!
